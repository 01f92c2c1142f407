use package_updater::config::{default_true, interval_from_input, parse_u32_text, PackageUpdaterConfig, CONFIG_VERSION};
use package_updater::terminal::{escape_quotes, marker_file_path, runtime_dir, terminal_script};

#[test]
fn config_defaults() {
    let c = PackageUpdaterConfig::default();
    assert_eq!(c.check_interval_minutes, 60);
    assert!(c.auto_check_on_startup && c.include_aur_updates && c.include_flatpak_updates);
    assert!(c.show_notifications && c.show_update_count);
    assert_eq!(c.preferred_terminal, "cosmic-term");
    assert!(default_true());
    assert_eq!(CONFIG_VERSION, 1);
}

#[test]
fn duplicate_copies_every_field() {
    let mut c = PackageUpdaterConfig::default();
    c.preferred_terminal = "alacritty".to_string();
    c.check_interval_minutes = 5;
    assert_eq!(c.duplicate(), c);
}

#[test]
fn interval_in_seconds() {
    let mut c = PackageUpdaterConfig::default();
    assert_eq!(c.check_interval_secs(), 3600);
    c.check_interval_minutes = 1440;
    assert_eq!(c.check_interval_secs(), 86400);
}

#[test]
fn terminal_field_falls_back() {
    let mut c = PackageUpdaterConfig::default();
    c.preferred_terminal = String::new();
    assert_eq!(c.terminal_field_value(), "cosmic-term");
    c.preferred_terminal = "foot".to_string();
    assert_eq!(c.terminal_field_value(), "foot");
}

#[test]
fn parse_u32_like_std() {
    for s in ["0", "7", "+42", "0012", "4294967295", "", "+", "-1", "4294967296", "12a", " 5", "99999999999999999999"] {
        assert_eq!(parse_u32_text(s), s.parse::<u32>().ok(), "{s:?}");
    }
}

#[test]
fn interval_input_clamped() {
    assert_eq!(interval_from_input("30"), 30);
    assert_eq!(interval_from_input("0"), 1);
    assert_eq!(interval_from_input("5000"), 1440);
    assert_eq!(interval_from_input("abc"), 60);
    assert_eq!(interval_from_input(""), 60);
    assert_eq!(interval_from_input("+15"), 15);
    assert_eq!(interval_from_input("99999999999"), 60);
}

#[test]
fn interval_round_trips_through_text() {
    for m in [1u32, 9, 10, 60, 999, 1440] {
        assert_eq!(interval_from_input(&m.to_string()), m);
    }
}

#[test]
fn runtime_dir_fallback() {
    assert_eq!(runtime_dir(Some("/run/user/1000".to_string())), "/run/user/1000");
    assert_eq!(runtime_dir(None), "/tmp");
}

#[test]
fn marker_path() {
    assert_eq!(
        marker_file_path("/run/user/1000", 4242),
        "/run/user/1000/cosmic-package-updater-terminal-4242.marker"
    );
    assert_eq!(marker_file_path("/tmp", 0), "/tmp/cosmic-package-updater-terminal-0.marker");
}

#[test]
fn quotes_escaped() {
    assert_eq!(escape_quotes("echo \"hi\""), "echo \\\"hi\\\"");
    assert_eq!(escape_quotes("plain"), "plain");
    assert_eq!(escape_quotes("s\u{e9}y \"\u{e9}\" b"), "s\u{e9}y \\\"\u{e9}\\\" b");
}

#[test]
fn script_wraps_command() {
    let cmd = "sudo pacman -Syu; flatpak update";
    let marker = "/tmp/m.marker";
    assert_eq!(
        terminal_script(cmd, marker),
        format!(
            "{} && echo \"Update completed. Press Enter to exit...\" && read; rm -f \"{}\"",
            cmd.replace('"', "\\\""),
            marker
        )
    );
    assert_eq!(terminal_script("a \"b\"", "m"), "a \\\"b\\\" && echo \"Update completed. Press Enter to exit...\" && read; rm -f \"m\"");
}
