use package_updater::updates::{
    after_check_attempt, after_lock_attempt, check_output, lock_failure_message, parse_arch_line,
    parse_flatpak_line, parse_output, plan_checks, AttemptStep, AurHelper, LineFormat, LockStep,
    PackageUpdate, Program, SourcePlan, SourceState, SystemTools, UpdateReport, UpdateTarget,
};

fn pkg(name: &str, cur: &str, new: &str) -> PackageUpdate {
    PackageUpdate {
        name: name.to_string(),
        current_version: cur.to_string(),
        new_version: new.to_string(),
    }
}

fn tools(checkupdates: bool, aur: Option<AurHelper>, flatpak: bool) -> SystemTools {
    SystemTools { checkupdates, aur_helper: aur, flatpak }
}

fn report(p: SourceState, a: SourceState, f: SourceState) -> UpdateReport {
    UpdateReport { pacman: p, aur: a, flatpak: f }
}

#[test]
fn aur_helper_names() {
    assert_eq!(AurHelper::Paru.name(), "paru");
    assert_eq!(AurHelper::Yay.name(), "yay");
}

#[test]
fn detect_prefers_paru() {
    let t = SystemTools::detect(true, true, true, false);
    assert!(t.checkupdates);
    assert_eq!(t.aur_helper, Some(AurHelper::Paru));
    assert!(!t.flatpak);
    let t = SystemTools::detect(false, false, true, true);
    assert_eq!(t.aur_helper, Some(AurHelper::Yay));
    assert!(t.flatpak);
    let t = SystemTools::detect(true, false, false, false);
    assert_eq!(t.aur_helper, None);
}

#[test]
fn system_tools_default_is_empty() {
    let t = SystemTools::default();
    assert!(!t.checkupdates && !t.flatpak && t.aur_helper.is_none());
}

#[test]
fn source_state_counts() {
    assert_eq!(SourceState::Disabled.count(), 0);
    assert_eq!(SourceState::Error("x".to_string()).count(), 0);
    assert_eq!(SourceState::Checked(vec![pkg("a", "1", "2"), pkg("b", "1", "2")]).count(), 2);
    assert!(matches!(SourceState::default(), SourceState::Disabled));
}

#[test]
fn report_total_sums_sources() {
    let r = report(
        SourceState::Checked(vec![pkg("a", "1", "2")]),
        SourceState::Checked(vec![pkg("b", "1", "2"), pkg("c", "1", "2")]),
        SourceState::Error("boom".to_string()),
    );
    assert_eq!(r.total(), 3);
    assert!(r.has_updates());
    assert!(!r.all_failed());
}

#[test]
fn report_empty_has_no_updates() {
    let r = UpdateReport::default();
    assert_eq!(r.total(), 0);
    assert!(!r.has_updates());
    assert!(!r.all_failed());
    let r = report(SourceState::Checked(vec![]), SourceState::Disabled, SourceState::Disabled);
    assert!(!r.has_updates());
}

#[test]
fn report_all_failed_only_without_checked_sources() {
    let r = report(
        SourceState::Error("e".to_string()),
        SourceState::Disabled,
        SourceState::Error("f".to_string()),
    );
    assert!(r.all_failed());
    assert!(!r.has_updates());
    let r = report(
        SourceState::Error("e".to_string()),
        SourceState::Checked(vec![]),
        SourceState::Disabled,
    );
    assert!(!r.all_failed());
}

#[test]
fn command_pacman() {
    assert_eq!(UpdateTarget::Pacman.command(&tools(false, None, false)).as_deref(), Some("sudo pacman -Syu"));
}

#[test]
fn command_aur() {
    assert_eq!(UpdateTarget::Aur.command(&tools(true, Some(AurHelper::Paru), false)).as_deref(), Some("paru -Sua"));
    assert_eq!(UpdateTarget::Aur.command(&tools(true, Some(AurHelper::Yay), false)).as_deref(), Some("yay -Sua"));
    assert_eq!(UpdateTarget::Aur.command(&tools(true, None, true)), None);
}

#[test]
fn command_flatpak() {
    assert_eq!(UpdateTarget::Flatpak.command(&tools(true, None, true)).as_deref(), Some("flatpak update"));
    assert_eq!(UpdateTarget::Flatpak.command(&tools(true, None, false)), None);
}

#[test]
fn command_all() {
    assert_eq!(UpdateTarget::All.command(&tools(true, None, false)).as_deref(), Some("sudo pacman -Syu"));
    assert_eq!(
        UpdateTarget::All.command(&tools(true, None, true)).as_deref(),
        Some("sudo pacman -Syu; flatpak update")
    );
    assert_eq!(
        UpdateTarget::All.command(&tools(true, Some(AurHelper::Yay), true)).as_deref(),
        Some("yay -Syu; flatpak update")
    );
    assert_eq!(UpdateTarget::All.command(&tools(false, Some(AurHelper::Paru), false)).as_deref(), Some("paru -Syu"));
}

#[test]
fn parse_arch_line_with_arrow() {
    let p = parse_arch_line("linux 6.9.1-1 -> 6.9.2-1").unwrap();
    assert_eq!(p.name, "linux");
    assert_eq!(p.current_version, "6.9.1-1");
    assert_eq!(p.new_version, "6.9.2-1");
}

#[test]
fn parse_arch_line_extra_spacing() {
    let p = parse_arch_line("  firefox\t126.0-1  ->   127.0-1 [ignored]").unwrap();
    assert_eq!(p.name, "firefox");
    assert_eq!(p.current_version, "126.0-1");
    assert_eq!(p.new_version, "127.0-1");
}

#[test]
fn parse_arch_line_new_version_only() {
    let p = parse_arch_line("yay-bin 12.3.5-1").unwrap();
    assert_eq!(p.name, "yay-bin");
    assert_eq!(p.current_version, "unknown");
    assert_eq!(p.new_version, "12.3.5-1");
}

#[test]
fn parse_arch_line_rejects_malformed() {
    assert!(parse_arch_line("").is_none());
    assert!(parse_arch_line("   \t ").is_none());
    assert!(parse_arch_line("lonely").is_none());
    assert!(parse_arch_line("a -> b").is_none());
    assert!(parse_arch_line("a b -> ").is_none());
    assert!(parse_arch_line("a b c -> d").is_none());
}

#[test]
fn parse_arch_line_arrow_needs_spaces() {
    // Without " -> " the line is read as "name version".
    let p = parse_arch_line("pkg 1->2").unwrap();
    assert_eq!(p.name, "pkg");
    assert_eq!(p.current_version, "unknown");
    assert_eq!(p.new_version, "1->2");
}

#[test]
fn parse_flatpak_line_fields() {
    let p = parse_flatpak_line("Firefox\torg.mozilla.firefox\t127.0\tstable\tflathub").unwrap();
    assert_eq!(p.name, "Firefox");
    assert_eq!(p.current_version, "unknown");
    assert_eq!(p.new_version, "127.0");
    let p = parse_flatpak_line("GIMP\torg.gimp.GIMP\t").unwrap();
    assert_eq!(p.new_version, "");
}

#[test]
fn parse_flatpak_line_rejects_malformed() {
    assert!(parse_flatpak_line("").is_none());
    assert!(parse_flatpak_line(" \t \t ").is_none());
    assert!(parse_flatpak_line("name\tid").is_none());
    assert!(parse_flatpak_line("name id version").is_none());
}

#[test]
fn parse_output_lines() {
    let out = parse_output("a 1 -> 2\r\n\nb 3\nbroken\nc 4 -> 5", LineFormat::Arch);
    assert_eq!(out.len(), 3);
    assert_eq!(out[0].name, "a");
    assert_eq!(out[0].new_version, "2");
    assert_eq!(out[1].name, "b");
    assert_eq!(out[1].current_version, "unknown");
    assert_eq!(out[2].name, "c");
    assert_eq!(out[2].current_version, "4");
    assert!(parse_output("", LineFormat::Arch).is_empty());
    let f = parse_output("A\ta.id\t1.0\tstable\tflathub\n", LineFormat::Flatpak);
    assert_eq!(f.len(), 1);
    assert_eq!(f[0].new_version, "1.0");
}

#[test]
fn check_output_no_updates_exit_codes() {
    assert!(check_output(Program::Checkupdates, false, Some(2), "", "").unwrap().is_empty());
    assert!(check_output(Program::Paru, false, Some(1), "", "").unwrap().is_empty());
    assert!(check_output(Program::Yay, false, Some(1), "junk 1", "").unwrap().is_empty());
}

#[test]
fn check_output_failure_message() {
    let e = check_output(Program::Checkupdates, false, Some(1), "  \n", "db locked").unwrap_err();
    assert_eq!(e, "Failed to check for updates (exit 1): db locked");
    let e = check_output(Program::Flatpak, false, None, "", "killed").unwrap_err();
    assert_eq!(e, "Failed to check for updates (exit -1): killed");
    let e = check_output(Program::Paru, false, Some(2), "", "").unwrap_err();
    assert_eq!(e, "Failed to check for updates (exit 2): ");
}

#[test]
fn check_output_failed_with_output_still_parses() {
    let v = check_output(Program::Checkupdates, false, Some(1), "vim 9.0-1 -> 9.1-1\n", "warn").unwrap();
    assert_eq!(v.len(), 1);
    assert_eq!(v[0].name, "vim");
}

#[test]
fn check_output_success_parses_by_program() {
    let v = check_output(Program::Flatpak, true, Some(0), "App\tid\t2.0\n", "").unwrap();
    assert_eq!(v.len(), 1);
    assert_eq!(v[0].name, "App");
    assert_eq!(v[0].new_version, "2.0");
    let v = check_output(Program::Checkupdates, true, Some(0), "", "").unwrap();
    assert!(v.is_empty());
}

#[test]
fn program_names_and_args() {
    assert_eq!(Program::Checkupdates.name(), "checkupdates");
    assert!(Program::Checkupdates.args().is_empty());
    assert_eq!(Program::Paru.args(), vec!["-Qu", "--aur"]);
    assert_eq!(Program::Yay.name(), "yay");
    assert_eq!(Program::Flatpak.args(), vec!["remote-ls", "--updates"]);
    assert_eq!(Program::Flatpak.format(), LineFormat::Flatpak);
    assert_eq!(Program::Yay.format(), LineFormat::Arch);
    assert_eq!(Program::from_helper(AurHelper::Paru), Program::Paru);
}

#[test]
fn retry_once_then_report() {
    match after_check_attempt(true, Err("x".to_string())) {
        AttemptStep::RetryAfter { delay_secs } => assert_eq!(delay_secs, 1),
        _ => panic!("expected a retry"),
    }
    match after_check_attempt(false, Err("y".to_string())) {
        AttemptStep::Done(SourceState::Error(e)) => assert_eq!(e, "y"),
        _ => panic!("expected an error"),
    }
    match after_check_attempt(true, Ok(vec![pkg("a", "1", "2")])) {
        AttemptStep::Done(SourceState::Checked(v)) => assert_eq!(v.len(), 1),
        _ => panic!("expected the packages"),
    }
}

#[test]
fn plan_runs_installed_and_enabled_sources() {
    let p = plan_checks(&tools(true, Some(AurHelper::Yay), true), true, true);
    assert!(matches!(p.pacman, SourcePlan::Run(Program::Checkupdates)));
    assert!(matches!(p.aur, SourcePlan::Run(Program::Yay)));
    assert!(matches!(p.flatpak, SourcePlan::Run(Program::Flatpak)));
}

#[test]
fn plan_skips_missing_or_disabled_sources() {
    let p = plan_checks(&tools(false, Some(AurHelper::Paru), true), false, false);
    match p.pacman {
        SourcePlan::Skip(SourceState::Error(m)) => {
            assert_eq!(m, "checkupdates not found \u{2014} install pacman-contrib")
        }
        _ => panic!("pacman should be reported missing"),
    }
    assert!(matches!(p.aur, SourcePlan::Skip(SourceState::Disabled)));
    assert!(matches!(p.flatpak, SourcePlan::Skip(SourceState::Disabled)));
    let p = plan_checks(&tools(true, None, false), true, true);
    assert!(matches!(p.aur, SourcePlan::Skip(SourceState::Disabled)));
    assert!(matches!(p.flatpak, SourcePlan::Skip(SourceState::Disabled)));
}

#[test]
fn lock_messages() {
    assert_eq!(lock_failure_message(true, "ignored"), "Another instance is checking for updates");
    assert_eq!(lock_failure_message(false, "No such file"), "Failed to acquire lock: No such file");
}

#[test]
fn lock_retry_then_give_up() {
    assert!(matches!(after_lock_attempt(true, None), LockStep::Proceed));
    assert!(matches!(after_lock_attempt(false, None), LockStep::Proceed));
    assert!(matches!(
        after_lock_attempt(true, Some("busy".to_string())),
        LockStep::RetryAfter { delay_secs: 2 }
    ));
    match after_lock_attempt(false, Some("busy".to_string())) {
        LockStep::GiveUp(r) => {
            for s in [&r.pacman, &r.aur, &r.flatpak] {
                match s {
                    SourceState::Error(m) => assert_eq!(m, "Update check already in progress: busy"),
                    _ => panic!("every source should carry the error"),
                }
            }
            assert!(r.all_failed());
        }
        _ => panic!("expected to give up"),
    }
}
