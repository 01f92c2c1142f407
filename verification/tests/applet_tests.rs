use package_updater::applet::{AppletState, Effect, Event, PopupTab};
use package_updater::config::PackageUpdaterConfig;
use package_updater::display::{package_line, source_section};
use package_updater::updates::{AurHelper, PackageUpdate, SourceState, SystemTools, UpdateReport, UpdateTarget};

const SEC: u64 = 1_000_000_000;

fn tools() -> SystemTools {
    SystemTools { checkupdates: true, aur_helper: Some(AurHelper::Paru), flatpak: true }
}

fn fresh() -> AppletState {
    AppletState::new(PackageUpdaterConfig::default(), tools()).0
}

fn pkg(name: &str, cur: &str, new: &str) -> PackageUpdate {
    PackageUpdate { name: name.to_string(), current_version: cur.to_string(), new_version: new.to_string() }
}

fn report_with(n: usize) -> UpdateReport {
    UpdateReport {
        pacman: SourceState::Checked((0..n).map(|i| pkg(&format!("p{i}"), "1", "2")).collect()),
        aur: SourceState::Disabled,
        flatpak: SourceState::Checked(vec![]),
    }
}

fn failed_report() -> UpdateReport {
    UpdateReport {
        pacman: SourceState::Error("a".to_string()),
        aur: SourceState::Error("b".to_string()),
        flatpak: SourceState::Disabled,
    }
}

#[test]
fn new_state_schedules_startup_check() {
    let (s, e) = AppletState::new(PackageUpdaterConfig::default(), tools());
    assert!(s.popup.is_none());
    assert_eq!(s.active_tab, PopupTab::Updates);
    assert!(!s.checking_updates);
    assert!(s.ignore_next_sync);
    assert!(s.last_check.is_none());
    assert!(matches!(e, Effect::DispatchAfter { delay_secs: 2, event: Event::CheckForUpdates }));
    let mut c = PackageUpdaterConfig::default();
    c.auto_check_on_startup = false;
    let (_, e) = AppletState::new(c, tools());
    assert!(matches!(e, Effect::Nothing));
}

#[test]
fn check_runs_once_at_a_time() {
    let mut s = fresh();
    s.error_message = Some("old".to_string());
    let e = s.update(Event::CheckForUpdates);
    assert!(matches!(e, Effect::RunCheck { check_aur: true, check_flatpak: true }));
    assert!(s.checking_updates);
    assert!(s.error_message.is_none());
    assert!(matches!(s.update(Event::CheckForUpdates), Effect::Nothing));
    assert!(matches!(s.update(Event::Timer), Effect::Nothing));
}

#[test]
fn check_uses_source_settings() {
    let mut s = fresh();
    s.config.include_aur_updates = false;
    let e = s.update(Event::CheckForUpdates);
    assert!(matches!(e, Effect::RunCheck { check_aur: false, check_flatpak: true }));
}

#[test]
fn results_end_the_check() {
    let mut s = fresh();
    s.update(Event::CheckForUpdates);
    let e = s.update(Event::UpdatesChecked { tools: SystemTools::default(), report: report_with(2), now: 5 * SEC });
    assert!(matches!(e, Effect::Nothing));
    assert!(!s.checking_updates);
    assert_eq!(s.last_check, Some(5 * SEC));
    assert!(s.error_message.is_none());
    assert_eq!(s.report.total(), 2);
    assert!(s.tools.aur_helper.is_none());
}

#[test]
fn all_failed_results_show_error() {
    let mut s = fresh();
    s.update(Event::CheckForUpdates);
    s.update(Event::UpdatesChecked { tools: tools(), report: failed_report(), now: 0 });
    assert_eq!(s.error_message.as_deref(), Some("Update checks failed. See sections for details."));
    assert_eq!(s.icon_name(), "dialog-error-symbolic");
}

#[test]
fn timer_starts_check_when_idle() {
    let mut s = fresh();
    assert!(matches!(s.update(Event::Timer), Effect::Dispatch(Event::CheckForUpdates)));
}

#[test]
fn terminal_finished_rechecks() {
    let mut s = fresh();
    assert!(matches!(s.update(Event::TerminalFinished), Effect::Dispatch(Event::CheckForUpdates)));
}

#[test]
fn launch_update_uses_preferred_terminal() {
    let mut s = fresh();
    match s.update(Event::LaunchUpdate(UpdateTarget::All)) {
        Effect::LaunchTerminal { terminal, command } => {
            assert_eq!(terminal, "cosmic-term");
            assert_eq!(command, "paru -Syu; flatpak update");
        }
        _ => panic!("expected a terminal"),
    }
    s.tools.flatpak = false;
    assert!(matches!(s.update(Event::LaunchUpdate(UpdateTarget::Flatpak)), Effect::Nothing));
}

#[test]
fn popup_toggle_round_trip() {
    let mut s = fresh();
    assert!(matches!(s.update(Event::TogglePopup { main_window: true, new_popup: 7 }), Effect::OpenPopup(7)));
    assert_eq!(s.popup, Some(7));
    assert!(matches!(s.update(Event::TogglePopup { main_window: true, new_popup: 8 }), Effect::ClosePopup(7)));
    assert_eq!(s.popup, None);
}

#[test]
fn popup_without_main_window_reports_error() {
    let mut s = fresh();
    assert!(matches!(s.update(Event::TogglePopup { main_window: false, new_popup: 1 }), Effect::Nothing));
    assert!(s.popup.is_none());
    assert_eq!(s.error_message.as_deref(), Some("Unable to open popup window"));
}

#[test]
fn popup_closed_resets_tab_for_own_popup_only() {
    let mut s = fresh();
    s.update(Event::TogglePopup { main_window: true, new_popup: 3 });
    s.update(Event::SwitchTab(PopupTab::Settings));
    assert_eq!(s.active_tab, PopupTab::Settings);
    s.update(Event::PopupClosed(4));
    assert_eq!(s.popup, Some(3));
    assert_eq!(s.active_tab, PopupTab::Settings);
    s.update(Event::PopupClosed(3));
    assert_eq!(s.popup, None);
    assert_eq!(s.active_tab, PopupTab::Updates);
}

#[test]
fn settings_events_round_trip_through_config_changed() {
    let mut s = fresh();
    let e = s.update(Event::SetCheckInterval(15));
    assert_eq!(s.config.check_interval_minutes, 60);
    let Effect::Dispatch(d) = e else { panic!("expected a dispatch") };
    assert!(matches!(s.update(d), Effect::SaveConfig));
    assert_eq!(s.config.check_interval_minutes, 15);
    assert!(s.config.include_aur_updates);
    assert_eq!(s.config.preferred_terminal, "cosmic-term");

    let Effect::Dispatch(d) = s.update(Event::SetPreferredTerminal("kitty".to_string())) else { panic!() };
    s.update(d);
    assert_eq!(s.config.preferred_terminal, "kitty");
    assert_eq!(s.config.check_interval_minutes, 15);

    for (event, check) in [
        (Event::ToggleAutoCheck(false), 0),
        (Event::ToggleCheckAur(false), 1),
        (Event::ToggleCheckFlatpak(false), 2),
        (Event::ToggleShowNotifications(false), 3),
        (Event::ToggleShowUpdateCount(false), 4),
    ] {
        let Effect::Dispatch(d) = s.update(event) else { panic!() };
        s.update(d);
        let c = &s.config;
        let flags = [c.auto_check_on_startup, c.include_aur_updates, c.include_flatpak_updates, c.show_notifications, c.show_update_count];
        assert!(!flags[check]);
    }
}

#[test]
fn first_sync_event_ignored() {
    let mut s = fresh();
    assert!(matches!(s.update(Event::SyncFileChanged { now: 0 }), Effect::Nothing));
    assert!(!s.ignore_next_sync);
    assert!(matches!(s.update(Event::SyncFileChanged { now: 0 }), Effect::Dispatch(Event::CheckForUpdates)));
}

#[test]
fn sync_waits_ten_seconds_after_own_check() {
    let mut s = fresh();
    s.update(Event::SyncFileChanged { now: 0 });
    s.update(Event::CheckForUpdates);
    assert!(matches!(s.update(Event::SyncFileChanged { now: 0 }), Effect::Nothing));
    s.update(Event::UpdatesChecked { tools: tools(), report: report_with(0), now: 100 * SEC });
    assert!(matches!(s.update(Event::SyncFileChanged { now: 110 * SEC }), Effect::Nothing));
    assert!(matches!(s.update(Event::SyncFileChanged { now: 111 * SEC - 1 }), Effect::Nothing));
    assert!(matches!(s.update(Event::SyncFileChanged { now: 111 * SEC }), Effect::Dispatch(Event::CheckForUpdates)));
}

#[test]
fn icon_names() {
    let mut s = fresh();
    assert_eq!(s.icon_name(), "package-x-generic-symbolic");
    s.report = report_with(1);
    assert_eq!(s.icon_name(), "software-update-available-symbolic");
    s.checking_updates = true;
    assert_eq!(s.icon_name(), "view-refresh-symbolic");
}

#[test]
fn popup_texts() {
    let mut s = fresh();
    assert_eq!(s.headline(), "System is up to date");
    assert_eq!(s.status_caption(), "Up to Date");
    assert_eq!(s.panel_count_text(), "");
    assert_eq!(s.illustration(), ("package-x-generic", "\u{2705}"));
    s.report = report_with(12);
    assert_eq!(s.headline(), "12 updates available");
    assert_eq!(s.status_caption(), "12 Updates");
    assert_eq!(s.panel_count_text(), "12");
    assert_eq!(s.illustration(), ("software-update-available-symbolic", "\u{1f381}"));
    s.error_message = Some("boom".to_string());
    assert_eq!(s.headline(), "Error: boom");
    s.checking_updates = true;
    assert_eq!(s.headline(), "Checking for updates...");
    assert_eq!(s.status_caption(), "Checking...");
    assert_eq!(s.illustration(), ("view-refresh-symbolic", "\u{23f3}"));
}

#[test]
fn tab_labels_mark_active_tab() {
    let mut s = fresh();
    assert_eq!(s.tab_label(PopupTab::Updates), "\u{25cf} Updates");
    assert_eq!(s.tab_label(PopupTab::Settings), "\u{25cb} Settings");
    s.active_tab = PopupTab::Settings;
    assert_eq!(s.tab_label(PopupTab::Updates), "\u{25cb} Updates");
    assert_eq!(s.tab_label(PopupTab::Settings), "\u{25cf} Settings");
}

#[test]
fn last_checked_texts() {
    let mut s = fresh();
    assert_eq!(s.last_checked_text(0), None);
    s.last_check = Some(10 * SEC);
    assert_eq!(s.last_checked_text(69 * SEC).as_deref(), Some("Last checked: just now"));
    assert_eq!(s.last_checked_text(70 * SEC).as_deref(), Some("Last checked: 1 minutes ago"));
    assert_eq!(s.last_checked_text(3609 * SEC).as_deref(), Some("Last checked: 59 minutes ago"));
    assert_eq!(s.last_checked_text(7210 * SEC).as_deref(), Some("Last checked: 2 hours ago"));
    assert_eq!(s.last_checked_text(0).as_deref(), Some("Last checked: just now"));
}

#[test]
fn aur_titles() {
    let mut s = fresh();
    assert_eq!(s.aur_section_title(), "AUR (paru)");
    s.tools.aur_helper = Some(AurHelper::Yay);
    assert_eq!(s.aur_section_title(), "AUR (yay)");
    s.tools.aur_helper = None;
    assert_eq!(s.aur_section_title(), "AUR");
}

#[test]
fn package_lines() {
    assert_eq!(package_line(&pkg("vim", "9.0", "9.1")), "  vim 9.0 \u{2192} 9.1");
    assert_eq!(package_line(&pkg("app", "unknown", "2")), "  app \u{2192} 2");
}

#[test]
fn sections() {
    assert!(source_section("Pacman", &SourceState::Disabled).is_none());
    let sec = source_section("Flatpak", &SourceState::Error("no net".to_string())).unwrap();
    assert_eq!(sec.header, "Flatpak (0)");
    assert!(!sec.show_update_button);
    assert_eq!(sec.lines, vec!["Error: no net".to_string()]);
    let sec = source_section("Pacman", &SourceState::Checked(vec![])).unwrap();
    assert_eq!(sec.lines, vec!["Up to date".to_string()]);
    let sec = source_section("AUR (paru)", &SourceState::Checked(vec![pkg("a", "1", "2"), pkg("b", "unknown", "3")])).unwrap();
    assert_eq!(sec.header, "AUR (paru) (2)");
    assert!(sec.show_update_button);
    assert_eq!(sec.lines, vec!["  a 1 \u{2192} 2".to_string(), "  b \u{2192} 3".to_string()]);
}

#[test]
fn middle_click_updates_all_only_when_pending() {
    let mut s = fresh();
    assert_eq!(s.middle_click_target(), None);
    s.report = report_with(3);
    assert_eq!(s.middle_click_target(), Some(UpdateTarget::All));
}
