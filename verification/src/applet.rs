//! The applet's state and how it answers each event: the decisions of the
//! panel applet, apart from drawing, windows, processes and timers.
use crate::config::PackageUpdaterConfig;
use crate::updates::{opt_chars, SystemTools, UpdateReport, UpdateTarget};
use vstd::prelude::*;
use vstd::string::*;

verus! {

/// The two tabs of the popup.
#[derive(Debug, Clone, Copy, PartialEq, Eq, Structural)]
pub enum PopupTab {
    Updates,
    Settings,
}

/// What the applet knows between events. Popups are named by handles the
/// caller hands out; times are nanoseconds of one monotonic clock.
#[derive(Debug)]
pub struct AppletState {
    pub popup: Option<u64>,
    pub active_tab: PopupTab,
    pub config: PackageUpdaterConfig,
    pub report: UpdateReport,
    pub tools: SystemTools,
    pub last_check: Option<u64>,
    pub checking_updates: bool,
    pub error_message: Option<String>,
    pub ignore_next_sync: bool,
}

/// What can happen to the applet.
#[derive(Debug, Clone)]
pub enum Event {
    /// The panel icon was clicked; `new_popup` names the popup to open if
    /// one opens, and `main_window` tells whether the panel window exists.
    TogglePopup { main_window: bool, new_popup: u64 },
    PopupClosed(u64),
    SwitchTab(PopupTab),
    CheckForUpdates,
    UpdatesChecked { tools: SystemTools, report: UpdateReport, now: u64 },
    ConfigChanged(PackageUpdaterConfig),
    LaunchUpdate(UpdateTarget),
    TerminalFinished,
    Timer,
    SetCheckInterval(u32),
    ToggleAutoCheck(bool),
    ToggleCheckAur(bool),
    ToggleCheckFlatpak(bool),
    ToggleShowNotifications(bool),
    ToggleShowUpdateCount(bool),
    SetPreferredTerminal(String),
    /// Another instance finished a check.
    SyncFileChanged { now: u64 },
}

/// What the applet asks its host to do after an event.
#[derive(Debug)]
pub enum Effect {
    Nothing,
    ClosePopup(u64),
    OpenPopup(u64),
    /// Detect the tools and check every source.
    RunCheck { check_aur: bool, check_flatpak: bool },
    /// Run `command` in `terminal`, and send `TerminalFinished` when it closes.
    LaunchTerminal { terminal: String, command: String },
    /// Store the current settings.
    SaveConfig,
    Dispatch(Event),
    DispatchAfter { delay_secs: u64, event: Event },
}

pub open spec fn popup_error_text() -> Seq<char> {
    "Unable to open popup window"@
}

pub open spec fn failed_checks_text() -> Seq<char> {
    "Update checks failed. See sections for details."@
}

/// Nanoseconds in a second.
pub open spec fn nanos_per_sec() -> int {
    1_000_000_000
}

/// Whole seconds from `last` to `now`, zero if `now` is earlier.
pub open spec fn elapsed_secs(last: u64, now: u64) -> int {
    if now >= last {
        (now - last) / nanos_per_sec()
    } else {
        0
    }
}

/// Another instance's check is followed when ours is more than ten
/// seconds old, or when there was none.
pub open spec fn sync_due(last_check: Option<u64>, now: u64) -> bool {
    match last_check {
        None => true,
        Some(last) => elapsed_secs(last, now) > 10,
    }
}

/// The state a fresh applet starts in.
pub open spec fn initial_state(s: AppletState, config: PackageUpdaterConfig, tools: SystemTools) -> bool {
    &&& s.popup is None
    &&& s.active_tab == PopupTab::Updates
    &&& s.config == config
    &&& s.report.pacman is Disabled
    &&& s.report.aur is Disabled
    &&& s.report.flatpak is Disabled
    &&& s.tools == tools
    &&& s.last_check is None
    &&& !s.checking_updates
    &&& s.error_message is None
    &&& s.ignore_next_sync
}

/// How the applet answers an event: from state `s`, event `e` leads to
/// state `t` and effect `eff`.
pub open spec fn next(s: AppletState, e: Event, t: AppletState, eff: Effect) -> bool {
    match e {
        Event::TogglePopup { main_window, new_popup } => match s.popup {
            Some(p) => t == AppletState { popup: None, ..s } && eff == Effect::ClosePopup(p),
            None => if main_window {
                t == AppletState { popup: Some(new_popup), ..s } && eff == Effect::OpenPopup(new_popup)
            } else {
                &&& t == AppletState { error_message: t.error_message, ..s }
                &&& opt_chars(t.error_message) == Some(popup_error_text())
                &&& eff == Effect::Nothing
            },
        },
        Event::PopupClosed(id) => eff == Effect::Nothing && if s.popup == Some(id) {
            t == AppletState { popup: None, active_tab: PopupTab::Updates, ..s }
        } else {
            t == s
        },
        Event::SwitchTab(tab) => t == AppletState { active_tab: tab, ..s } && eff == Effect::Nothing,
        Event::CheckForUpdates => if s.checking_updates {
            t == s && eff == Effect::Nothing
        } else {
            &&& t == AppletState { checking_updates: true, error_message: None, ..s }
            &&& eff == (Effect::RunCheck {
                check_aur: s.config.include_aur_updates,
                check_flatpak: s.config.include_flatpak_updates,
            })
        },
        Event::UpdatesChecked { tools, report, now } => {
            &&& t == AppletState {
                checking_updates: false,
                tools: tools,
                report: report,
                last_check: Some(now),
                error_message: t.error_message,
                ..s
            }
            &&& if report.failed_everywhere() {
                opt_chars(t.error_message) == Some(failed_checks_text())
            } else {
                t.error_message is None
            }
            &&& eff == Effect::Nothing
        },
        Event::ConfigChanged(config) => t == AppletState { config: config, ..s } && eff
            == Effect::SaveConfig,
        Event::LaunchUpdate(target) => t == s && match target.command_text(s.tools) {
            None => eff == Effect::Nothing,
            Some(cmd) => eff matches Effect::LaunchTerminal { terminal, command } && terminal
                == s.config.preferred_terminal && command@ == cmd,
        },
        Event::TerminalFinished => t == s && eff == Effect::Dispatch(Event::CheckForUpdates),
        Event::Timer => t == s && eff == if s.checking_updates {
            Effect::Nothing
        } else {
            Effect::Dispatch(Event::CheckForUpdates)
        },
        Event::SetCheckInterval(v) => t == s && eff == Effect::Dispatch(
            Event::ConfigChanged(PackageUpdaterConfig { check_interval_minutes: v, ..s.config }),
        ),
        Event::ToggleAutoCheck(v) => t == s && eff == Effect::Dispatch(
            Event::ConfigChanged(PackageUpdaterConfig { auto_check_on_startup: v, ..s.config }),
        ),
        Event::ToggleCheckAur(v) => t == s && eff == Effect::Dispatch(
            Event::ConfigChanged(PackageUpdaterConfig { include_aur_updates: v, ..s.config }),
        ),
        Event::ToggleCheckFlatpak(v) => t == s && eff == Effect::Dispatch(
            Event::ConfigChanged(PackageUpdaterConfig { include_flatpak_updates: v, ..s.config }),
        ),
        Event::ToggleShowNotifications(v) => t == s && eff == Effect::Dispatch(
            Event::ConfigChanged(PackageUpdaterConfig { show_notifications: v, ..s.config }),
        ),
        Event::ToggleShowUpdateCount(v) => t == s && eff == Effect::Dispatch(
            Event::ConfigChanged(PackageUpdaterConfig { show_update_count: v, ..s.config }),
        ),
        Event::SetPreferredTerminal(v) => t == s && eff == Effect::Dispatch(
            Event::ConfigChanged(PackageUpdaterConfig { preferred_terminal: v, ..s.config }),
        ),
        Event::SyncFileChanged { now } => if s.ignore_next_sync {
            t == AppletState { ignore_next_sync: false, ..s } && eff == Effect::Nothing
        } else {
            t == s && eff == if !s.checking_updates && sync_due(s.last_check, now) {
                Effect::Dispatch(Event::CheckForUpdates)
            } else {
                Effect::Nothing
            }
        },
    }
}

impl AppletState {
    /// The applet as it starts, and what it asks for first: a check two
    /// seconds later when checking on startup is on.
    pub fn new(config: PackageUpdaterConfig, tools: SystemTools) -> (r: (AppletState, Effect))
        ensures
            initial_state(r.0, config, tools),
            r.1 == if config.auto_check_on_startup {
                Effect::DispatchAfter { delay_secs: 2, event: Event::CheckForUpdates }
            } else {
                Effect::Nothing
            },
    {
        let auto = config.auto_check_on_startup;
        let state = AppletState {
            popup: None,
            active_tab: PopupTab::Updates,
            config,
            report: UpdateReport::default(),
            tools,
            last_check: None,
            checking_updates: false,
            error_message: None,
            ignore_next_sync: true,
        };
        let effect = if auto {
            Effect::DispatchAfter { delay_secs: 2, event: Event::CheckForUpdates }
        } else {
            Effect::Nothing
        };
        (state, effect)
    }

    /// Answers one event.
    pub fn update(&mut self, event: Event) -> (eff: Effect)
        ensures
            next(*old(self), event, *final(self), eff),
    {
        match event {
            Event::TogglePopup { main_window, new_popup } => {
                match self.popup {
                    Some(p) => {
                        self.popup = None;
                        Effect::ClosePopup(p)
                    },
                    None => {
                        if main_window {
                            self.popup = Some(new_popup);
                            Effect::OpenPopup(new_popup)
                        } else {
                            self.error_message = Some(
                                String::from_str("Unable to open popup window"),
                            );
                            Effect::Nothing
                        }
                    },
                }
            },
            Event::PopupClosed(id) => {
                if self.popup == Some(id) {
                    self.popup = None;
                    self.active_tab = PopupTab::Updates;
                }
                Effect::Nothing
            },
            Event::SwitchTab(tab) => {
                self.active_tab = tab;
                Effect::Nothing
            },
            Event::CheckForUpdates => {
                if self.checking_updates {
                    return Effect::Nothing;
                }
                self.checking_updates = true;
                self.error_message = None;
                Effect::RunCheck {
                    check_aur: self.config.include_aur_updates,
                    check_flatpak: self.config.include_flatpak_updates,
                }
            },
            Event::UpdatesChecked { tools, report, now } => {
                self.checking_updates = false;
                self.tools = tools;
                self.error_message = if report.all_failed() {
                    Some(String::from_str("Update checks failed. See sections for details."))
                } else {
                    None
                };
                self.report = report;
                self.last_check = Some(now);
                Effect::Nothing
            },
            Event::ConfigChanged(config) => {
                self.config = config;
                Effect::SaveConfig
            },
            Event::LaunchUpdate(target) => {
                match target.command(&self.tools) {
                    None => Effect::Nothing,
                    Some(command) => Effect::LaunchTerminal {
                        terminal: self.config.preferred_terminal.clone(),
                        command,
                    },
                }
            },
            Event::TerminalFinished => Effect::Dispatch(Event::CheckForUpdates),
            Event::Timer => {
                if self.checking_updates {
                    Effect::Nothing
                } else {
                    Effect::Dispatch(Event::CheckForUpdates)
                }
            },
            Event::SetCheckInterval(v) => {
                let mut config = self.config.duplicate();
                config.check_interval_minutes = v;
                Effect::Dispatch(Event::ConfigChanged(config))
            },
            Event::ToggleAutoCheck(v) => {
                let mut config = self.config.duplicate();
                config.auto_check_on_startup = v;
                Effect::Dispatch(Event::ConfigChanged(config))
            },
            Event::ToggleCheckAur(v) => {
                let mut config = self.config.duplicate();
                config.include_aur_updates = v;
                Effect::Dispatch(Event::ConfigChanged(config))
            },
            Event::ToggleCheckFlatpak(v) => {
                let mut config = self.config.duplicate();
                config.include_flatpak_updates = v;
                Effect::Dispatch(Event::ConfigChanged(config))
            },
            Event::ToggleShowNotifications(v) => {
                let mut config = self.config.duplicate();
                config.show_notifications = v;
                Effect::Dispatch(Event::ConfigChanged(config))
            },
            Event::ToggleShowUpdateCount(v) => {
                let mut config = self.config.duplicate();
                config.show_update_count = v;
                Effect::Dispatch(Event::ConfigChanged(config))
            },
            Event::SetPreferredTerminal(v) => {
                let mut config = self.config.duplicate();
                config.preferred_terminal = v;
                Effect::Dispatch(Event::ConfigChanged(config))
            },
            Event::SyncFileChanged { now } => {
                // The first event comes from creating the file on startup.
                if self.ignore_next_sync {
                    self.ignore_next_sync = false;
                    return Effect::Nothing;
                }
                if !self.checking_updates {
                    let should_sync = match self.last_check {
                        None => true,
                        Some(last) => {
                            let elapsed: u64 = if now >= last {
                                (now - last) / 1_000_000_000
                            } else {
                                0
                            };
                            elapsed > 10
                        },
                    };
                    if should_sync {
                        Effect::Dispatch(Event::CheckForUpdates)
                    } else {
                        Effect::Nothing
                    }
                } else {
                    Effect::Nothing
                }
            },
        }
    }
}

} // verus!
