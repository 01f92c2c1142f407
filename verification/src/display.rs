//! What the panel button and the popup show, computed from the applet's
//! state: icon names, labels, counts and the per-source sections.
use crate::applet::{elapsed_secs, AppletState, PopupTab};
use crate::text::{decimal, push_decimal};
use crate::updates::{PackageUpdate, SourceState, UpdateEntry, UpdateTarget};
use vstd::prelude::*;
use vstd::string::*;

verus! {

/// The line a package update is listed with.
pub open spec fn package_line_text(e: UpdateEntry) -> Seq<char> {
    if e.current_version != "unknown"@ {
        "  "@ + e.name + " "@ + e.current_version + " \u{2192} "@ + e.new_version
    } else {
        "  "@ + e.name + " \u{2192} "@ + e.new_version
    }
}

/// The views of a sequence of strings.
pub open spec fn string_views(v: Seq<String>) -> Seq<Seq<char>> {
    Seq::new(v.len(), |i: int| v[i]@)
}

/// The lines a source section lists under its header.
pub open spec fn section_lines(state: SourceState) -> Seq<Seq<char>> {
    match state {
        SourceState::Error(e) => seq!["Error: "@ + e@],
        SourceState::Checked(packages) => if packages@.len() == 0 {
            seq!["Up to date"@]
        } else {
            Seq::new(packages@.len(), |i: int| package_line_text(packages@[i]@))
        },
        SourceState::Disabled => seq![],
    }
}

/// One source's part of the updates tab.
#[derive(Debug)]
pub struct SectionSummary {
    pub header: String,
    pub show_update_button: bool,
    pub lines: Vec<String>,
}

/// The line a package update is listed with.
pub fn package_line(p: &PackageUpdate) -> (r: String)
    ensures
        r@ == package_line_text(p@),
{
    let unknown = String::from_str("unknown");
    let mut line = String::from_str("  ");
    line.append(p.name.as_str());
    if !(p.current_version == unknown) {
        line.append(" ");
        line.append(p.current_version.as_str());
    }
    line.append(" \u{2192} ");
    line.append(p.new_version.as_str());
    line
}

/// The section of the updates tab for one source; a disabled source has none.
pub fn source_section(title: &str, state: &SourceState) -> (r: Option<SectionSummary>)
    ensures
        state is Disabled ==> r is None,
        !(state is Disabled) ==> (r matches Some(sec) && sec.header@ == title@ + " ("@ + decimal(
            state.update_count(),
        ) + ")"@ && sec.show_update_button == (state.update_count() > 0) && string_views(
            sec.lines@,
        ) == section_lines(*state)),
{
    let count = state.count();
    let lines: Vec<String> = match state {
        SourceState::Disabled => {
            return None;
        },
        SourceState::Error(e) => {
            let mut l = String::from_str("Error: ");
            l.append(e.as_str());
            let v = vec![l];
            assert(string_views(v@) =~= section_lines(*state));
            v
        },
        SourceState::Checked(packages) => {
            if packages.len() == 0 {
                let v = vec![String::from_str("Up to date")];
                assert(string_views(v@) =~= section_lines(*state));
                v
            } else {
                let mut v: Vec<String> = Vec::new();
                let mut i: usize = 0;
                while i < packages.len()
                    invariant
                        i <= packages@.len(),
                        v@.len() == i,
                        forall|k: int|
                            0 <= k < i ==> #[trigger] v@[k]@ == package_line_text(packages@[k]@),
                    decreases packages@.len() - i,
                {
                    v.push(package_line(&packages[i]));
                    i = i + 1;
                }
                assert(string_views(v@) =~= section_lines(*state));
                v
            }
        },
    };
    let mut header = String::from_str(title);
    header.append(" (");
    push_decimal(&mut header, count as u64);
    header.append(")");
    Some(SectionSummary { header, show_update_button: count > 0, lines })
}

impl AppletState {
    /// The icon of the panel button.
    pub open spec fn icon_name_text(self) -> Seq<char> {
        if self.checking_updates {
            "view-refresh-symbolic"@
        } else if self.error_message is Some {
            "dialog-error-symbolic"@
        } else if self.report.update_total() > 0 {
            "software-update-available-symbolic"@
        } else {
            "package-x-generic-symbolic"@
        }
    }

    pub fn icon_name(&self) -> (r: &'static str)
        ensures
            r@ == self.icon_name_text(),
    {
        if self.checking_updates {
            "view-refresh-symbolic"
        } else if self.error_message.is_some() {
            "dialog-error-symbolic"
        } else if self.report.has_updates() {
            "software-update-available-symbolic"
        } else {
            "package-x-generic-symbolic"
        }
    }

    /// What a middle click on the panel icon starts: everything, when
    /// something is pending.
    pub fn middle_click_target(&self) -> (r: Option<UpdateTarget>)
        ensures
            r == if self.report.update_total() > 0 {
                Some(UpdateTarget::All)
            } else {
                None
            },
    {
        if self.report.has_updates() {
            Some(UpdateTarget::All)
        } else {
            None
        }
    }

    /// The label of a tab button; the active tab is marked.
    pub fn tab_label(&self, tab: PopupTab) -> (r: &'static str)
        ensures
            r@ == (match (tab, self.active_tab == tab) {
                (PopupTab::Updates, true) => "\u{25cf} Updates"@,
                (PopupTab::Updates, false) => "\u{25cb} Updates"@,
                (PopupTab::Settings, true) => "\u{25cf} Settings"@,
                (PopupTab::Settings, false) => "\u{25cb} Settings"@,
            }),
    {
        let active = self.active_tab == tab;
        match tab {
            PopupTab::Updates => if active {
                "\u{25cf} Updates"
            } else {
                "\u{25cb} Updates"
            },
            PopupTab::Settings => if active {
                "\u{25cf} Settings"
            } else {
                "\u{25cb} Settings"
            },
        }
    }

    /// The icon and the emoji of the popup's illustration.
    pub fn illustration(&self) -> (r: (&'static str, &'static str))
        ensures
            self.checking_updates ==> r.0@ == "view-refresh-symbolic"@ && r.1@ == "\u{23f3}"@,
            !self.checking_updates && self.report.update_total() > 0 ==> r.0@
                == "software-update-available-symbolic"@ && r.1@ == "\u{1f381}"@,
            !self.checking_updates && self.report.update_total() == 0 ==> r.0@
                == "package-x-generic"@ && r.1@ == "\u{2705}"@,
    {
        if self.checking_updates {
            ("view-refresh-symbolic", "\u{23f3}")
        } else if self.report.has_updates() {
            ("software-update-available-symbolic", "\u{1f381}")
        } else {
            ("package-x-generic", "\u{2705}")
        }
    }

    /// The caption under the popup's illustration.
    pub fn status_caption(&self) -> (r: String)
        requires
            self.report.update_total() <= usize::MAX,
        ensures
            r@ == if self.checking_updates {
                "Checking..."@
            } else if self.report.update_total() > 0 {
                decimal(self.report.update_total()) + " Updates"@
            } else {
                "Up to Date"@
            },
    {
        if self.checking_updates {
            String::from_str("Checking...")
        } else if self.report.has_updates() {
            let mut s = String::new();
            push_decimal(&mut s, self.report.total() as u64);
            s.append(" Updates");
            s
        } else {
            String::from_str("Up to Date")
        }
    }

    /// The count next to the panel icon; empty when nothing is pending.
    pub fn panel_count_text(&self) -> (r: String)
        requires
            self.report.update_total() <= usize::MAX,
        ensures
            r@ == if self.report.update_total() > 0 {
                decimal(self.report.update_total())
            } else {
                Seq::<char>::empty()
            },
    {
        let total = self.report.total();
        let mut s = String::new();
        if total > 0 {
            push_decimal(&mut s, total as u64);
            assert(s@ =~= decimal(self.report.update_total()));
        }
        s
    }

    /// The first line of the updates tab.
    pub fn headline(&self) -> (r: String)
        requires
            self.report.update_total() <= usize::MAX,
        ensures
            r@ == if self.checking_updates {
                "Checking for updates..."@
            } else if self.error_message is Some {
                "Error: "@ + self.error_message->0@
            } else if self.report.update_total() > 0 {
                decimal(self.report.update_total()) + " updates available"@
            } else {
                "System is up to date"@
            },
    {
        if self.checking_updates {
            String::from_str("Checking for updates...")
        } else if let Some(error) = &self.error_message {
            let mut s = String::from_str("Error: ");
            s.append(error.as_str());
            s
        } else if self.report.has_updates() {
            let mut s = String::new();
            push_decimal(&mut s, self.report.total() as u64);
            s.append(" updates available");
            s
        } else {
            String::from_str("System is up to date")
        }
    }

    /// How long ago the last check was, at time `now`.
    pub fn last_checked_text(&self, now: u64) -> (r: Option<String>)
        ensures
            match self.last_check {
                None => r is None,
                Some(last) => r matches Some(text) && ({
                    let secs = elapsed_secs(last, now);
                    text@ == if secs < 60 {
                        "Last checked: just now"@
                    } else if secs < 3600 {
                        "Last checked: "@ + decimal((secs / 60) as nat) + " minutes ago"@
                    } else {
                        "Last checked: "@ + decimal((secs / 3600) as nat) + " hours ago"@
                    }
                }),
            },
    {
        match self.last_check {
            None => None,
            Some(last) => {
                let secs: u64 = if now >= last {
                    (now - last) / 1_000_000_000
                } else {
                    0
                };
                if secs < 60 {
                    Some(String::from_str("Last checked: just now"))
                } else if secs < 3600 {
                    let mut s = String::from_str("Last checked: ");
                    push_decimal(&mut s, secs / 60);
                    s.append(" minutes ago");
                    Some(s)
                } else {
                    let mut s = String::from_str("Last checked: ");
                    push_decimal(&mut s, secs / 3600);
                    s.append(" hours ago");
                    Some(s)
                }
            },
        }
    }

    /// The title of the AUR section, naming the helper in use.
    pub fn aur_section_title(&self) -> (r: String)
        ensures
            r@ == match self.tools.aur_helper {
                Some(helper) => "AUR ("@ + helper.program_name() + ")"@,
                None => "AUR"@,
            },
    {
        match self.tools.aur_helper {
            Some(helper) => {
                let mut s = String::from_str("AUR (");
                s.append(helper.name());
                s.append(")");
                s
            },
            None => String::from_str("AUR"),
        }
    }
}

} // verus!
