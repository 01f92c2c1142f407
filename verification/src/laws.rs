//! Properties that hold across calls and events.
use crate::applet::{initial_state, next, sync_due, AppletState, Effect, Event, PopupTab};
use crate::display::{package_line_text, section_lines};
use crate::config::{
    digit_value, digits_value, interval_setting, is_digit, parse_u32, unsigned_body,
    PackageUpdaterConfig,
};
use crate::terminal::{escaped, terminal_script_text};
use crate::text::{
    all_ws, contains_seq, decimal, digit_char, is_ws, lemma_field_len_at, lemma_run_len_at, lines,
    split_on, strip_cr, words,
};
use crate::updates::{
    announced, arch_entry, flatpak_entry, AurHelper, LineFormat, PackageUpdate, Program,
    SourceState, SystemTools, UpdateEntry, UpdateReport, UpdateTarget,
};
use vstd::prelude::*;

verus! {

/// While a check is running, no event starts another one, and only the
/// closing of the update terminal asks for one.
pub proof fn law_single_check_in_flight(s: AppletState, e: Event, t: AppletState, eff: Effect)
    requires
        s.checking_updates,
        next(s, e, t, eff),
    ensures
        !(eff is RunCheck),
        !(eff == Effect::Dispatch(Event::CheckForUpdates)) || e is TerminalFinished,
{
}

/// A check starts only from an idle applet, which then counts as checking.
pub proof fn law_check_starts_from_idle(s: AppletState, e: Event, t: AppletState, eff: Effect)
    requires
        next(s, e, t, eff),
        eff is RunCheck,
    ensures
        e is CheckForUpdates,
        !s.checking_updates,
        t.checking_updates,
        t.error_message is None,
{
}

/// Only the results of a check end it.
pub proof fn law_check_ends_with_results(s: AppletState, e: Event, t: AppletState, eff: Effect)
    requires
        next(s, e, t, eff),
        s.checking_updates,
        !t.checking_updates,
    ensures
        e is UpdatesChecked,
{
}

/// After a check, an error is shown exactly when every source that ran
/// failed and none was checked.
pub proof fn law_error_iff_all_failed(
    s: AppletState,
    tools: SystemTools,
    report: UpdateReport,
    now: u64,
    t: AppletState,
    eff: Effect,
)
    requires
        next(s, Event::UpdatesChecked { tools, report, now }, t, eff),
    ensures
        t.error_message is Some <==> report.failed_everywhere(),
        t.report == report,
        t.last_check == Some(now),
        !t.checking_updates,
{
}

/// A report in which every source failed has nothing pending.
pub proof fn law_all_failed_means_no_updates(report: UpdateReport)
    requires
        report.failed_everywhere(),
    ensures
        report.update_total() == 0,
{
}

/// Clicking the panel icon twice opens the popup and closes that same
/// popup, and leaves the applet as it was.
pub proof fn law_toggle_popup_round_trip(
    s: AppletState,
    p: u64,
    t1: AppletState,
    e1: Effect,
    main_window: bool,
    q: u64,
    t2: AppletState,
    e2: Effect,
)
    requires
        s.popup is None,
        next(s, Event::TogglePopup { main_window: true, new_popup: p }, t1, e1),
        next(t1, Event::TogglePopup { main_window, new_popup: q }, t2, e2),
    ensures
        e1 == Effect::OpenPopup(p),
        e2 == Effect::ClosePopup(p),
        t2 == s,
{
}

/// The settings a setting event asks for, applied to `c`.
pub open spec fn with_setting(c: PackageUpdaterConfig, e: Event) -> PackageUpdaterConfig {
    match e {
        Event::SetCheckInterval(v) => PackageUpdaterConfig { check_interval_minutes: v, ..c },
        Event::ToggleAutoCheck(v) => PackageUpdaterConfig { auto_check_on_startup: v, ..c },
        Event::ToggleCheckAur(v) => PackageUpdaterConfig { include_aur_updates: v, ..c },
        Event::ToggleCheckFlatpak(v) => PackageUpdaterConfig { include_flatpak_updates: v, ..c },
        Event::ToggleShowNotifications(v) => PackageUpdaterConfig { show_notifications: v, ..c },
        Event::ToggleShowUpdateCount(v) => PackageUpdaterConfig { show_update_count: v, ..c },
        Event::SetPreferredTerminal(v) => PackageUpdaterConfig { preferred_terminal: v, ..c },
        _ => c,
    }
}

pub open spec fn is_setting_event(e: Event) -> bool {
    ||| e is SetCheckInterval
    ||| e is ToggleAutoCheck
    ||| e is ToggleCheckAur
    ||| e is ToggleCheckFlatpak
    ||| e is ToggleShowNotifications
    ||| e is ToggleShowUpdateCount
    ||| e is SetPreferredTerminal
}

/// A setting event changes that one setting, nothing else, and has the
/// new settings saved.
pub proof fn law_setting_round_trip(
    s: AppletState,
    e: Event,
    t1: AppletState,
    e1: Effect,
    t2: AppletState,
    e2: Effect,
)
    requires
        is_setting_event(e),
        next(s, e, t1, e1),
        e1 matches Effect::Dispatch(d) && next(t1, d, t2, e2),
    ensures
        t1 == s,
        t2 == (AppletState { config: with_setting(s.config, e), ..s }),
        e2 == Effect::SaveConfig,
{
}

/// The first sync event after start is ignored; the next one, with no
/// check of our own yet, starts a check.
pub proof fn law_first_sync_ignored(
    config: PackageUpdaterConfig,
    tools: SystemTools,
    s: AppletState,
    now1: u64,
    t1: AppletState,
    e1: Effect,
    now2: u64,
    t2: AppletState,
    e2: Effect,
)
    requires
        initial_state(s, config, tools),
        next(s, Event::SyncFileChanged { now: now1 }, t1, e1),
        next(t1, Event::SyncFileChanged { now: now2 }, t2, e2),
    ensures
        e1 == Effect::Nothing,
        e2 == Effect::Dispatch(Event::CheckForUpdates),
        t2 == t1,
{
}

/// When the update terminal closes, an idle applet checks again.
pub proof fn law_recheck_after_terminal(
    s: AppletState,
    t1: AppletState,
    e1: Effect,
    t2: AppletState,
    e2: Effect,
)
    requires
        !s.checking_updates,
        next(s, Event::TerminalFinished, t1, e1),
        e1 matches Effect::Dispatch(d) && next(t1, d, t2, e2),
    ensures
        e2 == (Effect::RunCheck {
            check_aur: s.config.include_aur_updates,
            check_flatpak: s.config.include_flatpak_updates,
        }),
        t2.checking_updates,
{
}

proof fn lemma_words_word_first(a: Seq<char>, rest: Seq<char>)
    requires
        a.len() > 0,
        forall|i: int| 0 <= i < a.len() ==> !#[trigger] is_ws(a[i]),
        rest.len() == 0 || is_ws(rest[0]),
    ensures
        words(a + rest) == seq![a] + words(rest),
{
    let s = a + rest;
    assert forall|k: int| 0 <= k < a.len() implies !#[trigger] is_ws(s[k]) by {
        assert(s[k] == a[k]);
    }
    lemma_run_len_at(s, 0, a.len() as int);
    assert(s.skip(0) =~= s);
    assert(s.take(a.len() as int) =~= a);
    assert(s.skip(a.len() as int) =~= rest);
}

proof fn lemma_words_space_first(c: char, rest: Seq<char>)
    requires
        is_ws(c),
    ensures
        words(seq![c] + rest) == words(rest),
{
    assert((seq![c] + rest).drop_first() =~= rest);
}

/// A word: non-empty and free of whitespace.
pub open spec fn is_word(w: Seq<char>) -> bool {
    w.len() > 0 && forall|i: int| 0 <= i < w.len() ==> !#[trigger] is_ws(w[i])
}

/// A pacman line "name old -> new" announces that update.
pub proof fn law_arch_line_with_versions(name: Seq<char>, cur: Seq<char>, new: Seq<char>)
    requires
        is_word(name),
        is_word(cur),
        is_word(new),
    ensures
        arch_entry(name + " "@ + cur + " -> "@ + new) == Some(
            UpdateEntry { name: name, current_version: cur, new_version: new },
        ),
{
    reveal_strlit(" ");
    reveal_strlit(" -> ");
    reveal_strlit("->");
    let line = name + " "@ + cur + " -> "@ + new;
    let arrow = seq!['-', '>'];
    let r1 = seq![' '] + (cur + (seq![' '] + (arrow + (seq![' '] + new))));
    assert(line =~= name + r1);
    lemma_words_word_first(name, r1);
    let r2 = cur + (seq![' '] + (arrow + (seq![' '] + new)));
    assert(r1 =~= seq![' '] + r2);
    lemma_words_space_first(' ', r2);
    let r3 = seq![' '] + (arrow + (seq![' '] + new));
    assert(r2 =~= cur + r3);
    lemma_words_word_first(cur, r3);
    let r4 = arrow + (seq![' '] + new);
    lemma_words_space_first(' ', r4);
    let r5 = seq![' '] + new;
    lemma_words_word_first(arrow, r5);
    lemma_words_space_first(' ', new);
    assert(new =~= new + Seq::<char>::empty());
    lemma_words_word_first(new, Seq::<char>::empty());
    assert(words(Seq::<char>::empty()) == Seq::<Seq<char>>::empty());
    let parts = words(line);
    assert(parts =~= seq![name, cur, arrow, new]);
    assert(arrow =~= "->"@);
    let i: int = (name.len() + 1 + cur.len()) as int;
    assert(line.subrange(i, i + " -> "@.len()) =~= " -> "@);
    assert(contains_seq(line, " -> "@));
    assert(!is_ws(line[0]));
}

/// A pacman line "name version" announces an update from an unknown version.
pub proof fn law_arch_line_new_version_only(name: Seq<char>, ver: Seq<char>)
    requires
        is_word(name),
        is_word(ver),
    ensures
        arch_entry(name + " "@ + ver) == Some(
            UpdateEntry { name: name, current_version: "unknown"@, new_version: ver },
        ),
{
    reveal_strlit(" ");
    reveal_strlit(" -> ");
    let line = name + " "@ + ver;
    let r1 = seq![' '] + ver;
    assert(line =~= name + r1);
    lemma_words_word_first(name, r1);
    lemma_words_space_first(' ', ver);
    assert(ver =~= ver + Seq::<char>::empty());
    lemma_words_word_first(ver, Seq::<char>::empty());
    assert(words(Seq::<char>::empty()) == Seq::<Seq<char>>::empty());
    assert(words(line) =~= seq![name, ver]);
    assert forall|i: int|
        0 <= i && i + " -> "@.len() <= line.len() implies #[trigger] line.subrange(
        i,
        i + " -> "@.len(),
    ) != " -> "@ by {
        let sub = line.subrange(i, i + 4);
        if sub == " -> "@ {
            assert(sub[0] == line[i]);
            assert(sub[3] == line[i + 3]);
            // Only one character of the line is whitespace.
            if i < name.len() {
                assert(line[i] == name[i]);
            } else if i == name.len() {
                assert(line[i + 3] == ver[i + 3 - name.len() - 1]);
            } else {
                assert(line[i] == ver[i - name.len() - 1]);
            }
        }
    }
    assert(!is_ws(line[0]));
}

proof fn lemma_split_field_first(a: Seq<char>, d: char, rest: Seq<char>)
    requires
        forall|i: int| 0 <= i < a.len() ==> #[trigger] a[i] != d,
    ensures
        split_on(a + seq![d] + rest, d) == seq![a] + split_on(rest, d),
{
    let s = a + seq![d] + rest;
    assert forall|k: int| 0 <= k < a.len() implies #[trigger] s[k] != d by {
        assert(s[k] == a[k]);
    }
    lemma_field_len_at(s, d, 0, a.len() as int);
    assert(s.skip(0) =~= s);
    assert(s.take(a.len() as int) =~= a);
    assert(s.skip(a.len() + 1int) =~= rest);
}

/// A flatpak line "name\tapp-id\tversion..." announces an update of
/// `name` to `version`.
pub proof fn law_flatpak_line_fields(name: Seq<char>, app_id: Seq<char>, ver: Seq<char>, tail: Seq<char>)
    requires
        !all_ws(name),
        forall|i: int| 0 <= i < name.len() ==> #[trigger] name[i] != '\t',
        forall|i: int| 0 <= i < app_id.len() ==> #[trigger] app_id[i] != '\t',
        forall|i: int| 0 <= i < ver.len() ==> #[trigger] ver[i] != '\t',
        tail.len() == 0 || tail[0] == '\t',
    ensures
        flatpak_entry(name + seq!['\t'] + app_id + seq!['\t'] + ver + tail) == Some(
            UpdateEntry { name: name, current_version: "unknown"@, new_version: ver },
        ),
{
    let line = name + seq!['\t'] + app_id + seq!['\t'] + ver + tail;
    let r1 = app_id + seq!['\t'] + ver + tail;
    assert(line =~= name + seq!['\t'] + r1);
    lemma_split_field_first(name, '\t', r1);
    let r2 = ver + tail;
    assert(r1 =~= app_id + seq!['\t'] + r2);
    lemma_split_field_first(app_id, '\t', r2);
    let parts = split_on(line, '\t');
    assert(parts.len() >= 3);
    assert(parts[0] == name);
    assert(parts[1] == app_id);
    if tail.len() > 0 && tail[0] == '\t' {
        assert(r2 =~= ver + seq!['\t'] + tail.drop_first());
        lemma_split_field_first(ver, '\t', tail.drop_first());
    } else {
        assert(r2 =~= ver);
        lemma_field_len_at(ver, '\t', 0, ver.len() as int);
        assert(ver.skip(0) =~= ver);
    }
    let i = choose|i: int| 0 <= i < name.len() && !is_ws(name[i]);
    assert(line[i] == name[i]);
    assert(split_on(line, '\t')[2] == ver);
}

proof fn lemma_decimal_digits(n: nat)
    ensures
        decimal(n).len() > 0,
        forall|i: int| 0 <= i < decimal(n).len() ==> #[trigger] is_digit(decimal(n)[i]),
        digits_value(decimal(n)) == n,
    decreases n,
{
    if n < 10 {
        let s = decimal(n);
        assert(s.drop_last() =~= Seq::<char>::empty());
        assert(s.last() == digit_char(n));
        assert(digit_value(digit_char(n)) == n);
        assert(digits_value(s) == digits_value(s.drop_last()) * 10 + digit_value(s.last()));
    } else {
        lemma_decimal_digits(n / 10);
        let s = decimal(n);
        assert(s.drop_last() =~= decimal(n / 10));
        assert(s.last() == digit_char(n % 10));
        assert(digit_value(digit_char(n % 10)) == n % 10);
        assert(digits_value(s) == digits_value(s.drop_last()) * 10 + digit_value(s.last()));
        assert((n / 10) * 10 + n % 10 == n);
    }
}

/// Parsing the decimal text of a number gives the number back.
pub proof fn law_parse_decimal(n: u32)
    ensures
        parse_u32(decimal(n as nat)) == Some(n),
{
    lemma_decimal_digits(n as nat);
    let s = decimal(n as nat);
    assert(is_digit(s[0]));
    assert(unsigned_body(s) == s);
}

/// The settings field shows the interval in decimal; reading that text
/// back gives the same interval.
pub proof fn law_interval_field_round_trip(minutes: u32)
    requires
        1 <= minutes <= 1440,
    ensures
        interval_setting(decimal(minutes as nat)) == minutes,
{
    law_parse_decimal(minutes);
}

/// In an escaped command every double quote has a backslash before it.
pub proof fn law_quotes_escaped(s: Seq<char>)
    ensures
        forall|i: int|
            0 <= i < escaped(s).len() && #[trigger] escaped(s)[i] == '"' ==> i > 0 && escaped(
                s,
            )[i - 1] == '\\',
    decreases s.len(),
{
    if s.len() > 0 {
        law_quotes_escaped(s.drop_last());
        let p = escaped(s.drop_last());
        assert forall|i: int|
            0 <= i < escaped(s).len() && #[trigger] escaped(s)[i] == '"' implies i > 0 && escaped(
            s,
        )[i - 1] == '\\' by {
            if i < p.len() {
                assert(escaped(s)[i] == p[i]);
                assert(escaped(s)[i - 1] == p[i - 1]);
            }
        }
    }
}

/// Every program that lists pacman-style updates is read in the arch line
/// format: checkupdates and both AUR helpers; only flatpak differs.
pub proof fn law_output_formats(h: AurHelper)
    ensures
        Program::for_helper(h).output_format() == LineFormat::Arch,
        Program::Checkupdates.output_format() == LineFormat::Arch,
        Program::Flatpak.output_format() == LineFormat::Flatpak,
        Program::for_helper(h) != Program::Flatpak,
        Program::for_helper(h) != Program::Checkupdates,
{
}

/// A successful run of any AUR helper or of checkupdates whose output is the
/// single line "name old -> new" reports exactly that one update.
pub proof fn law_arch_output_single_update(p: Program, name: Seq<char>, cur: Seq<char>, new: Seq<char>)
    requires
        p != Program::Flatpak,
        is_word(name),
        is_word(cur),
        is_word(new),
    ensures
        announced(lines(name + " "@ + cur + " -> "@ + new + seq!['\n']), p.output_format())
            == seq![UpdateEntry { name: name, current_version: cur, new_version: new }],
{
    reveal_strlit(" ");
    reveal_strlit(" -> ");
    law_arch_line_with_versions(name, cur, new);
    let line = name + " "@ + cur + " -> "@ + new;
    let s = line + seq!['\n'];
    assert forall|k: int| 0 <= k < line.len() implies #[trigger] s[k] != '\n' by {
        assert(s[k] == line[k]);
        let a = name.len() as int;
        let b = a + 1 + cur.len();
        if k < a {
            assert(line[k] == name[k]);
            assert(!is_ws(name[k]));
        } else if k == a {
        } else if k < b {
            assert(line[k] == cur[k - a - 1]);
            assert(!is_ws(cur[k - a - 1]));
        } else if k < b + 4 {
        } else {
            assert(line[k] == new[k - b - 4]);
            assert(!is_ws(new[k - b - 4]));
        }
    }
    lemma_field_len_at(s, '\n', 0, line.len() as int);
    assert(s.skip(0) =~= s);
    assert(s.take(line.len() as int) =~= line);
    assert(s.skip(line.len() + 1int) =~= Seq::<char>::empty());
    assert(line.last() == new.last());
    assert(!is_ws(new[new.len() - 1]));
    assert(strip_cr(line) == line);
    assert(crate::text::field_len(s, '\n') == line.len());
    assert(lines(Seq::<char>::empty()) == Seq::<Seq<char>>::empty());
    assert(lines(s) == seq![strip_cr(s.take(line.len() as int))] + lines(s.skip(line.len() + 1int)));
    assert(lines(s) =~= seq![line]);
    assert(seq![line].drop_last() =~= Seq::<Seq<char>>::empty());
    assert(seq![line].last() == line);
    assert(p.output_format() == LineFormat::Arch);
    assert(announced(Seq::<Seq<char>>::empty(), LineFormat::Arch) == Seq::<UpdateEntry>::empty());
    assert(announced(seq![line], LineFormat::Arch) =~= seq![
        UpdateEntry { name: name, current_version: cur, new_version: new },
    ]);
}

/// Switching tabs shows the chosen tab and changes nothing else.
pub proof fn law_switch_tab(s: AppletState, tab: PopupTab, t: AppletState, eff: Effect)
    requires
        next(s, Event::SwitchTab(tab), t, eff),
    ensures
        t.active_tab == tab,
        t.popup == s.popup,
        t.config == s.config,
        t.report == s.report,
        t.checking_updates == s.checking_updates,
        t.error_message == s.error_message,
        t.last_check == s.last_check,
        t.ignore_next_sync == s.ignore_next_sync,
        eff == Effect::Nothing,
{
}

/// Switching to a tab and back returns to where the applet was.
pub proof fn law_switch_tab_back(
    s: AppletState,
    tab: PopupTab,
    t1: AppletState,
    e1: Effect,
    t2: AppletState,
    e2: Effect,
)
    requires
        next(s, Event::SwitchTab(tab), t1, e1),
        next(t1, Event::SwitchTab(s.active_tab), t2, e2),
    ensures
        t2 == s,
{
}

/// Closing our own popup forgets it and goes back to the updates tab;
/// closing any other window changes nothing.
pub proof fn law_popup_closed(s: AppletState, id: u64, t: AppletState, eff: Effect)
    requires
        next(s, Event::PopupClosed(id), t, eff),
    ensures
        s.popup == Some(id) ==> t.popup is None && t.active_tab == PopupTab::Updates,
        s.popup != Some(id) ==> t == s,
        t.config == s.config && t.report == s.report,
        eff == Effect::Nothing,
{
}

/// New settings replace the old ones exactly and are saved.
pub proof fn law_config_changed(s: AppletState, c: PackageUpdaterConfig, t: AppletState, eff: Effect)
    requires
        next(s, Event::ConfigChanged(c), t, eff),
    ensures
        t.config == c,
        t.report == s.report && t.popup == s.popup && t.active_tab == s.active_tab,
        t.checking_updates == s.checking_updates,
        eff == Effect::SaveConfig,
{
}

/// An update runs in the preferred terminal, runs the target's command,
/// and changes no state.
pub proof fn law_launch_update(s: AppletState, target: UpdateTarget, t: AppletState, eff: Effect)
    requires
        next(s, Event::LaunchUpdate(target), t, eff),
    ensures
        t == s,
        target == UpdateTarget::Pacman ==> (eff matches Effect::LaunchTerminal { terminal, command }
            && terminal == s.config.preferred_terminal && command@ == "sudo pacman -Syu"@),
        (target == UpdateTarget::Aur && s.tools.aur_helper is None) ==> eff == Effect::Nothing,
        (target == UpdateTarget::Flatpak && !s.tools.flatpak) ==> eff == Effect::Nothing,
        target == UpdateTarget::All ==> eff is LaunchTerminal,
{
}

/// A checked source with packages lists one line per package, in order,
/// each naming the package and its new version.
pub proof fn law_section_lists_every_package(packages: Vec<PackageUpdate>)
    requires
        packages@.len() > 0,
    ensures
        section_lines(SourceState::Checked(packages)).len() == packages@.len(),
        forall|i: int|
            0 <= i < packages@.len() ==> #[trigger] section_lines(SourceState::Checked(packages))[i]
                == package_line_text(packages@[i]@),
{
}

/// A package line starts with two spaces and the name, and ends with an
/// arrow and the new version; the old version shows when it is known.
pub proof fn law_package_line_shape(e: UpdateEntry)
    ensures
        package_line_text(e).take(2 + e.name.len() as int) =~= "  "@ + e.name,
        package_line_text(e).skip(package_line_text(e).len() - 3 - e.new_version.len())
            =~= " \u{2192} "@ + e.new_version,
        e.current_version != "unknown"@ ==> package_line_text(e).len() == 2 + e.name.len() + 1
            + e.current_version.len() + 3 + e.new_version.len(),
        e.current_version == "unknown"@ ==> package_line_text(e).len() == 2 + e.name.len() + 3
            + e.new_version.len(),
{
    reveal_strlit("  ");
    reveal_strlit(" ");
    reveal_strlit(" \u{2192} ");
}

/// A source that was checked, even with nothing pending, means not every
/// source failed; a failure with no source checked means they all did.
pub proof fn law_all_failed_cases(report: UpdateReport)
    ensures
        (report.pacman is Checked || report.aur is Checked || report.flatpak is Checked)
            ==> !report.failed_everywhere(),
        (report.pacman is Error || report.aur is Error || report.flatpak is Error) && !(
        report.pacman is Checked) && !(report.aur is Checked) && !(report.flatpak is Checked)
            ==> report.failed_everywhere(),
        (report.pacman is Disabled && report.aur is Disabled && report.flatpak is Disabled)
            ==> !report.failed_everywhere(),
{
}

/// The count of a source is the length of its package list when checked,
/// and zero otherwise; a report has updates exactly when some checked
/// source lists a package.
pub proof fn law_counts(report: UpdateReport, v: Vec<PackageUpdate>, m: String)
    ensures
        SourceState::Checked(v).update_count() == v@.len(),
        SourceState::Error(m).update_count() == 0,
        SourceState::Disabled.update_count() == 0,
        report.update_total() > 0 <==> (report.pacman.update_count() > 0
            || report.aur.update_count() > 0 || report.flatpak.update_count() > 0),
        report.update_total() >= report.pacman.update_count(),
        report.update_total() >= report.aur.update_count(),
        report.update_total() >= report.flatpak.update_count(),
{
}

/// The Pacman update is always a plain system upgrade, whatever tools are
/// installed; the AUR update depends only on the helper and the Flatpak
/// update only on whether flatpak is installed.
pub proof fn law_command_targets(t1: SystemTools, t2: SystemTools, h: AurHelper)
    ensures
        UpdateTarget::Pacman.command_text(t1) == Some("sudo pacman -Syu"@),
        UpdateTarget::Pacman.command_text(t1) == UpdateTarget::Pacman.command_text(t2),
        t1.aur_helper == t2.aur_helper ==> UpdateTarget::Aur.command_text(t1)
            == UpdateTarget::Aur.command_text(t2),
        t1.aur_helper == Some(h) ==> UpdateTarget::Aur.command_text(t1) == Some(
            h.program_name() + " -Sua"@,
        ),
        t1.aur_helper is None ==> UpdateTarget::Aur.command_text(t1) is None,
        t1.flatpak ==> UpdateTarget::Flatpak.command_text(t1) == Some("flatpak update"@),
        !t1.flatpak ==> UpdateTarget::Flatpak.command_text(t1) is None,
        UpdateTarget::All.command_text(t1) is Some,
{
}

/// Updating everything runs the system upgrade (through the AUR helper
/// when there is one) and, when flatpak is installed, the flatpak update
/// after it.
pub proof fn law_update_all_command(t: SystemTools)
    ensures
        ({
            let system = match t.aur_helper {
                Some(h) => h.program_name() + " -Syu"@,
                None => UpdateTarget::Pacman.command_text(t)->0,
            };
            UpdateTarget::All.command_text(t) == Some(
                if t.flatpak {
                    system + "; "@ + UpdateTarget::Flatpak.command_text(t)->0
                } else {
                    system
                },
            )
        }),
{
    reveal_strlit("; flatpak update");
    reveal_strlit("; ");
    reveal_strlit("flatpak update");
    let system = match t.aur_helper {
        Some(h) => h.program_name() + " -Syu"@,
        None => "sudo pacman -Syu"@,
    };
    assert(system + "; flatpak update"@ =~= system + "; "@ + "flatpak update"@);
}

/// The exit codes by which the tools say that nothing is pending.
pub proof fn law_no_update_exit_codes(h: AurHelper, code: int)
    ensures
        Program::Checkupdates.means_no_updates(2),
        !Program::Checkupdates.means_no_updates(1),
        Program::for_helper(h).means_no_updates(1),
        !Program::for_helper(h).means_no_updates(2),
        !Program::Flatpak.means_no_updates(code),
        !Program::Checkupdates.means_no_updates(0),
        !Program::for_helper(h).means_no_updates(0),
{
}

/// The panel icon: checking shows a refresh, then an error shows the error
/// icon, then pending updates show the update icon, else the idle package.
pub proof fn law_icon_name(s: AppletState)
    ensures
        s.checking_updates ==> s.icon_name_text() == "view-refresh-symbolic"@,
        !s.checking_updates && s.error_message is Some ==> s.icon_name_text()
            == "dialog-error-symbolic"@,
        !s.checking_updates && s.error_message is None && s.report.update_total() > 0
            ==> s.icon_name_text() == "software-update-available-symbolic"@,
        !s.checking_updates && s.error_message is None && s.report.update_total() == 0
            ==> s.icon_name_text() == "package-x-generic-symbolic"@,
{
}

/// Another instance's check is followed when we never checked, or when our
/// own check is more than ten whole seconds old; never within ten seconds.
pub proof fn law_sync_due(last: u64, now: u64)
    ensures
        sync_due(None, now),
        now >= last && now - last < 11_000_000_000 ==> !sync_due(Some(last), now),
        now >= last && now - last >= 11_000_000_000 ==> sync_due(Some(last), now),
        now < last ==> !sync_due(Some(last), now),
{
}

/// The interval field never sets less than a minute or more than a day, and
/// text that is not a number leaves the default hour.
pub proof fn law_interval_setting_bounds(text: Seq<char>)
    ensures
        1 <= interval_setting(text) <= 1440,
        parse_u32(text) is None ==> interval_setting(text) == 60,
        parse_u32(text) is Some ==> text.len() > 0,
        text.len() > 0 && !is_digit(text[0]) && text[0] != '+' ==> parse_u32(text) is None,
{
    if text.len() > 0 && !is_digit(text[0]) && text[0] != '+' {
        assert(unsigned_body(text) == text);
        assert(!is_digit(unsigned_body(text)[0]));
    }
}

/// The terminal script begins with the escaped command and ends by
/// removing the marker file named in double quotes.
pub proof fn law_terminal_script_shape(command: Seq<char>, marker: Seq<char>)
    ensures
        terminal_script_text(command, marker).take(escaped(command).len() as int) =~= escaped(
            command,
        ),
        terminal_script_text(command, marker).skip(
            terminal_script_text(command, marker).len() - marker.len() - 2,
        ) =~= seq!['"'] + marker + seq!['"'],
{
    reveal_strlit("\"");
    reveal_strlit(" && echo \"Update completed. Press Enter to exit...\" && read; rm -f \"");
}

} // verus!
