//! Update sources, the reports built from them, the parsing of the
//! package tools' output, and the decisions around running a check.
use crate::text::{
    all_whitespace, all_ws, char_seqs, chars_of, contains_arrow, contains_seq, lines,
    push_signed_decimal, signed_decimal, split_lines, split_on, split_on_char, split_words,
    string_from_chars, words,
};
use vstd::prelude::*;
use vstd::string::*;

verus! {

/// The AUR helper programs the applet knows how to drive.
#[derive(Debug, Clone, Copy, PartialEq, Eq, Structural)]
pub enum AurHelper {
    Paru,
    Yay,
}

impl AurHelper {
    /// The program name of the helper.
    pub open spec fn program_name(self) -> Seq<char> {
        match self {
            AurHelper::Paru => "paru"@,
            AurHelper::Yay => "yay"@,
        }
    }

    pub fn name(&self) -> (r: &'static str)
        ensures
            r@ == self.program_name(),
    {
        match self {
            AurHelper::Paru => "paru",
            AurHelper::Yay => "yay",
        }
    }
}

/// Which package tools are installed.
#[derive(Debug, Clone, Copy)]
pub struct SystemTools {
    pub checkupdates: bool,
    pub aur_helper: Option<AurHelper>,
    pub flatpak: bool,
}

impl Default for SystemTools {
    fn default() -> (r: Self)
        ensures
            r == (SystemTools { checkupdates: false, aur_helper: None, flatpak: false }),
    {
        SystemTools { checkupdates: false, aur_helper: None, flatpak: false }
    }
}

impl SystemTools {
    /// The tools found on the system, given which programs were found on
    /// the search path. `paru` is preferred to `yay` when both are there.
    pub fn detect(checkupdates_found: bool, paru_found: bool, yay_found: bool, flatpak_found: bool) -> (r: Self)
        ensures
            r.checkupdates == checkupdates_found,
            r.flatpak == flatpak_found,
            r.aur_helper == (if paru_found {
                Some(AurHelper::Paru)
            } else if yay_found {
                Some(AurHelper::Yay)
            } else {
                None
            }),
    {
        let aur_helper = if paru_found {
            Some(AurHelper::Paru)
        } else if yay_found {
            Some(AurHelper::Yay)
        } else {
            None
        };
        SystemTools { checkupdates: checkupdates_found, aur_helper, flatpak: flatpak_found }
    }
}

/// What a package update is, as plain character sequences.
pub struct UpdateEntry {
    pub name: Seq<char>,
    pub current_version: Seq<char>,
    pub new_version: Seq<char>,
}

/// One pending package update.
#[derive(Debug, Clone)]
pub struct PackageUpdate {
    pub name: String,
    pub current_version: String,
    pub new_version: String,
}

impl View for PackageUpdate {
    type V = UpdateEntry;

    open spec fn view(&self) -> UpdateEntry {
        UpdateEntry {
            name: self.name@,
            current_version: self.current_version@,
            new_version: self.new_version@,
        }
    }
}

/// The views of a sequence of package updates.
pub open spec fn entries(v: Seq<PackageUpdate>) -> Seq<UpdateEntry> {
    Seq::new(v.len(), |i: int| v[i]@)
}

/// The view of an optional package update.
pub open spec fn opt_entry(o: Option<PackageUpdate>) -> Option<UpdateEntry> {
    match o {
        Some(p) => Some(p@),
        None => None,
    }
}

/// The view of an optional string.
pub open spec fn opt_chars(o: Option<String>) -> Option<Seq<char>> {
    match o {
        Some(s) => Some(s@),
        None => None,
    }
}

/// The result of checking one update source.
#[derive(Debug, Clone)]
pub enum SourceState {
    /// Tool not installed or source disabled in settings; section is hidden.
    Disabled,
    Checked(Vec<PackageUpdate>),
    Error(String),
}

impl Default for SourceState {
    fn default() -> (r: Self)
        ensures
            r is Disabled,
    {
        SourceState::Disabled
    }
}

impl SourceState {
    /// The number of pending updates the source reports.
    pub open spec fn update_count(self) -> nat {
        match self {
            SourceState::Checked(packages) => packages@.len(),
            _ => 0,
        }
    }

    pub fn count(&self) -> (r: usize)
        ensures
            r == self.update_count(),
    {
        match self {
            SourceState::Checked(packages) => packages.len(),
            _ => 0,
        }
    }
}

/// The outcome of one check across the three sources.
#[derive(Debug, Clone)]
pub struct UpdateReport {
    pub pacman: SourceState,
    pub aur: SourceState,
    pub flatpak: SourceState,
}

impl Default for UpdateReport {
    fn default() -> (r: Self)
        ensures
            r.pacman is Disabled,
            r.aur is Disabled,
            r.flatpak is Disabled,
    {
        UpdateReport {
            pacman: SourceState::Disabled,
            aur: SourceState::Disabled,
            flatpak: SourceState::Disabled,
        }
    }
}

impl UpdateReport {
    /// All pending updates over the three sources.
    pub open spec fn update_total(self) -> nat {
        self.pacman.update_count() + self.aur.update_count() + self.flatpak.update_count()
    }

    /// Some source failed and none was checked.
    pub open spec fn failed_everywhere(self) -> bool {
        &&& (self.pacman is Error || self.aur is Error || self.flatpak is Error)
        &&& !(self.pacman is Checked || self.aur is Checked || self.flatpak is Checked)
    }

    pub fn total(&self) -> (r: usize)
        requires
            self.update_total() <= usize::MAX,
        ensures
            r == self.update_total(),
    {
        self.pacman.count() + self.aur.count() + self.flatpak.count()
    }

    pub fn has_updates(&self) -> (r: bool)
        ensures
            r == (self.update_total() > 0),
    {
        self.pacman.count() > 0 || self.aur.count() > 0 || self.flatpak.count() > 0
    }

    pub fn all_failed(&self) -> (r: bool)
        ensures
            r == self.failed_everywhere(),
    {
        let any_error = matches!(self.pacman, SourceState::Error(_)) || matches!(self.aur, SourceState::Error(_))
            || matches!(self.flatpak, SourceState::Error(_));
        let any_checked = matches!(self.pacman, SourceState::Checked(_)) || matches!(
            self.aur,
            SourceState::Checked(_)
        ) || matches!(self.flatpak, SourceState::Checked(_));
        any_error && !any_checked
    }
}

/// What an update action covers.
#[derive(Debug, Clone, Copy, PartialEq, Eq, Structural)]
pub enum UpdateTarget {
    Pacman,
    Aur,
    Flatpak,
    All,
}

impl UpdateTarget {
    /// The shell command that updates the target, if the tools allow one.
    pub open spec fn command_text(self, tools: SystemTools) -> Option<Seq<char>> {
        match self {
            UpdateTarget::Pacman => Some("sudo pacman -Syu"@),
            UpdateTarget::Aur => match tools.aur_helper {
                Some(helper) => Some(helper.program_name() + " -Sua"@),
                None => None,
            },
            UpdateTarget::Flatpak => if tools.flatpak {
                Some("flatpak update"@)
            } else {
                None
            },
            UpdateTarget::All => {
                let system = match tools.aur_helper {
                    Some(helper) => helper.program_name() + " -Syu"@,
                    None => "sudo pacman -Syu"@,
                };
                Some(
                    if tools.flatpak {
                        system + "; flatpak update"@
                    } else {
                        system
                    },
                )
            },
        }
    }

    pub fn command(&self, tools: &SystemTools) -> (r: Option<String>)
        ensures
            opt_chars(r) == self.command_text(*tools),
    {
        match self {
            UpdateTarget::Pacman => Some(String::from_str("sudo pacman -Syu")),
            UpdateTarget::Aur => match tools.aur_helper {
                Some(helper) => {
                    let mut s = String::from_str(helper.name());
                    s.append(" -Sua");
                    Some(s)
                },
                None => None,
            },
            UpdateTarget::Flatpak => if tools.flatpak {
                Some(String::from_str("flatpak update"))
            } else {
                None
            },
            UpdateTarget::All => {
                let mut system = match tools.aur_helper {
                    Some(helper) => {
                        let mut s = String::from_str(helper.name());
                        s.append(" -Syu");
                        s
                    },
                    None => String::from_str("sudo pacman -Syu"),
                };
                // `;` so a declined pacman transaction still lets flatpak run
                if tools.flatpak {
                    system.append("; flatpak update");
                }
                Some(system)
            },
        }
    }
}

/// The update a line of pacman, paru or yay output announces:
/// "package 1.0.0-1 -> 1.0.1-1" or "package 1.0.1-1".
pub open spec fn arch_entry(line: Seq<char>) -> Option<UpdateEntry> {
    if all_ws(line) {
        None
    } else {
        let parts = words(line);
        if contains_seq(line, " -> "@) {
            if parts.len() >= 4 && parts[2] == "->"@ {
                Some(
                    UpdateEntry {
                        name: parts[0],
                        current_version: parts[1],
                        new_version: parts[3],
                    },
                )
            } else {
                None
            }
        } else if parts.len() >= 2 {
            Some(UpdateEntry { name: parts[0], current_version: "unknown"@, new_version: parts[1] })
        } else {
            None
        }
    }
}

/// The update a line of `flatpak remote-ls --updates` output announces:
/// "name\tapp-id\tversion\tbranch\tremote".
pub open spec fn flatpak_entry(line: Seq<char>) -> Option<UpdateEntry> {
    if all_ws(line) {
        None
    } else {
        let parts = split_on(line, '\t');
        if parts.len() >= 3 {
            Some(UpdateEntry { name: parts[0], current_version: "unknown"@, new_version: parts[2] })
        } else {
            None
        }
    }
}

/// The two output formats the package tools print.
#[derive(Debug, Clone, Copy, PartialEq, Eq, Structural)]
pub enum LineFormat {
    Arch,
    Flatpak,
}

/// The update a line in the given format announces.
pub open spec fn line_entry(format: LineFormat, line: Seq<char>) -> Option<UpdateEntry> {
    match format {
        LineFormat::Arch => arch_entry(line),
        LineFormat::Flatpak => flatpak_entry(line),
    }
}

/// The updates announced by `ls`, in order, lines that announce none left out.
pub open spec fn announced(ls: Seq<Seq<char>>, format: LineFormat) -> Seq<UpdateEntry>
    decreases ls.len(),
{
    if ls.len() == 0 {
        seq![]
    } else {
        let rest = announced(ls.drop_last(), format);
        match line_entry(format, ls.last()) {
            Some(e) => rest.push(e),
            None => rest,
        }
    }
}

fn is_arrow_token(t: &Vec<char>) -> (r: bool)
    ensures
        r == (t@ == "->"@),
{
    proof {
        reveal_strlit("->");
    }
    if t.len() == 2 && t[0] == '-' && t[1] == '>' {
        assert(t@ =~= "->"@);
        true
    } else {
        false
    }
}

fn unknown_version() -> (r: String)
    ensures
        r@ == "unknown"@,
{
    String::from_str("unknown")
}

/// Parses a line of pacman-style output held as characters.
pub fn parse_arch_chars(cs: &Vec<char>) -> (r: Option<PackageUpdate>)
    ensures
        opt_entry(r) == arch_entry(cs@),
{
    if all_whitespace(cs) {
        return None;
    }
    let parts = split_words(cs);
    if contains_arrow(cs) {
        if parts.len() >= 4 && is_arrow_token(&parts[2]) {
            return Some(
                PackageUpdate {
                    name: string_from_chars(&parts[0]),
                    current_version: string_from_chars(&parts[1]),
                    new_version: string_from_chars(&parts[3]),
                },
            );
        }
    } else if parts.len() >= 2 {
        return Some(
            PackageUpdate {
                name: string_from_chars(&parts[0]),
                current_version: unknown_version(),
                new_version: string_from_chars(&parts[1]),
            },
        );
    }
    None
}

/// Parses a line of flatpak output held as characters.
pub fn parse_flatpak_chars(cs: &Vec<char>) -> (r: Option<PackageUpdate>)
    ensures
        opt_entry(r) == flatpak_entry(cs@),
{
    if all_whitespace(cs) {
        return None;
    }
    let parts = split_on_char(cs, '\t');
    if parts.len() >= 3 {
        return Some(
            PackageUpdate {
                name: string_from_chars(&parts[0]),
                current_version: unknown_version(),
                new_version: string_from_chars(&parts[2]),
            },
        );
    }
    None
}

/// Parses one line of pacman, paru or yay output.
pub fn parse_arch_line(line: &str) -> (r: Option<PackageUpdate>)
    ensures
        opt_entry(r) == arch_entry(line@),
{
    parse_arch_chars(&chars_of(line))
}

/// Parses one line of `flatpak remote-ls --updates` output.
pub fn parse_flatpak_line(line: &str) -> (r: Option<PackageUpdate>)
    ensures
        opt_entry(r) == flatpak_entry(line@),
{
    parse_flatpak_chars(&chars_of(line))
}

/// Every update that the lines of `output` announce, in order.
pub fn parse_output(output: &str, format: LineFormat) -> (r: Vec<PackageUpdate>)
    ensures
        entries(r@) == announced(lines(output@), format),
{
    let cs = chars_of(output);
    let ls = split_lines(&cs);
    let ghost all = char_seqs(ls@);
    let mut r: Vec<PackageUpdate> = Vec::new();
    let mut i: usize = 0;
    while i < ls.len()
        invariant
            i <= ls@.len(),
            all == char_seqs(ls@),
            all == lines(output@),
            entries(r@) == announced(all.take(i as int), format),
        decreases ls@.len() - i,
    {
        let parsed = match format {
            LineFormat::Arch => parse_arch_chars(&ls[i]),
            LineFormat::Flatpak => parse_flatpak_chars(&ls[i]),
        };
        assert(all.take(i + 1).drop_last() =~= all.take(i as int));
        assert(all.take(i + 1).last() == ls@[i as int]@);
        let ghost before = r@;
        match parsed {
            Some(p) => {
                r.push(p);
                assert(entries(r@) =~= entries(before).push(p@));
            },
            None => {},
        }
        i = i + 1;
    }
    assert(all.take(ls@.len() as int) =~= all);
    r
}

/// The programs that report pending updates.
#[derive(Debug, Clone, Copy, PartialEq, Eq, Structural)]
pub enum Program {
    Checkupdates,
    Paru,
    Yay,
    Flatpak,
}

impl Program {
    pub open spec fn program_name(self) -> Seq<char> {
        match self {
            Program::Checkupdates => "checkupdates"@,
            Program::Paru => "paru"@,
            Program::Yay => "yay"@,
            Program::Flatpak => "flatpak"@,
        }
    }

    /// The arguments that make the program list pending updates.
    pub open spec fn argument_list(self) -> Seq<Seq<char>> {
        match self {
            Program::Checkupdates => seq![],
            Program::Paru | Program::Yay => seq!["-Qu"@, "--aur"@],
            Program::Flatpak => seq!["remote-ls"@, "--updates"@],
        }
    }

    pub open spec fn output_format(self) -> LineFormat {
        match self {
            Program::Flatpak => LineFormat::Flatpak,
            _ => LineFormat::Arch,
        }
    }

    /// Exit codes by which the program says that nothing is pending.
    pub open spec fn means_no_updates(self, code: int) -> bool {
        ||| (self == Program::Checkupdates && code == 2)
        ||| ((self == Program::Paru || self == Program::Yay) && code == 1)
    }

    pub open spec fn for_helper(helper: AurHelper) -> Program {
        match helper {
            AurHelper::Paru => Program::Paru,
            AurHelper::Yay => Program::Yay,
        }
    }

    pub fn from_helper(helper: AurHelper) -> (r: Program)
        ensures
            r == Program::for_helper(helper),
    {
        match helper {
            AurHelper::Paru => Program::Paru,
            AurHelper::Yay => Program::Yay,
        }
    }

    pub fn name(&self) -> (r: &'static str)
        ensures
            r@ == self.program_name(),
    {
        match self {
            Program::Checkupdates => "checkupdates",
            Program::Paru => "paru",
            Program::Yay => "yay",
            Program::Flatpak => "flatpak",
        }
    }

    pub fn args(&self) -> (r: Vec<&'static str>)
        ensures
            r@.map_values(|a: &'static str| a@) == self.argument_list(),
    {
        let r: Vec<&'static str> = match self {
            Program::Checkupdates => Vec::new(),
            Program::Paru | Program::Yay => vec!["-Qu", "--aur"],
            Program::Flatpak => vec!["remote-ls", "--updates"],
        };
        assert(r@.map_values(|a: &'static str| a@) =~= self.argument_list());
        r
    }

    pub fn format(&self) -> (r: LineFormat)
        ensures
            r == self.output_format(),
    {
        match self {
            Program::Flatpak => LineFormat::Flatpak,
            _ => LineFormat::Arch,
        }
    }
}

/// The code a finished process is taken to have exited with.
pub open spec fn exit_code_of(code: Option<i32>) -> int {
    match code {
        Some(c) => c as int,
        None => -1,
    }
}

/// The message for a failed check whose output is empty.
pub open spec fn failed_check_message(code: int, stderr: Seq<char>) -> Seq<char> {
    "Failed to check for updates (exit "@ + signed_decimal(code) + "): "@ + stderr
}

/// Interprets what a program printed and how it exited: the updates it
/// lists, or why the check failed.
pub fn check_output(program: Program, success: bool, exit_code: Option<i32>, stdout: &str, stderr: &str) -> (r: Result<Vec<PackageUpdate>, String>)
    ensures
        ({
            let code = exit_code_of(exit_code);
            if !success && program.means_no_updates(code) {
                r matches Ok(v) && v@.len() == 0
            } else if !success && all_ws(stdout@) {
                r matches Err(m) && m@ == failed_check_message(code, stderr@)
            } else {
                r matches Ok(v) && entries(v@) == announced(lines(stdout@), program.output_format())
            }
        }),
{
    if !success {
        let code: i32 = match exit_code {
            Some(c) => c,
            None => -1,
        };
        let no_updates = match program {
            Program::Checkupdates => code == 2,
            Program::Paru | Program::Yay => code == 1,
            Program::Flatpak => false,
        };
        if no_updates {
            return Ok(Vec::new());
        }
        if all_whitespace(&chars_of(stdout)) {
            let mut m = String::from_str("Failed to check for updates (exit ");
            push_signed_decimal(&mut m, code);
            m.append("): ");
            m.append(stderr);
            return Err(m);
        }
    }
    Ok(parse_output(stdout, program.format()))
}

/// What to do after one attempt at checking a source.
#[derive(Debug)]
pub enum AttemptStep {
    RetryAfter { delay_secs: u64 },
    Done(SourceState),
}

/// A failed first attempt is retried once, after a second; the second
/// failure is reported.
pub fn after_check_attempt(first_attempt: bool, outcome: Result<Vec<PackageUpdate>, String>) -> (r: AttemptStep)
    ensures
        match outcome {
            Ok(v) => r == AttemptStep::Done(SourceState::Checked(v)),
            Err(e) => if first_attempt {
                r == (AttemptStep::RetryAfter { delay_secs: 1 })
            } else {
                r == AttemptStep::Done(SourceState::Error(e))
            },
        },
{
    match outcome {
        Ok(packages) => AttemptStep::Done(SourceState::Checked(packages)),
        Err(e) => if first_attempt {
            AttemptStep::RetryAfter { delay_secs: 1 }
        } else {
            AttemptStep::Done(SourceState::Error(e))
        },
    }
}

/// How one source is to be checked.
#[derive(Debug)]
pub enum SourcePlan {
    Run(Program),
    Skip(SourceState),
}

/// How each source is to be checked.
#[derive(Debug)]
pub struct CheckPlan {
    pub pacman: SourcePlan,
    pub aur: SourcePlan,
    pub flatpak: SourcePlan,
}

/// Which sources to run and which to report without running, from the
/// tools installed and the settings.
pub fn plan_checks(tools: &SystemTools, check_aur: bool, check_flatpak: bool) -> (p: CheckPlan)
    ensures
        tools.checkupdates ==> p.pacman == SourcePlan::Run(Program::Checkupdates),
        !tools.checkupdates ==> (p.pacman matches SourcePlan::Skip(SourceState::Error(m)) && m@
            == "checkupdates not found \u{2014} install pacman-contrib"@),
        match tools.aur_helper {
            Some(helper) if check_aur => p.aur == SourcePlan::Run(Program::for_helper(helper)),
            _ => p.aur == SourcePlan::Skip(SourceState::Disabled),
        },
        (tools.flatpak && check_flatpak) ==> p.flatpak == SourcePlan::Run(Program::Flatpak),
        !(tools.flatpak && check_flatpak) ==> p.flatpak == SourcePlan::Skip(SourceState::Disabled),
{
    let pacman = if tools.checkupdates {
        SourcePlan::Run(Program::Checkupdates)
    } else {
        SourcePlan::Skip(
            SourceState::Error(String::from_str("checkupdates not found \u{2014} install pacman-contrib")),
        )
    };
    let aur = match tools.aur_helper {
        Some(helper) if check_aur => SourcePlan::Run(Program::from_helper(helper)),
        _ => SourcePlan::Skip(SourceState::Disabled),
    };
    let flatpak = if tools.flatpak && check_flatpak {
        SourcePlan::Run(Program::Flatpak)
    } else {
        SourcePlan::Skip(SourceState::Disabled)
    };
    CheckPlan { pacman, aur, flatpak }
}

/// Why the check lock could not be taken.
pub fn lock_failure_message(permission_denied: bool, io_error: &str) -> (r: String)
    ensures
        permission_denied ==> r@ == "Another instance is checking for updates"@,
        !permission_denied ==> r@ == "Failed to acquire lock: "@ + io_error@,
{
    if permission_denied {
        String::from_str("Another instance is checking for updates")
    } else {
        let mut m = String::from_str("Failed to acquire lock: ");
        m.append(io_error);
        m
    }
}

/// The message every source carries when the lock stays taken.
pub open spec fn contention_message(reason: Seq<char>) -> Seq<char> {
    "Update check already in progress: "@ + reason
}

/// What to do after one attempt at taking the check lock.
#[derive(Debug)]
pub enum LockStep {
    Proceed,
    RetryAfter { delay_secs: u64 },
    GiveUp(UpdateReport),
}

/// The lock is retried once after two seconds; if it is still taken, the
/// check ends with the same error for every source.
pub fn after_lock_attempt(first_attempt: bool, failure: Option<String>) -> (r: LockStep)
    ensures
        match failure {
            None => r == LockStep::Proceed,
            Some(reason) => if first_attempt {
                r == (LockStep::RetryAfter { delay_secs: 2 })
            } else {
                r matches LockStep::GiveUp(report) && (report.pacman matches SourceState::Error(m)
                    && m@ == contention_message(reason@)) && (report.aur matches SourceState::Error(
                    m,
                ) && m@ == contention_message(reason@)) && (report.flatpak matches SourceState::Error(
                    m,
                ) && m@ == contention_message(reason@))
            },
        },
{
    match failure {
        None => LockStep::Proceed,
        Some(reason) => if first_attempt {
            LockStep::RetryAfter { delay_secs: 2 }
        } else {
            let mut msg = String::from_str("Update check already in progress: ");
            msg.append(reason.as_str());
            LockStep::GiveUp(
                UpdateReport {
                    pacman: SourceState::Error(msg.clone()),
                    aur: SourceState::Error(msg.clone()),
                    flatpak: SourceState::Error(msg),
                },
            )
        },
    }
}

} // verus!
