//! The shell command the update terminal runs, and the marker file by
//! which the applet learns that the terminal closed.
use crate::text::{chars_of, decimal, push_char, push_decimal};
use vstd::prelude::*;
use vstd::string::*;

verus! {

/// `s` with every double quote preceded by a backslash.
pub open spec fn escaped(s: Seq<char>) -> Seq<char>
    decreases s.len(),
{
    if s.len() == 0 {
        seq![]
    } else {
        escaped(s.drop_last()) + if s.last() == '"' {
            seq!['\\', '"']
        } else {
            seq![s.last()]
        }
    }
}

/// The runtime directory: the value of `XDG_RUNTIME_DIR`, or `/tmp`.
pub fn runtime_dir(env_value: Option<String>) -> (r: String)
    ensures
        match env_value {
            Some(v) => r == v,
            None => r@ == "/tmp"@,
        },
{
    match env_value {
        Some(v) => v,
        None => String::from_str("/tmp"),
    }
}

/// The file that exists while the update terminal of process `pid` is open.
pub fn marker_file_path(runtime_dir: &str, pid: u32) -> (r: String)
    ensures
        r@ == runtime_dir@ + "/cosmic-package-updater-terminal-"@ + decimal(pid as nat) + ".marker"@,
{
    let mut s = String::from_str(runtime_dir);
    s.append("/cosmic-package-updater-terminal-");
    push_decimal(&mut s, pid as u64);
    s.append(".marker");
    s
}

/// `command` with its double quotes escaped for a double-quoted shell word.
pub fn escape_quotes(command: &str) -> (r: String)
    ensures
        r@ == escaped(command@),
{
    let cs = chars_of(command);
    let mut r = String::new();
    let mut i: usize = 0;
    while i < cs.len()
        invariant
            i <= cs@.len(),
            cs@ == command@,
            r@ == escaped(cs@.take(i as int)),
        decreases cs@.len() - i,
    {
        let c = cs[i];
        assert(cs@.take(i + 1).drop_last() =~= cs@.take(i as int));
        assert(cs@.take(i + 1).last() == c);
        if c == '"' {
            push_char(&mut r, '\\');
            push_char(&mut r, '"');
        } else {
            push_char(&mut r, c);
        }
        assert(r@ =~= escaped(cs@.take(i + 1)));
        i = i + 1;
    }
    assert(cs@.take(cs@.len() as int) =~= cs@);
    r
}

/// The script the terminal runs: the update command, a prompt to close,
/// and the removal of the marker file whatever the command's outcome.
pub open spec fn terminal_script_text(command: Seq<char>, marker: Seq<char>) -> Seq<char> {
    escaped(command) + " && echo \"Update completed. Press Enter to exit...\" && read; rm -f \""@
        + marker + "\""@
}

pub fn terminal_script(command: &str, marker: &str) -> (r: String)
    ensures
        r@ == terminal_script_text(command@, marker@),
{
    let mut s = escape_quotes(command);
    s.append(" && echo \"Update completed. Press Enter to exit...\" && read; rm -f \"");
    s.append(marker);
    s.append("\"");
    s
}

} // verus!
