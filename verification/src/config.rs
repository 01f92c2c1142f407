//! The applet's settings, their defaults, and the parsing of the
//! check-interval field.
use crate::text::chars_of;
use vstd::prelude::*;
use vstd::string::*;

verus! {

/// The version under which the settings are stored.
pub const CONFIG_VERSION: u64 = 1;

/// The value a missing `include_flatpak_updates` entry takes.
pub fn default_true() -> (r: bool)
    ensures
        r,
{
    true
}

/// The applet's settings.
#[derive(Clone, Debug, PartialEq, Eq)]
pub struct PackageUpdaterConfig {
    pub check_interval_minutes: u32,
    pub auto_check_on_startup: bool,
    pub include_aur_updates: bool,
    pub include_flatpak_updates: bool,
    pub show_notifications: bool,
    pub show_update_count: bool,
    pub preferred_terminal: String,
}

/// The settings a fresh installation starts from.
pub open spec fn is_default_config(c: PackageUpdaterConfig) -> bool {
    &&& c.check_interval_minutes == 60
    &&& c.auto_check_on_startup
    &&& c.include_aur_updates
    &&& c.include_flatpak_updates
    &&& c.show_notifications
    &&& c.show_update_count
    &&& c.preferred_terminal@ == "cosmic-term"@
}

impl Default for PackageUpdaterConfig {
    fn default() -> (r: Self)
        ensures
            is_default_config(r),
    {
        PackageUpdaterConfig {
            check_interval_minutes: 60,
            auto_check_on_startup: true,
            include_aur_updates: true,
            include_flatpak_updates: true,
            show_notifications: true,
            show_update_count: true,
            preferred_terminal: String::from_str("cosmic-term"),
        }
    }
}

impl PackageUpdaterConfig {
    /// A field-for-field copy.
    pub fn duplicate(&self) -> (r: Self)
        ensures
            r == *self,
    {
        PackageUpdaterConfig {
            check_interval_minutes: self.check_interval_minutes,
            auto_check_on_startup: self.auto_check_on_startup,
            include_aur_updates: self.include_aur_updates,
            include_flatpak_updates: self.include_flatpak_updates,
            show_notifications: self.show_notifications,
            show_update_count: self.show_update_count,
            preferred_terminal: self.preferred_terminal.clone(),
        }
    }

    /// The time between two periodic checks, in seconds.
    pub fn check_interval_secs(&self) -> (r: u64)
        ensures
            r == self.check_interval_minutes * 60,
    {
        self.check_interval_minutes as u64 * 60
    }

    /// The text the settings tab shows for the preferred terminal.
    pub fn terminal_field_value(&self) -> (r: String)
        ensures
            self.preferred_terminal@.len() == 0 ==> r@ == "cosmic-term"@,
            self.preferred_terminal@.len() != 0 ==> r@ == self.preferred_terminal@,
    {
        if self.preferred_terminal.as_str().unicode_len() == 0 {
            String::from_str("cosmic-term")
        } else {
            self.preferred_terminal.clone()
        }
    }
}

pub open spec fn is_digit(c: char) -> bool {
    '0' <= c && c <= '9'
}

pub open spec fn digit_value(c: char) -> nat {
    (c as nat - '0' as nat) as nat
}

/// The number the decimal digits `s` spell.
pub open spec fn digits_value(s: Seq<char>) -> nat
    decreases s.len(),
{
    if s.len() == 0 {
        0
    } else {
        digits_value(s.drop_last()) * 10 + digit_value(s.last())
    }
}

/// `s` without one leading plus sign.
pub open spec fn unsigned_body(s: Seq<char>) -> Seq<char> {
    if s.len() > 0 && s[0] == '+' {
        s.drop_first()
    } else {
        s
    }
}

/// What `str::parse::<u32>` gives: an optional `+`, then at least one
/// decimal digit, and a value that fits.
pub open spec fn parse_u32(s: Seq<char>) -> Option<u32> {
    let body = unsigned_body(s);
    if body.len() > 0 && (forall|i: int| 0 <= i < body.len() ==> #[trigger] is_digit(body[i]))
        && digits_value(body) <= u32::MAX {
        Some(digits_value(body) as u32)
    } else {
        None
    }
}

/// The interval a text entered in the settings stands for: its number,
/// or 60 where it is none, held between 1 and 1440 minutes.
pub open spec fn interval_setting(s: Seq<char>) -> u32 {
    let v = match parse_u32(s) {
        Some(v) => v,
        None => 60,
    };
    if v < 1 {
        1
    } else if v > 1440 {
        1440
    } else {
        v
    }
}

pub proof fn lemma_digits_value_prefix(s: Seq<char>, k: int)
    requires
        0 <= k <= s.len(),
    ensures
        digits_value(s.take(k)) <= digits_value(s),
    decreases s.len(),
{
    if k < s.len() {
        lemma_digits_value_prefix(s.drop_last(), k);
        assert(s.drop_last().take(k) =~= s.take(k));
    } else {
        assert(s.take(k) =~= s);
    }
}

/// Parses a decimal `u32` as `str::parse` does.
pub fn parse_u32_text(text: &str) -> (r: Option<u32>)
    ensures
        r == parse_u32(text@),
{
    let cs = chars_of(text);
    let n = cs.len();
    let start: usize = if n > 0 && cs[0] == '+' {
        1
    } else {
        0
    };
    let ghost body = unsigned_body(cs@);
    assert(body =~= cs@.subrange(start as int, n as int));
    if start >= n {
        return None;
    }
    let mut acc: u64 = 0;
    let mut i = start;
    assert(body.take(0) =~= Seq::<char>::empty());
    while i < n
        invariant
            start <= i <= n,
            n == cs@.len(),
            body == cs@.subrange(start as int, n as int),
            body == unsigned_body(text@),
            body.len() > 0,
            acc == digits_value(body.take(i - start)),
            acc <= u32::MAX,
            forall|k: int| 0 <= k < i - start ==> #[trigger] is_digit(body[k]),
        decreases n - i,
    {
        let c = cs[i];
        assert(c == body[i - start]);
        if !('0' <= c && c <= '9') {
            assert(!is_digit(body[i - start]));
            return None;
        }
        let d: u64 = (c as u32 - '0' as u32) as u64;
        assert(body.take(i - start + 1).drop_last() =~= body.take(i - start));
        assert(body.take(i - start + 1).last() == c);
        assert(d == digit_value(c));
        acc = acc * 10 + d;
        assert(acc == digits_value(body.take(i - start + 1)));
        if acc > 0xffff_ffff {
            proof {
                lemma_digits_value_prefix(body, i - start + 1);
            }
            return None;
        }
        i = i + 1;
    }
    assert(body.take(n - start) =~= body);
    Some(acc as u32)
}

/// The check interval that a text entered in the settings sets.
pub fn interval_from_input(text: &str) -> (r: u32)
    ensures
        r == interval_setting(text@),
        1 <= r <= 1440,
{
    let v = match parse_u32_text(text) {
        Some(v) => v,
        None => 60,
    };
    if v < 1 {
        1
    } else if v > 1440 {
        1440
    } else {
        v
    }
}

} // verus!
