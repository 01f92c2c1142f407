//! Character-level text handling: whitespace, words, fields, lines,
//! decimal numbers, and the string builders the rest of the crate uses.
use vstd::prelude::*;
use vstd::string::*;

verus! {

/// Unicode `White_Space`, the set that `char::is_whitespace` tests.
pub open spec fn is_ws(c: char) -> bool {
    ||| ('\t' <= c && c <= '\r')
    ||| c == ' '
    ||| c == '\u{85}'
    ||| c == '\u{a0}'
    ||| c == '\u{1680}'
    ||| ('\u{2000}' <= c && c <= '\u{200a}')
    ||| c == '\u{2028}'
    ||| c == '\u{2029}'
    ||| c == '\u{202f}'
    ||| c == '\u{205f}'
    ||| c == '\u{3000}'
}

/// Every character of `s` is whitespace (so `s.trim()` is empty).
pub open spec fn all_ws(s: Seq<char>) -> bool {
    forall|i: int| 0 <= i < s.len() ==> #[trigger] is_ws(s[i])
}

/// Length of the leading run of non-whitespace characters.
pub open spec fn run_len(s: Seq<char>) -> nat
    decreases s.len(),
{
    if s.len() == 0 || is_ws(s[0]) {
        0
    } else {
        1 + run_len(s.drop_first())
    }
}

/// Length of the leading run of characters other than `d`.
pub open spec fn field_len(s: Seq<char>, d: char) -> nat
    decreases s.len(),
{
    if s.len() == 0 || s[0] == d {
        0
    } else {
        1 + field_len(s.drop_first(), d)
    }
}

/// The words of `s` in order: its maximal runs of non-whitespace characters.
pub open spec fn words(s: Seq<char>) -> Seq<Seq<char>>
    decreases s.len(),
{
    if s.len() == 0 {
        seq![]
    } else if is_ws(s[0]) {
        words(s.drop_first())
    } else {
        let k = run_len(s);
        proof {
            lemma_run_len_bound(s);
        }
        seq![s.take(k as int)] + words(s.skip(k as int))
    }
}

/// The pieces of `s` between occurrences of `d`; there is always at least one.
pub open spec fn split_on(s: Seq<char>, d: char) -> Seq<Seq<char>>
    decreases s.len(),
{
    let k = field_len(s, d);
    proof {
        lemma_field_len_bound(s, d);
    }
    if k >= s.len() {
        seq![s]
    } else {
        seq![s.take(k as int)] + split_on(s.skip(k + 1 as int), d)
    }
}

/// `t` without one trailing carriage return.
pub open spec fn strip_cr(t: Seq<char>) -> Seq<char> {
    if t.len() > 0 && t.last() == '\r' {
        t.drop_last()
    } else {
        t
    }
}

/// The lines of `s`: split at `\n`, a `\r` before it dropped, and no
/// empty line after a final line ending.
pub open spec fn lines(s: Seq<char>) -> Seq<Seq<char>>
    decreases s.len(),
{
    if s.len() == 0 {
        seq![]
    } else {
        let k = field_len(s, '\n');
        proof {
            lemma_field_len_bound(s, '\n');
        }
        if k >= s.len() {
            seq![s]
        } else {
            seq![strip_cr(s.take(k as int))] + lines(s.skip(k + 1 as int))
        }
    }
}

/// `pat` occurs in `s` as a contiguous piece.
pub open spec fn contains_seq(s: Seq<char>, pat: Seq<char>) -> bool {
    exists|i: int| 0 <= i && i + pat.len() <= s.len() && #[trigger] s.subrange(i, i + pat.len()) == pat
}

/// The decimal digit character for `d < 10`.
pub open spec fn digit_char(d: nat) -> char {
    ('0' as nat + d) as char
}

/// The decimal representation of `n`, without leading zeros.
pub open spec fn decimal(n: nat) -> Seq<char>
    decreases n,
{
    if n < 10 {
        seq![digit_char(n)]
    } else {
        decimal(n / 10).push(digit_char(n % 10))
    }
}

/// The decimal representation of a signed integer, with `-` for negatives.
pub open spec fn signed_decimal(n: int) -> Seq<char> {
    if n < 0 {
        seq!['-'] + decimal((-n) as nat)
    } else {
        decimal(n as nat)
    }
}

/// The views of a sequence of character vectors.
pub open spec fn char_seqs(v: Seq<Vec<char>>) -> Seq<Seq<char>> {
    Seq::new(v.len(), |i: int| v[i]@)
}

pub proof fn lemma_run_len_bound(s: Seq<char>)
    ensures
        run_len(s) <= s.len(),
        s.len() > 0 && !is_ws(s[0]) ==> run_len(s) >= 1,
    decreases s.len(),
{
    if s.len() > 0 && !is_ws(s[0]) {
        lemma_run_len_bound(s.drop_first());
    }
}

pub proof fn lemma_field_len_bound(s: Seq<char>, d: char)
    ensures
        field_len(s, d) <= s.len(),
    decreases s.len(),
{
    if s.len() > 0 && s[0] != d {
        lemma_field_len_bound(s.drop_first(), d);
    }
}

/// A run of non-whitespace from `i` to `j` that whitespace or the end
/// closes has length `j - i`.
pub proof fn lemma_run_len_at(s: Seq<char>, i: int, j: int)
    requires
        0 <= i <= j <= s.len(),
        forall|k: int| i <= k < j ==> !#[trigger] is_ws(s[k]),
        j == s.len() || is_ws(s[j]),
    ensures
        run_len(s.skip(i)) == j - i,
    decreases j - i,
{
    if i < j {
        lemma_run_len_at(s, i + 1, j);
        assert(s.skip(i).drop_first() =~= s.skip(i + 1));
    }
}

/// A field from `i` to `j` free of `d` that `d` or the end closes has
/// length `j - i`.
pub proof fn lemma_field_len_at(s: Seq<char>, d: char, i: int, j: int)
    requires
        0 <= i <= j <= s.len(),
        forall|k: int| i <= k < j ==> #[trigger] s[k] != d,
        j == s.len() || s[j] == d,
    ensures
        field_len(s.skip(i), d) == j - i,
    decreases j - i,
{
    if i < j {
        lemma_field_len_at(s, d, i + 1, j);
        assert(s.skip(i).drop_first() =~= s.skip(i + 1));
    }
}

/// `String::push`: appends one character.
#[verifier::external_body]
pub fn push_char(s: &mut String, c: char)
    ensures
        final(s)@ == old(s)@.push(c),
{
    s.push(c);
}

/// Tests a character for Unicode whitespace.
pub fn is_whitespace(c: char) -> (r: bool)
    ensures
        r == is_ws(c),
{
    ('\t' <= c && c <= '\r') || c == ' ' || c == '\u{85}' || c == '\u{a0}' || c == '\u{1680}' || (
    '\u{2000}' <= c && c <= '\u{200a}') || c == '\u{2028}' || c == '\u{2029}' || c == '\u{202f}'
        || c == '\u{205f}' || c == '\u{3000}'
}

/// The characters of `s`, in order.
pub fn chars_of(s: &str) -> (v: Vec<char>)
    ensures
        v@ == s@,
{
    let mut v: Vec<char> = Vec::new();
    for c in it: s.chars()
        invariant
            v@ == it.seq().take(it.index() as int),
            it.seq() == s@,
    {
        v.push(c);
    }
    v
}

/// Appends the characters `cs[from..to]` to `s`.
pub fn push_chars(s: &mut String, cs: &Vec<char>, from: usize, to: usize)
    requires
        from <= to <= cs@.len(),
    ensures
        final(s)@ == old(s)@ + cs@.subrange(from as int, to as int),
{
    let mut i = from;
    while i < to
        invariant
            from <= i <= to <= cs@.len(),
            s@ == old(s)@ + cs@.subrange(from as int, i as int),
        decreases to - i,
    {
        push_char(s, cs[i]);
        assert(cs@.subrange(from as int, i + 1) =~= cs@.subrange(from as int, i as int).push(
            cs@[i as int],
        ));
        i = i + 1;
    }
}

/// A `String` holding the characters `cs`.
pub fn string_from_chars(cs: &Vec<char>) -> (s: String)
    ensures
        s@ == cs@,
{
    let mut s = String::new();
    push_chars(&mut s, cs, 0, cs.len());
    assert(cs@.subrange(0, cs@.len() as int) =~= cs@);
    s
}

/// Whether every character of `cs` is whitespace.
pub fn all_whitespace(cs: &Vec<char>) -> (r: bool)
    ensures
        r == all_ws(cs@),
{
    let mut i: usize = 0;
    while i < cs.len()
        invariant
            i <= cs@.len(),
            forall|k: int| 0 <= k < i ==> #[trigger] is_ws(cs@[k]),
        decreases cs@.len() - i,
    {
        if !is_whitespace(cs[i]) {
            assert(!is_ws(cs@[i as int]));
            return false;
        }
        i = i + 1;
    }
    true
}

/// The words of `cs`, as `str::split_whitespace` yields them.
pub fn split_words(cs: &Vec<char>) -> (r: Vec<Vec<char>>)
    ensures
        char_seqs(r@) == words(cs@),
{
    let n = cs.len();
    let mut r: Vec<Vec<char>> = Vec::new();
    let mut i: usize = 0;
    assert(cs@.skip(0) =~= cs@);
    while i < n
        invariant
            n == cs@.len(),
            i <= n,
            words(cs@) == char_seqs(r@) + words(cs@.skip(i as int)),
        decreases n - i,
    {
        let ghost rest = cs@.skip(i as int);
        if is_whitespace(cs[i]) {
            assert(rest.drop_first() =~= cs@.skip(i + 1));
            i = i + 1;
        } else {
            let mut w: Vec<char> = Vec::new();
            let mut j = i;
            while j < n && !is_whitespace(cs[j])
                invariant
                    n == cs@.len(),
                    i <= j <= n,
                    w@ == cs@.subrange(i as int, j as int),
                    forall|k: int| i <= k < j ==> !#[trigger] is_ws(cs@[k]),
                decreases n - j,
            {
                w.push(cs[j]);
                assert(cs@.subrange(i as int, j + 1) =~= cs@.subrange(i as int, j as int).push(
                    cs@[j as int],
                ));
                j = j + 1;
            }
            proof {
                lemma_run_len_at(cs@, i as int, j as int);
                assert(rest.take((j - i) as int) =~= w@);
                assert(rest.skip((j - i) as int) =~= cs@.skip(j as int));
                assert(words(rest) == seq![w@] + words(cs@.skip(j as int)));
            }
            let ghost before = r@;
            r.push(w);
            assert(char_seqs(r@) =~= char_seqs(before) + seq![cs@.subrange(i as int, j as int)]);
            assert(words(cs@) =~= char_seqs(r@) + words(cs@.skip(j as int)));
            i = j;
        }
    }
    assert(cs@.skip(n as int) =~= Seq::<char>::empty());
    assert(char_seqs(r@) + seq![] =~= char_seqs(r@));
    r
}

/// The pieces of `cs` between occurrences of `d`, as `str::split(d)` yields them.
pub fn split_on_char(cs: &Vec<char>, d: char) -> (r: Vec<Vec<char>>)
    ensures
        char_seqs(r@) == split_on(cs@, d),
{
    let n = cs.len();
    let mut r: Vec<Vec<char>> = Vec::new();
    let mut i: usize = 0;
    assert(cs@.skip(0) =~= cs@);
    loop
        invariant
            n == cs@.len(),
            i <= n,
            split_on(cs@, d) == char_seqs(r@) + split_on(cs@.skip(i as int), d),
        decreases n - i,
    {
        let ghost rest = cs@.skip(i as int);
        let mut w: Vec<char> = Vec::new();
        let mut j = i;
        while j < n && cs[j] != d
            invariant
                n == cs@.len(),
                i <= j <= n,
                w@ == cs@.subrange(i as int, j as int),
                forall|k: int| i <= k < j ==> #[trigger] cs@[k] != d,
            decreases n - j,
        {
            w.push(cs[j]);
            assert(cs@.subrange(i as int, j + 1) =~= cs@.subrange(i as int, j as int).push(
                cs@[j as int],
            ));
            j = j + 1;
        }
        proof {
            lemma_field_len_at(cs@, d, i as int, j as int);
        }
        let ghost before = r@;
        r.push(w);
        assert(char_seqs(r@) =~= char_seqs(before) + seq![cs@.subrange(i as int, j as int)]);
        if j == n {
            assert(rest =~= cs@.subrange(i as int, j as int));
            assert(split_on(rest, d) == seq![rest]);
            assert(split_on(cs@, d) =~= char_seqs(r@));
            return r;
        }
        proof {
            assert(rest.take((j - i) as int) =~= cs@.subrange(i as int, j as int));
            assert(rest.skip((j - i) + 1) =~= cs@.skip(j + 1));
            assert(split_on(rest, d) == seq![cs@.subrange(i as int, j as int)] + split_on(
                cs@.skip(j + 1),
                d,
            ));
            assert(split_on(cs@, d) =~= char_seqs(r@) + split_on(cs@.skip(j + 1), d));
        }
        i = j + 1;
    }
}

/// The lines of `cs`, as `str::lines` yields them.
pub fn split_lines(cs: &Vec<char>) -> (r: Vec<Vec<char>>)
    ensures
        char_seqs(r@) == lines(cs@),
{
    let n = cs.len();
    let mut r: Vec<Vec<char>> = Vec::new();
    let mut i: usize = 0;
    assert(cs@.skip(0) =~= cs@);
    while i < n
        invariant
            n == cs@.len(),
            i <= n,
            lines(cs@) == char_seqs(r@) + lines(cs@.skip(i as int)),
        decreases n - i,
    {
        let ghost rest = cs@.skip(i as int);
        let mut w: Vec<char> = Vec::new();
        let mut j = i;
        while j < n && cs[j] != '\n'
            invariant
                n == cs@.len(),
                i <= j <= n,
                w@ == cs@.subrange(i as int, j as int),
                forall|k: int| i <= k < j ==> #[trigger] cs@[k] != '\n',
            decreases n - j,
        {
            w.push(cs[j]);
            assert(cs@.subrange(i as int, j + 1) =~= cs@.subrange(i as int, j as int).push(
                cs@[j as int],
            ));
            j = j + 1;
        }
        proof {
            lemma_field_len_at(cs@, '\n', i as int, j as int);
            assert(rest.take((j - i) as int) =~= cs@.subrange(i as int, j as int));
        }
        if j == n {
            assert(rest =~= cs@.subrange(i as int, j as int));
            let ghost before = r@;
            r.push(w);
            assert(char_seqs(r@) =~= char_seqs(before) + seq![rest]);
            assert(lines(cs@) =~= char_seqs(r@));
            return r;
        }
        let wl = w.len();
        if wl > 0 && w[wl - 1] == '\r' {
            w.pop();
        }
        assert(w@ =~= strip_cr(cs@.subrange(i as int, j as int)));
        let ghost before = r@;
        r.push(w);
        proof {
            assert(rest.skip((j - i) + 1) =~= cs@.skip(j + 1));
            assert(lines(rest) == seq![strip_cr(cs@.subrange(i as int, j as int))] + lines(
                cs@.skip(j + 1),
            ));
            assert(char_seqs(r@) =~= char_seqs(before) + seq![strip_cr(cs@.subrange(i as int, j as int))]);
            assert(lines(cs@) =~= char_seqs(r@) + lines(cs@.skip(j + 1)));
        }
        i = j + 1;
    }
    assert(cs@.skip(n as int) =~= Seq::<char>::empty());
    assert(char_seqs(r@) + seq![] =~= char_seqs(r@));
    r
}

/// Whether `cs` contains the sequence " -> ".
pub fn contains_arrow(cs: &Vec<char>) -> (r: bool)
    ensures
        r == contains_seq(cs@, " -> "@),
{
    proof {
        reveal_strlit(" -> ");
    }
    let ghost pat = " -> "@;
    let n = cs.len();
    if n < 4 {
        assert forall|i: int| 0 <= i && i + pat.len() <= cs@.len() implies #[trigger] cs@.subrange(
            i,
            i + pat.len(),
        ) != pat by {}
        return false;
    }
    assert(pat.len() == 4 && pat[0] == ' ' && pat[1] == '-' && pat[2] == '>' && pat[3] == ' ');
    let mut i: usize = 0;
    while i < n - 3
        invariant
            n == cs@.len(),
            n >= 4,
            i <= n - 3,
            pat == " -> "@,
            pat.len() == 4 && pat[0] == ' ' && pat[1] == '-' && pat[2] == '>' && pat[3] == ' ',
            forall|k: int| 0 <= k < i ==> #[trigger] cs@.subrange(k, k + 4) != pat,
        decreases n - i,
    {
        let ghost sub = cs@.subrange(i as int, i + 4);
        assert(sub[0] == cs@[i as int] && sub[1] == cs@[i + 1] && sub[2] == cs@[i + 2] && sub[3]
            == cs@[i + 3]);
        if cs[i] == ' ' && cs[i + 1] == '-' && cs[i + 2] == '>' && cs[i + 3] == ' ' {
            assert(sub =~= pat);
            assert(cs@.subrange(i as int, i + pat.len()) == pat);
            return true;
        }
        assert(sub != pat);
        i = i + 1;
    }
    assert forall|k: int| 0 <= k && k + pat.len() <= cs@.len() implies #[trigger] cs@.subrange(
        k,
        k + pat.len(),
    ) != pat by {
        assert(k < i);
    }
    false
}

/// Appends the decimal representation of `n` to `s`.
pub fn push_decimal(s: &mut String, n: u64)
    ensures
        final(s)@ == old(s)@ + decimal(n as nat),
    decreases n,
{
    if n >= 10 {
        push_decimal(s, n / 10);
    }
    let d = (n % 10) as u32;
    let c: char = if d == 0 {
        '0'
    } else if d == 1 {
        '1'
    } else if d == 2 {
        '2'
    } else if d == 3 {
        '3'
    } else if d == 4 {
        '4'
    } else if d == 5 {
        '5'
    } else if d == 6 {
        '6'
    } else if d == 7 {
        '7'
    } else if d == 8 {
        '8'
    } else {
        '9'
    };
    assert(c == digit_char((n % 10) as nat));
    push_char(s, c);
    if n >= 10 {
        assert(s@ =~= old(s)@ + decimal(n as nat));
    } else {
        assert(s@ =~= old(s)@ + decimal(n as nat));
    }
}

/// Appends the decimal representation of the signed `n` to `s`.
pub fn push_signed_decimal(s: &mut String, n: i32)
    ensures
        final(s)@ == old(s)@ + signed_decimal(n as int),
{
    if n < 0 {
        push_char(s, '-');
        let m: i64 = -(n as i64);
        push_decimal(s, m as u64);
        assert(s@ =~= old(s)@ + signed_decimal(n as int));
    } else {
        push_decimal(s, n as u64);
    }
}

} // verus!
