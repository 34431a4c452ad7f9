//! Small text-building utilities: appending single characters, decimal
//! rendering of integers, and the human-readable retry-after duration
//! format.

use vstd::prelude::*;

verus! {

/// Relies on String::push: appends exactly the one character.
#[verifier::external_body]
pub(crate) fn push_char(out: &mut String, c: char)
    ensures
        final(out)@ == old(out)@ + seq![c],
{
    out.push(c);
}

/// The decimal digit character of `d`, for `0 <= d <= 9`.
pub open spec fn spec_digit(d: int) -> char {
    if d == 0 {
        '0'
    } else if d == 1 {
        '1'
    } else if d == 2 {
        '2'
    } else if d == 3 {
        '3'
    } else if d == 4 {
        '4'
    } else if d == 5 {
        '5'
    } else if d == 6 {
        '6'
    } else if d == 7 {
        '7'
    } else if d == 8 {
        '8'
    } else {
        '9'
    }
}

/// The decimal text of `n`, without sign or leading zeros (`0` is `"0"`).
pub open spec fn spec_dec(n: int) -> Seq<char>
    recommends
        0 <= n,
    decreases n,
{
    if n < 10 {
        seq![spec_digit(n)]
    } else {
        spec_dec(n / 10).push(spec_digit(n % 10))
    }
}

/// The retry-after duration format: seconds under a minute as `"{s}s"`,
/// anything longer as `"{m}m{s}s"` with `m` whole minutes and `s` the
/// seconds left over.
pub open spec fn spec_retry_after_text(secs: u64) -> Seq<char> {
    if secs < 60 {
        spec_dec(secs as int) + "s"@
    } else {
        spec_dec(secs as int / 60) + "m"@ + spec_dec(secs as int % 60) + "s"@
    }
}

pub(crate) fn digit_char(d: u64) -> (c: char)
    requires
        d < 10,
    ensures
        c == spec_digit(d as int),
{
    match d {
        0 => '0',
        1 => '1',
        2 => '2',
        3 => '3',
        4 => '4',
        5 => '5',
        6 => '6',
        7 => '7',
        8 => '8',
        _ => '9',
    }
}

/// Appends the decimal text of `n` to `out`.
pub(crate) fn push_dec(out: &mut String, n: u64)
    ensures
        final(out)@ == old(out)@ + spec_dec(n as int),
    decreases n,
{
    if n < 10 {
        push_char(out, digit_char(n));
        assert(out@ =~= old(out)@ + spec_dec(n as int));
    } else {
        push_dec(out, n / 10);
        push_char(out, digit_char(n % 10));
        assert(out@ =~= old(out)@ + spec_dec(n as int));
    }
}

/// Appends the retry-after duration text of `secs` to `out`.
pub(crate) fn push_retry_after_text(out: &mut String, secs: u64)
    ensures
        final(out)@ == old(out)@ + spec_retry_after_text(secs),
{
    if secs < 60 {
        push_dec(out, secs);
        out.append("s");
        assert(out@ =~= old(out)@ + spec_retry_after_text(secs));
    } else {
        push_dec(out, secs / 60);
        out.append("m");
        push_dec(out, secs % 60);
        out.append("s");
        assert(out@ =~= old(out)@ + spec_retry_after_text(secs));
    }
}

/// Returns the retry-after duration text of `secs`.
pub fn retry_after_text(secs: u64) -> (text: String)
    ensures
        text@ == spec_retry_after_text(secs),
{
    let mut out = String::new();
    push_retry_after_text(&mut out, secs);
    assert(out@ =~= spec_retry_after_text(secs));
    out
}

/// The ASCII-lowercase counterpart of a character: letters `A` to `Z` are
/// shifted down, everything else stands as itself.
pub open spec fn spec_lower_char(c: char) -> char {
    if 'A' <= c && c <= 'Z' {
        ((c as int) + 32) as char
    } else {
        c
    }
}

/// The ASCII-lowercase counterpart of a text, character by character.
pub open spec fn spec_lowered(s: Seq<char>) -> Seq<char> {
    s.map_values(|c: char| spec_lower_char(c))
}

/// Whether `needle` occurs contiguously anywhere inside `hay`.
pub open spec fn spec_contains(hay: Seq<char>, needle: Seq<char>) -> bool {
    exists|i: int|
        0 <= i <= hay.len() - needle.len() && #[trigger] hay.subrange(i, i + needle.len() as int)
            == needle
}

fn lower_char(c: char) -> (lowered: char)
    ensures
        lowered == spec_lower_char(c),
{
    match c {
        'A' => 'a',
        'B' => 'b',
        'C' => 'c',
        'D' => 'd',
        'E' => 'e',
        'F' => 'f',
        'G' => 'g',
        'H' => 'h',
        'I' => 'i',
        'J' => 'j',
        'K' => 'k',
        'L' => 'l',
        'M' => 'm',
        'N' => 'n',
        'O' => 'o',
        'P' => 'p',
        'Q' => 'q',
        'R' => 'r',
        'S' => 's',
        'T' => 't',
        'U' => 'u',
        'V' => 'v',
        'W' => 'w',
        'X' => 'x',
        'Y' => 'y',
        'Z' => 'z',
        _ => c,
    }
}

/// Collects the characters of `s` into a vector.
pub(crate) fn str_to_chars(s: &str) -> (chars: Vec<char>)
    ensures
        chars@ == s@,
{
    let n = s.unicode_len();
    let mut chars: Vec<char> = Vec::new();
    let mut i: usize = 0;
    while i < n
        invariant
            n == s@.len(),
            i <= n,
            chars@ =~= s@.subrange(0, i as int),
        decreases n - i,
    {
        chars.push(s.get_char(i));
        proof {
            assert(chars@ =~= s@.subrange(0, i + 1));
        }
        i += 1;
    }
    proof {
        assert(chars@ =~= s@);
    }
    chars
}

/// Collects the ASCII-lowercase characters of `s` into a vector.
pub(crate) fn str_to_lower_chars(s: &str) -> (chars: Vec<char>)
    ensures
        chars@ == spec_lowered(s@),
{
    let n = s.unicode_len();
    let mut chars: Vec<char> = Vec::new();
    let mut i: usize = 0;
    while i < n
        invariant
            n == s@.len(),
            i <= n,
            chars@.len() == i,
            forall|j: int| 0 <= j < i ==> chars@[j] == spec_lower_char(s@[j]),
        decreases n - i,
    {
        chars.push(lower_char(s.get_char(i)));
        i += 1;
    }
    proof {
        assert(chars@ =~= spec_lowered(s@));
    }
    chars
}

fn match_at(hay: &Vec<char>, needle: &Vec<char>, at: usize) -> (found: bool)
    requires
        at + needle@.len() <= hay@.len(),
    ensures
        found == (hay@.subrange(at as int, at + needle@.len()) == needle@),
{
    let hay_len = hay.len();
    let mut j: usize = 0;
    while j < needle.len()
        invariant
            at + needle@.len() <= hay@.len(),
            hay_len == hay@.len(),
            j <= needle@.len(),
            forall|k: int| 0 <= k < j ==> hay@[at + k] == needle@[k],
        decreases needle@.len() - j,
    {
        if hay[at + j] != needle[j] {
            proof {
                assert(hay@.subrange(at as int, at + needle@.len())[j as int] != needle@[
                    j as int
                ]);
            }
            return false;
        }
        j += 1;
    }
    proof {
        assert(hay@.subrange(at as int, at + needle@.len()) =~= needle@);
    }
    true
}

/// Reports whether `needle` occurs contiguously anywhere inside `hay`.
pub(crate) fn contains_chars(hay: &Vec<char>, needle: &Vec<char>) -> (found: bool)
    ensures
        found == spec_contains(hay@, needle@),
{
    if needle.len() > hay.len() {
        return false;
    }
    if needle.len() == 0 {
        proof {
            assert(hay@.subrange(0, 0 + needle@.len() as int) =~= needle@);
        }
        return true;
    }
    let hay_len = hay.len();
    let last_start = hay_len - needle.len();
    let mut i: usize = 0;
    while i <= last_start
        invariant
            needle@.len() <= hay@.len(),
            hay_len == hay@.len(),
            last_start == hay@.len() - needle@.len(),
            last_start < hay_len,
            i <= last_start + 1,
            forall|k: int|
                0 <= k < i ==> #[trigger] hay@.subrange(k, k + needle@.len() as int) != needle@,
        decreases last_start - i + 1,
    {
        if match_at(hay, needle, i) {
            return true;
        }
        i += 1;
    }
    false
}

} // verus!
