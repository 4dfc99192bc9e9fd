//! Verified plain-text building blocks: decimal rendering of numbers,
//! `minutes:seconds` duration labels, and boolean words.

use vstd::prelude::*;

verus! {

/// The character for one decimal digit.
pub open spec fn digit_char(d: nat) -> char {
    if d == 0 {
        '0'
    } else if d == 1 {
        '1'
    } else if d == 2 {
        '2'
    } else if d == 3 {
        '3'
    } else if d == 4 {
        '4'
    } else if d == 5 {
        '5'
    } else if d == 6 {
        '6'
    } else if d == 7 {
        '7'
    } else if d == 8 {
        '8'
    } else {
        '9'
    }
}

/// The usual decimal writing of `n`, most significant digit first,
/// without leading zeros (except for `n == 0` itself).
pub open spec fn dec_digits(n: nat) -> Seq<char>
    decreases n,
{
    if n < 10 {
        seq![digit_char(n)]
    } else {
        dec_digits(n / 10).push(digit_char(n % 10))
    }
}

/// Decimal writing of `n`, zero-padded to two places.
pub open spec fn padded2(n: nat) -> Seq<char> {
    if n < 10 {
        seq!['0'].add(dec_digits(n))
    } else {
        dec_digits(n)
    }
}

/// A duration of `secs` seconds written as `minutes:seconds`, the
/// seconds zero-padded to two places.
pub open spec fn duration_text(secs: nat) -> Seq<char> {
    dec_digits(secs / 60).add(seq![':'].add(padded2(secs % 60)))
}

/// The word `true` or `false`.
pub open spec fn bool_text(b: bool) -> Seq<char> {
    if b {
        seq!['t', 'r', 'u', 'e']
    } else {
        seq!['f', 'a', 'l', 's', 'e']
    }
}

/// The one-character string for a decimal digit.
fn digit_str(d: u64) -> (r: &'static str)
    requires
        d < 10,
    ensures
        r@ =~= seq![digit_char(d as nat)],
{
    proof {
        reveal_strlit("0");
        reveal_strlit("1");
        reveal_strlit("2");
        reveal_strlit("3");
        reveal_strlit("4");
        reveal_strlit("5");
        reveal_strlit("6");
        reveal_strlit("7");
        reveal_strlit("8");
        reveal_strlit("9");
    }
    if d == 0 {
        "0"
    } else if d == 1 {
        "1"
    } else if d == 2 {
        "2"
    } else if d == 3 {
        "3"
    } else if d == 4 {
        "4"
    } else if d == 5 {
        "5"
    } else if d == 6 {
        "6"
    } else if d == 7 {
        "7"
    } else if d == 8 {
        "8"
    } else {
        "9"
    }
}

/// Render `n` in decimal.
pub fn u64_to_string(n: u64) -> (s: String)
    ensures
        s@ == dec_digits(n as nat),
    decreases n,
{
    let d = digit_str(n % 10);
    if n < 10 {
        d.to_owned()
    } else {
        let mut s = u64_to_string(n / 10);
        s.append(d);
        proof {
            assert(s@ =~= dec_digits(n as nat));
        }
        s
    }
}

/// Render `n` in decimal, zero-padded to two places.
pub fn u64_to_string_pad2(n: u64) -> (s: String)
    ensures
        s@ == padded2(n as nat),
{
    if n < 10 {
        proof {
            reveal_strlit("0");
        }
        let mut s = String::new();
        s.append("0");
        let d = digit_str(n);
        s.append(d);
        proof {
            assert(s@ =~= padded2(n as nat));
        }
        s
    } else {
        u64_to_string(n)
    }
}

/// Render a duration given in seconds as `minutes:seconds`.
pub fn format_duration(secs: u64) -> (s: String)
    ensures
        s@ == duration_text(secs as nat),
{
    let mut s = u64_to_string(secs / 60);
    proof {
        reveal_strlit(":");
    }
    s.append(":");
    let rest = u64_to_string_pad2(secs % 60);
    s.append(rest.as_str());
    proof {
        assert(s@ =~= duration_text(secs as nat));
    }
    s
}

/// The word a boolean prints as.
pub fn bool_to_str(b: bool) -> (r: &'static str)
    ensures
        r@ == bool_text(b),
{
    proof {
        reveal_strlit("true");
        reveal_strlit("false");
    }
    if b {
        proof {
            assert("true"@ =~= bool_text(true));
        }
        "true"
    } else {
        proof {
            assert("false"@ =~= bool_text(false));
        }
        "false"
    }
}

/// `needle` occurs somewhere in `hay`.
pub open spec fn spec_contains_sub(hay: Seq<char>, needle: Seq<char>) -> bool {
    exists|k: int|
        0 <= k <= hay.len() - needle.len() && #[trigger] hay.subrange(k, k + needle.len() as int)
            == needle
}

/// Whether `needle` occurs at position `k` of `hay`.
fn matches_at(hay: &str, needle: &str, k: usize, h: usize, m: usize) -> (r: bool)
    requires
        h == hay@.len(),
        m == needle@.len(),
        k + m <= h,
    ensures
        r == (hay@.subrange(k as int, k + m as int) == needle@),
{
    let mut j: usize = 0;
    while j < m
        invariant
            j <= m,
            h == hay@.len(),
            m == needle@.len(),
            k + m <= h,
            forall|jj: int| 0 <= jj < j ==> hay@[k + jj] == needle@[jj],
        decreases m - j,
    {
        if hay.get_char(k + j) != needle.get_char(j) {
            proof {
                assert(hay@.subrange(k as int, k + m as int)[j as int] == hay@[k + j]);
            }
            return false;
        }
        j = j + 1;
    }
    proof {
        assert(hay@.subrange(k as int, k + m as int) =~= needle@);
    }
    true
}

/// Substring search: does `hay` contain `needle`?
pub fn str_contains(hay: &str, needle: &str) -> (r: bool)
    ensures
        r == spec_contains_sub(hay@, needle@),
{
    let h = hay.unicode_len();
    let m = needle.unicode_len();
    if m > h {
        return false;
    }
    if m == 0 {
        proof {
            assert(hay@.subrange(0, 0 + needle@.len() as int) =~= needle@);
            assert(spec_contains_sub(hay@, needle@));
        }
        return true;
    }
    let mut k: usize = 0;
    while k <= h - m
        invariant
            1 <= m <= h,
            h == hay@.len(),
            m == needle@.len(),
            k <= h - m + 1,
            forall|kk: int|
                0 <= kk < k ==> #[trigger] hay@.subrange(kk, kk + needle@.len() as int)
                    != needle@,
        decreases h - k,
    {
        if matches_at(hay, needle, k, h, m) {
            return true;
        }
        k = k + 1;
    }
    false
}


} // verus!
