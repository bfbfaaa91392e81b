//! Verified text helpers: trimming, concatenation, decimal rendering and the
//! case-insensitive conflict-marker search used to classify sync failures.

use vstd::prelude::*;

verus! {

/// Whitespace characters stripped from the end of the external tool's output.
pub open spec fn is_space(c: char) -> bool {
    c == ' ' || c == '\t' || c == '\n' || c == '\r'
}

/// `s` with every trailing whitespace character removed.
pub open spec fn trim_end_spaces(s: Seq<char>) -> Seq<char>
    decreases s.len(),
{
    if s.len() > 0 && is_space(s.last()) {
        trim_end_spaces(s.drop_last())
    } else {
        s
    }
}

/// `s` with every trailing `/` removed.
pub open spec fn trim_end_slashes(s: Seq<char>) -> Seq<char>
    decreases s.len(),
{
    if s.len() > 0 && s.last() == '/' {
        trim_end_slashes(s.drop_last())
    } else {
        s
    }
}

fn is_space_exec(c: char) -> (r: bool)
    ensures
        r == is_space(c),
{
    c == ' ' || c == '\t' || c == '\n' || c == '\r'
}

/// Remove all trailing whitespace from `s`.
pub fn trim_end_spaces_str(s: &str) -> (r: String)
    ensures
        r@ == trim_end_spaces(s@),
{
    let len = s.unicode_len();
    let mut end = len;
    proof {
        assert(s@.subrange(0, len as int) =~= s@);
    }
    while end > 0 && is_space_exec(s.get_char(end - 1))
        invariant
            end <= len,
            len == s@.len(),
            trim_end_spaces(s@) == trim_end_spaces(s@.subrange(0, end as int)),
        decreases end,
    {
        proof {
            let t = s@.subrange(0, end as int);
            assert(t.last() == s@[end - 1]);
            assert(t.drop_last() =~= s@.subrange(0, end - 1));
        }
        end = end - 1;
    }
    proof {
        let t = s@.subrange(0, end as int);
        if end == 0 {
            assert(t =~= Seq::<char>::empty());
        }
        assert(trim_end_spaces(t) == t);
    }
    String::from_str(s.substring_char(0, end))
}

/// Remove all trailing `/` characters from `s`.
pub fn trim_end_slashes_str(s: &str) -> (r: String)
    ensures
        r@ == trim_end_slashes(s@),
{
    let len = s.unicode_len();
    let mut end = len;
    proof {
        assert(s@.subrange(0, len as int) =~= s@);
    }
    while end > 0 && s.get_char(end - 1) == '/'
        invariant
            end <= len,
            len == s@.len(),
            trim_end_slashes(s@) == trim_end_slashes(s@.subrange(0, end as int)),
        decreases end,
    {
        proof {
            let t = s@.subrange(0, end as int);
            assert(t.last() == s@[end - 1]);
            assert(t.drop_last() =~= s@.subrange(0, end - 1));
        }
        end = end - 1;
    }
    proof {
        let t = s@.subrange(0, end as int);
        if end == 0 {
            assert(t =~= Seq::<char>::empty());
        }
        assert(trim_end_slashes(t) == t);
    }
    String::from_str(s.substring_char(0, end))
}

/// The concatenation of two string slices.
pub fn str_concat(a: &str, b: &str) -> (r: String)
    ensures
        r@ == a@ + b@,
{
    let mut s = String::from_str(a);
    s.append(b);
    s
}

/// The eight characters of `s` starting at `i` spell "conflict", each letter
/// in either case.
pub open spec fn conflict_at(s: Seq<char>, i: int) -> bool {
    &&& (s[i] == 'c' || s[i] == 'C')
    &&& (s[i + 1] == 'o' || s[i + 1] == 'O')
    &&& (s[i + 2] == 'n' || s[i + 2] == 'N')
    &&& (s[i + 3] == 'f' || s[i + 3] == 'F')
    &&& (s[i + 4] == 'l' || s[i + 4] == 'L')
    &&& (s[i + 5] == 'i' || s[i + 5] == 'I')
    &&& (s[i + 6] == 'c' || s[i + 6] == 'C')
    &&& (s[i + 7] == 't' || s[i + 7] == 'T')
}

/// `s` contains the substring "conflict", compared case-insensitively.
pub open spec fn has_conflict_marker(s: Seq<char>) -> bool {
    exists|i: int| 0 <= i && i + 8 <= s.len() && conflict_at(s, i)
}

/// Case-insensitive search for the substring "conflict".
pub fn find_conflict_marker(s: &str) -> (r: bool)
    ensures
        r == has_conflict_marker(s@),
{
    let len = s.unicode_len();
    if len < 8 {
        return false;
    }
    let mut i: usize = 0;
    while i <= len - 8
        invariant
            8 <= len,
            len == s@.len(),
            i <= len - 7,
            forall|j: int| 0 <= j < i ==> !conflict_at(s@, j),
        decreases len - i,
    {
        let c0 = s.get_char(i);
        let c1 = s.get_char(i + 1);
        let c2 = s.get_char(i + 2);
        let c3 = s.get_char(i + 3);
        let c4 = s.get_char(i + 4);
        let c5 = s.get_char(i + 5);
        let c6 = s.get_char(i + 6);
        let c7 = s.get_char(i + 7);
        if (c0 == 'c' || c0 == 'C') && (c1 == 'o' || c1 == 'O') && (c2 == 'n' || c2 == 'N') && (c3
            == 'f' || c3 == 'F') && (c4 == 'l' || c4 == 'L') && (c5 == 'i' || c5 == 'I') && (c6
            == 'c' || c6 == 'C') && (c7 == 't' || c7 == 'T') {
            assert(conflict_at(s@, i as int));
            return true;
        }
        i = i + 1;
    }
    assert(forall|j: int| 0 <= j && j + 8 <= s@.len() ==> !conflict_at(s@, j));
    false
}

/// The decimal digit character for `d`.
pub open spec fn dec_digit(d: int) -> char {
    if d == 0 {
        '0'
    } else if d == 1 {
        '1'
    } else if d == 2 {
        '2'
    } else if d == 3 {
        '3'
    } else if d == 4 {
        '4'
    } else if d == 5 {
        '5'
    } else if d == 6 {
        '6'
    } else if d == 7 {
        '7'
    } else if d == 8 {
        '8'
    } else {
        '9'
    }
}

/// The decimal rendering of a non-negative integer.
pub open spec fn dec_nat(n: int) -> Seq<char>
    decreases n,
{
    if n < 10 {
        seq![dec_digit(n)]
    } else {
        dec_nat(n / 10).push(dec_digit(n % 10))
    }
}

/// The decimal rendering of an integer, with a leading minus sign when
/// negative.
pub open spec fn dec_int(n: int) -> Seq<char> {
    if n < 0 {
        seq!['-'] + dec_nat(-n)
    } else {
        dec_nat(n)
    }
}

fn digit_str(d: u64) -> (r: &'static str)
    requires
        d < 10,
    ensures
        r@ == seq![dec_digit(d as int)],
{
    proof {
        reveal_strlit("0");
        reveal_strlit("1");
        reveal_strlit("2");
        reveal_strlit("3");
        reveal_strlit("4");
        reveal_strlit("5");
        reveal_strlit("6");
        reveal_strlit("7");
        reveal_strlit("8");
        reveal_strlit("9");
    }
    let r: &'static str = if d == 0 {
        "0"
    } else if d == 1 {
        "1"
    } else if d == 2 {
        "2"
    } else if d == 3 {
        "3"
    } else if d == 4 {
        "4"
    } else if d == 5 {
        "5"
    } else if d == 6 {
        "6"
    } else if d == 7 {
        "7"
    } else if d == 8 {
        "8"
    } else {
        "9"
    };
    proof {
        assert(r@ =~= seq![dec_digit(d as int)]);
    }
    r
}

/// Render `n` in decimal.
pub fn u64_decimal(n: u64) -> (r: String)
    ensures
        r@ == dec_nat(n as int),
    decreases n,
{
    if n < 10 {
        String::from_str(digit_str(n))
    } else {
        let mut s = u64_decimal(n / 10);
        s.append(digit_str(n % 10));
        proof {
            assert(s@ =~= dec_nat(n as int));
        }
        s
    }
}

/// Render `n` in decimal, with a leading minus sign when negative.
pub fn i32_decimal(n: i32) -> (r: String)
    ensures
        r@ == dec_int(n as int),
{
    if n >= 0 {
        u64_decimal(n as u64)
    } else {
        let wide: i64 = n as i64;
        let mag: u64 = (-wide) as u64;
        let mut s = String::from_str("-");
        let digits = u64_decimal(mag);
        s.append(digits.as_str());
        proof {
            reveal_strlit("-");
            assert("-"@ =~= seq!['-']);
            assert(s@ =~= dec_int(n as int));
        }
        s
    }
}

} // verus!
