//! Verified text utilities: equality, substring search, and decimal rendering.

use vstd::prelude::*;
use vstd::string::StrSliceExecFns;
use vstd::string::StringExecFns;
use crate::outside::chars_to_string;

verus! {

/// Character-wise string equality.
pub fn str_eq(a: &str, b: &str) -> (r: bool)
    ensures
        r == (a@ == b@),
{
    let an = a.unicode_len();
    let bn = b.unicode_len();
    if an != bn {
        proof {
            assert(a@ != b@);
        }
        return false;
    }
    let mut i: usize = 0;
    while i < an
        invariant
            an == a@.len(),
            an == b@.len(),
            0 <= i <= an,
            forall|j: int| 0 <= j < i ==> a@[j] == b@[j],
        decreases an - i,
    {
        if a.get_char(i) != b.get_char(i) {
            proof {
                assert(a@[i as int] != b@[i as int]);
            }
            return false;
        }
        i = i + 1;
    }
    proof {
        assert(a@ =~= b@);
    }
    true
}

/// Copy a string into a vector of its characters.
pub fn chars_of(s: &str) -> (r: Vec<char>)
    ensures
        r@ == s@,
{
    let n = s.unicode_len();
    let mut r: Vec<char> = Vec::new();
    let mut i: usize = 0;
    while i < n
        invariant
            n == s@.len(),
            0 <= i <= n,
            r@ =~= s@.subrange(0, i as int),
        decreases n - i,
    {
        r.push(s.get_char(i));
        proof {
            assert(r@ =~= s@.subrange(0, i + 1));
        }
        i = i + 1;
    }
    proof {
        assert(s@.subrange(0, n as int) =~= s@);
    }
    r
}

/// Copy `text[a..b]` into a vector.
pub fn slice_range(text: &[char], a: usize, b: usize) -> (r: Vec<char>)
    requires
        a <= b <= text@.len(),
    ensures
        r@ == text@.subrange(a as int, b as int),
{
    let mut r: Vec<char> = Vec::new();
    let mut j = a;
    while j < b
        invariant
            a <= j <= b <= text@.len(),
            r@ =~= text@.subrange(a as int, j as int),
        decreases b - j,
    {
        r.push(text[j]);
        proof {
            assert(r@ =~= text@.subrange(a as int, j + 1));
        }
        j = j + 1;
    }
    proof {
        assert(r@ =~= text@.subrange(a as int, b as int));
    }
    r
}

/// Whether `pat` occurs in `text` starting at position `at`.
pub open spec fn spec_match_at(text: Seq<char>, pat: Seq<char>, at: int) -> bool {
    &&& 0 <= at
    &&& at + pat.len() <= text.len()
    &&& text.subrange(at, at + pat.len()) == pat
}

/// Whether `pat` occurs anywhere in `text` at or after `from`.
pub open spec fn spec_contains_from(text: Seq<char>, pat: Seq<char>, from: int) -> bool {
    exists|at: int| at >= from && spec_match_at(text, pat, at)
}

/// Find the first occurrence of `pat` in `text` at or after position `from`
/// (positions measured in characters).
pub fn find_from(text: &[char], pat: &str, from: usize) -> (r: Option<usize>)
    ensures
        match r {
            Some(at) => {
                &&& from <= at
                &&& spec_match_at(text@, pat@, at as int)
                &&& forall|b: int| from <= b < at ==> !spec_match_at(text@, pat@, b)
            },
            None => !spec_contains_from(text@, pat@, from as int),
        },
{
    let n = text.len();
    let m = pat.unicode_len();
    if m > n || from > n - m {
        proof {
            assert forall|b: int| b >= from implies !spec_match_at(text@, pat@, b) by {}
        }
        return None;
    }
    let mut at = from;
    loop
        invariant
            n == text@.len(),
            m == pat@.len(),
            m <= n,
            from <= at <= n - m,
            forall|b: int| from <= b < at ==> !spec_match_at(text@, pat@, b),
        decreases n - m - at,
    {
        let mut j: usize = 0;
        let mut ok = true;
        while j < m
            invariant
                n == text@.len(),
                m == pat@.len(),
                at + m <= n,
                0 <= j <= m,
                ok ==> forall|k: int| 0 <= k < j ==> text@[at + k] == pat@[k],
                !ok ==> !spec_match_at(text@, pat@, at as int),
            decreases m - j,
        {
            if text[at + j] != pat.get_char(j) {
                proof {
                    if spec_match_at(text@, pat@, at as int) {
                        assert(text@.subrange(at as int, at + m)[j as int] == pat@[j as int]);
                    }
                }
                ok = false;
                j = m;
            } else {
                j = j + 1;
            }
        }
        if ok {
            proof {
                assert(text@.subrange(at as int, at + m) =~= pat@);
            }
            return Some(at);
        }
        if at == n - m {
            proof {
                assert forall|b: int| b >= from implies !spec_match_at(text@, pat@, b) by {
                    if from <= b <= at {
                    } else {
                        assert(b + m > n);
                    }
                }
            }
            return None;
        }
        at = at + 1;
    }
}

/// The first position at or after `from` where `pat` occurs in `text`.
pub open spec fn spec_find(text: Seq<char>, pat: Seq<char>, from: int) -> Option<int>
    decreases text.len() - from + 1,
{
    if from < 0 || from + pat.len() > text.len() {
        None
    } else if spec_match_at(text, pat, from) {
        Some(from)
    } else {
        spec_find(text, pat, from + 1)
    }
}

/// What `spec_find` returns: the first match, or nothing.
pub proof fn lemma_spec_find(text: Seq<char>, pat: Seq<char>, from: int)
    requires
        from >= 0,
    ensures
        match spec_find(text, pat, from) {
            Some(at) => from <= at && spec_match_at(text, pat, at) && forall|b: int|
                from <= b < at ==> !spec_match_at(text, pat, b),
            None => forall|b: int| b >= from ==> !spec_match_at(text, pat, b),
        },
    decreases text.len() - from + 1,
{
    if from + pat.len() > text.len() {
        assert forall|b: int| b >= from implies !spec_match_at(text, pat, b) by {
            assert(b + pat.len() > text.len());
        }
    } else if spec_match_at(text, pat, from) {
    } else {
        lemma_spec_find(text, pat, from + 1);
    }
}

/// The first position holding character `c`, at or after `from`.
pub open spec fn spec_find_char(s: Seq<char>, c: char, from: int) -> Option<int>
    decreases s.len() - from,
{
    if from < 0 || from >= s.len() {
        None
    } else if s[from] == c {
        Some(from)
    } else {
        spec_find_char(s, c, from + 1)
    }
}

/// The last position holding character `c`.
pub open spec fn spec_rfind_char(s: Seq<char>, c: char) -> Option<int>
    decreases s.len(),
{
    if s.len() == 0 {
        None
    } else if s.last() == c {
        Some(s.len() - 1)
    } else {
        spec_rfind_char(s.drop_last(), c)
    }
}

/// Find the first occurrence of character `c` at or after `from`.
pub fn find_char(text: &[char], c: char, from: usize) -> (r: Option<usize>)
    requires
        from <= text@.len(),
    ensures
        match r {
            Some(at) => spec_find_char(text@, c, from as int) == Some(at as int) && at
                < text@.len(),
            None => spec_find_char(text@, c, from as int) is None,
        },
{
    let n = text.len();
    let mut j = from;
    while j < n
        invariant
            from <= j <= n,
            n == text@.len(),
            spec_find_char(text@, c, from as int) == spec_find_char(text@, c, j as int),
        decreases n - j,
    {
        if text[j] == c {
            return Some(j);
        }
        j = j + 1;
    }
    None
}

/// Find the last occurrence of character `c`.
pub fn rfind_char(text: &[char], c: char) -> (r: Option<usize>)
    ensures
        match r {
            Some(at) => spec_rfind_char(text@, c) == Some(at as int) && at < text@.len(),
            None => spec_rfind_char(text@, c) is None,
        },
{
    let n = text.len();
    let mut j = n;
    proof {
        assert(text@.take(n as int) =~= text@);
    }
    while j > 0
        invariant
            0 <= j <= n,
            n == text@.len(),
            spec_rfind_char(text@, c) == spec_rfind_char(text@.take(j as int), c),
        decreases j,
    {
        j = j - 1;
        proof {
            assert(text@.take(j + 1).drop_last() =~= text@.take(j as int));
            assert(text@.take(j + 1).last() == text@[j as int]);
        }
        if text[j] == c {
            return Some(j);
        }
    }
    proof {
        assert(text@.take(0).len() == 0);
    }
    None
}

/// The decimal digit character for `d` (`0 <= d <= 9`).
pub open spec fn spec_digit_char(d: int) -> char {
    if d == 0 {
        '0'
    } else if d == 1 {
        '1'
    } else if d == 2 {
        '2'
    } else if d == 3 {
        '3'
    } else if d == 4 {
        '4'
    } else if d == 5 {
        '5'
    } else if d == 6 {
        '6'
    } else if d == 7 {
        '7'
    } else if d == 8 {
        '8'
    } else {
        '9'
    }
}

/// The digits of a positive integer, most significant first.
pub open spec fn spec_u64_digits(n: int) -> Seq<char>
    decreases n,
{
    if n <= 0 {
        Seq::empty()
    } else {
        spec_u64_digits(n / 10).push(spec_digit_char(n % 10))
    }
}

/// The decimal rendering of a non-negative integer.
pub open spec fn spec_u64_string(n: int) -> Seq<char> {
    if n <= 0 {
        seq!['0']
    } else {
        spec_u64_digits(n)
    }
}

/// The decimal rendering of a signed integer: a minus sign for negative
/// values, then the digits of the magnitude.
pub open spec fn spec_i64_string(n: int) -> Seq<char> {
    if n < 0 {
        seq!['-'] + spec_u64_string(-n)
    } else {
        spec_u64_string(n)
    }
}

fn digit_char(d: u64) -> (r: char)
    requires
        d <= 9,
    ensures
        r == spec_digit_char(d as int),
{
    if d == 0 {
        '0'
    } else if d == 1 {
        '1'
    } else if d == 2 {
        '2'
    } else if d == 3 {
        '3'
    } else if d == 4 {
        '4'
    } else if d == 5 {
        '5'
    } else if d == 6 {
        '6'
    } else if d == 7 {
        '7'
    } else if d == 8 {
        '8'
    } else {
        '9'
    }
}

/// Render a `u64` in decimal.
pub fn u64_to_string(n: u64) -> (r: String)
    ensures
        r@ == spec_u64_string(n as int),
{
    let mut rev: Vec<char> = Vec::new();
    if n == 0 {
        let out: Vec<char> = vec!['0'];
        proof {
            assert(out@ =~= spec_u64_string(0));
        }
        return chars_to_string(&out);
    }
    let mut rest = n;
    while rest > 0
        invariant
            0 <= rest <= n,
            spec_u64_digits(n as int) =~= spec_u64_digits(rest as int) + rev@.reverse(),
        decreases rest,
    {
        let ghost r0 = rest as int;
        let ghost prev = rev@;
        let d = rest % 10;
        rev.push(digit_char(d));
        rest = rest / 10;
        proof {
            assert(rev@.reverse() =~= seq![spec_digit_char(d as int)] + prev.reverse());
            assert(spec_u64_digits(r0) == spec_u64_digits(r0 / 10).push(
                spec_digit_char(r0 % 10),
            ));
            assert(spec_u64_digits(rest as int) + rev@.reverse() =~= spec_u64_digits(r0)
                + prev.reverse());
        }
    }
    proof {
        assert(spec_u64_digits(0) + rev@.reverse() =~= rev@.reverse());
    }
    let mut out: Vec<char> = Vec::new();
    let mut i = rev.len();
    while i > 0
        invariant
            i <= rev@.len(),
            out@ =~= rev@.subrange(i as int, rev@.len() as int).reverse(),
        decreases i,
    {
        let ghost prevout = out@;
        i = i - 1;
        out.push(rev[i]);
        proof {
            assert(rev@.subrange(i as int, rev@.len() as int).reverse() =~= prevout.push(
                rev@[i as int],
            ));
        }
    }
    proof {
        assert(out@ =~= rev@.reverse());
    }
    chars_to_string(&out)
}

/// Render an `i64` in decimal.
pub fn i64_to_string(n: i64) -> (r: String)
    ensures
        r@ == spec_i64_string(n as int),
{
    if n >= 0 {
        u64_to_string(n as u64)
    } else {
        let mag: u64 = if n == i64::MIN {
            9223372036854775808u64
        } else {
            (-n) as u64
        };
        let mut out = String::from_str("-");
        let digits = u64_to_string(mag);
        out.append(digits.as_str());
        proof {
            reveal_strlit("-");
            assert("-"@ =~= seq!['-']);
            assert(out@ =~= seq!['-'] + spec_u64_string(mag as int));
        }
        out
    }
}

} // verus!
