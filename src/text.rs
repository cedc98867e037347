//! Character-level helpers for the positional, comma-delimited wire format.
use vstd::prelude::*;
use vstd::string::*;

verus! {

/// `sep` occurs in `s` starting at position `i`.
pub open spec fn occurs_at(s: Seq<char>, sep: Seq<char>, i: int) -> bool {
    0 <= i && i + sep.len() <= s.len() && s.subrange(i, i + sep.len()) == sep
}

/// `i` is the leftmost position at which `sep` occurs in `s`.
pub open spec fn is_first_occurrence(s: Seq<char>, sep: Seq<char>, i: int) -> bool {
    occurs_at(s, sep, i) && forall|j: int| 0 <= j < i ==> !occurs_at(s, sep, j)
}

/// Splits `s` around the leftmost occurrence of `sep`; `None` when `sep` does not occur.
pub open spec fn split_first(s: Seq<char>, sep: Seq<char>) -> Option<(Seq<char>, Seq<char>)> {
    if exists|i: int| is_first_occurrence(s, sep, i) {
        let i = choose|i: int| is_first_occurrence(s, sep, i);
        Some((s.take(i), s.skip(i + sep.len())))
    } else {
        None
    }
}

pub proof fn lemma_first_occurrence_unique(s: Seq<char>, sep: Seq<char>, i: int, k: int)
    requires
        is_first_occurrence(s, sep, i),
        is_first_occurrence(s, sep, k),
    ensures
        i == k,
{
    if i < k {
        assert(!occurs_at(s, sep, i));
    } else if k < i {
        assert(!occurs_at(s, sep, k));
    }
}

/// Whether `sep` occurs in `s` at position `i`.
fn matches_at(s: &str, sep: &str, i: usize) -> (r: bool)
    requires
        i + sep@.len() <= s@.len() <= usize::MAX,
    ensures
        r == occurs_at(s@, sep@, i as int),
{
    let m = sep.unicode_len();
    let mut k: usize = 0;
    while k < m
        invariant
            m == sep@.len(),
            i + m <= s@.len() <= usize::MAX,
            0 <= k <= m,
            forall|j: int| 0 <= j < k ==> s@[i + j] == sep@[j],
        decreases m - k,
    {
        if s.get_char(i + k) != sep.get_char(k) {
            assert(s@.subrange(i as int, i + m)[k as int] != sep@[k as int]);
            return false;
        }
        k = k + 1;
    }
    assert(s@.subrange(i as int, i + m) =~= sep@);
    true
}

/// The leftmost position of `sep` in `s`, if any.
pub fn find(s: &str, sep: &str) -> (r: Option<usize>)
    ensures
        match r {
            Some(i) => is_first_occurrence(s@, sep@, i as int),
            None => forall|j: int| !occurs_at(s@, sep@, j),
        },
{
    let n = s.unicode_len();
    let m = sep.unicode_len();
    if m > n {
        return None;
    }
    if m == 0 {
        assert(s@.subrange(0, 0) =~= sep@);
        return Some(0);
    }
    let mut i: usize = 0;
    while i <= n - m
        invariant
            n == s@.len(),
            m == sep@.len(),
            0 < m <= n,
            i <= n - m + 1,
            n <= usize::MAX,
            forall|j: int| 0 <= j < i ==> !occurs_at(s@, sep@, j),
        decreases n + 1 - i,
    {
        if matches_at(s, sep, i) {
            return Some(i);
        }
        i = i + 1;
    }
    None
}

/// Splits `s` around the leftmost occurrence of `sep`, as `str::split_once` does.
pub fn split_once<'a>(s: &'a str, sep: &str) -> (r: Option<(&'a str, &'a str)>)
    ensures
        match r {
            Some((a, b)) => split_first(s@, sep@) == Some((a@, b@)),
            None => split_first(s@, sep@) is None,
        },
{
    match find(s, sep) {
        Some(i) => {
            proof {
                let k = choose|k: int| is_first_occurrence(s@, sep@, k);
                lemma_first_occurrence_unique(s@, sep@, i as int, k);
            }
            let n = s.unicode_len();
            let m = sep.unicode_len();
            let a = s.substring_char(0, i);
            let b = s.substring_char(i + m, n);
            assert(a@ =~= s@.take(i as int));
            assert(b@ =~= s@.skip(i + m));
            Some((a, b))
        },
        None => None,
    }
}

/// Whether two strings hold the same characters.
pub fn same_text(a: &str, b: &str) -> (r: bool)
    ensures
        r == (a@ == b@),
{
    let n = a.unicode_len();
    if n != b.unicode_len() {
        return false;
    }
    let mut i: usize = 0;
    while i < n
        invariant
            n == a@.len(),
            n == b@.len(),
            0 <= i <= n,
            forall|j: int| 0 <= j < i ==> a@[j] == b@[j],
        decreases n - i,
    {
        if a.get_char(i) != b.get_char(i) {
            return false;
        }
        i = i + 1;
    }
    assert(a@ =~= b@);
    true
}

/// Value of a run of decimal digits.
pub open spec fn digits_value(s: Seq<char>) -> int
    decreases s.len(),
{
    if s.len() == 0 {
        0
    } else {
        digits_value(s.drop_last()) * 10 + (s.last() as int - '0' as int)
    }
}

pub open spec fn all_digits(s: Seq<char>) -> bool {
    forall|i: int| 0 <= i < s.len() ==> '0' <= #[trigger] s[i] <= '9'
}

/// What `str::parse::<u8>` accepts: an optional `+`, then one or more ASCII
/// digits whose value fits in a byte.
pub open spec fn parse_u8_spec(s: Seq<char>) -> Option<u8> {
    let d = if s.len() > 0 && s[0] == '+' { s.skip(1) } else { s };
    if d.len() > 0 && all_digits(d) && digits_value(d) <= 255 {
        Some(digits_value(d) as u8)
    } else {
        None
    }
}

/// A flag field: any byte value, zero meaning false.
pub open spec fn parse_flag_spec(s: Seq<char>) -> Option<bool> {
    match parse_u8_spec(s) {
        Some(v) => Some(v != 0),
        None => None,
    }
}

/// Relies on `str::parse::<u8>` (`u8::from_str`): an optional `+` followed by
/// ASCII digits whose value is at most 255; anything else is an error.
#[verifier::external_body]
fn parse_u8(s: &str) -> (r: Option<u8>)
    ensures
        r == parse_u8_spec(s@),
{
    s.parse::<u8>().ok()
}

/// Reads a flag field: `0` is false, any other byte value true.
pub fn parse_flag(s: &str) -> (r: Option<bool>)
    ensures
        r == parse_flag_spec(s@),
{
    match parse_u8(s) {
        Some(v) => Some(v != 0),
        None => None,
    }
}

} // verus!
