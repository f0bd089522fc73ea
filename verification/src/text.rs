//! Character-level text helpers: scanning for characters of a class,
//! trimming, prefix and suffix tests, and building strings.
//!
//! Every operation is specified over the `Seq<char>` view of the string it
//! works on; the rest of the library states its contracts in terms of the
//! spec functions defined here.

use vstd::prelude::*;

verus! {

/// Whitespace as this library understands it: the ASCII blanks that can pad
/// a command or a line of an artifact.
pub open spec fn is_space_char(c: char) -> bool {
    c == ' ' || c == '\t' || c == '\r' || c == '\n'
}

/// A class of characters that the scanning helpers can look for.
#[derive(Clone, Copy, PartialEq, Eq, Structural)]
pub enum CharClass {
    /// The whitespace characters of `is_space_char`.
    Space,
    /// The two path separators, `/` and `\`.
    Sep,
    /// Exactly the given character.
    Just(char),
}

/// Whether `c` belongs to the class `cls`.
pub open spec fn in_class(cls: CharClass, c: char) -> bool {
    match cls {
        CharClass::Space => is_space_char(c),
        CharClass::Sep => c == '/' || c == '\\',
        CharClass::Just(d) => c == d,
    }
}

/// The first index `i >= from` with `in_class(cls, s[i]) == want`,
/// or `s.len()` when there is none.
pub open spec fn first_match(s: Seq<char>, cls: CharClass, want: bool, from: int) -> int
    decreases s.len() - from
    when 0 <= from <= s.len()
{
    if from >= s.len() {
        s.len() as int
    } else if in_class(cls, s[from]) == want {
        from
    } else {
        first_match(s, cls, want, from + 1)
    }
}

/// The last index `i < hi` with `in_class(cls, s[i]) == want`,
/// or `-1` when there is none.
pub open spec fn last_before(s: Seq<char>, cls: CharClass, want: bool, hi: int) -> int
    decreases hi
    when 0 <= hi <= s.len()
{
    if hi <= 0 {
        -1
    } else if in_class(cls, s[hi - 1]) == want {
        hi - 1
    } else {
        last_before(s, cls, want, hi - 1)
    }
}

pub proof fn lemma_first_match_props(s: Seq<char>, cls: CharClass, want: bool, from: int)
    requires
        0 <= from <= s.len(),
    ensures
        from <= first_match(s, cls, want, from) <= s.len(),
        first_match(s, cls, want, from) < s.len() ==> in_class(
            cls,
            s[first_match(s, cls, want, from)],
        ) == want,
        forall|k: int|
            from <= k < first_match(s, cls, want, from) ==> in_class(cls, s[k]) != want,
    decreases s.len() - from,
{
    if from < s.len() && in_class(cls, s[from]) != want {
        lemma_first_match_props(s, cls, want, from + 1);
    }
}

pub proof fn lemma_first_match_is(s: Seq<char>, cls: CharClass, want: bool, from: int, r: int)
    requires
        0 <= from <= r <= s.len(),
        forall|k: int| from <= k < r ==> in_class(cls, s[k]) != want,
        r < s.len() ==> in_class(cls, s[r]) == want,
    ensures
        first_match(s, cls, want, from) == r,
    decreases r - from,
{
    if from < r {
        lemma_first_match_is(s, cls, want, from + 1, r);
    }
}

pub proof fn lemma_last_before_props(s: Seq<char>, cls: CharClass, want: bool, hi: int)
    requires
        0 <= hi <= s.len(),
    ensures
        -1 <= last_before(s, cls, want, hi) < hi,
        last_before(s, cls, want, hi) >= 0 ==> in_class(
            cls,
            s[last_before(s, cls, want, hi)],
        ) == want,
        forall|k: int| last_before(s, cls, want, hi) < k < hi ==> in_class(cls, s[k]) != want,
    decreases hi,
{
    if hi > 0 && in_class(cls, s[hi - 1]) != want {
        lemma_last_before_props(s, cls, want, hi - 1);
    }
}

pub proof fn lemma_last_before_is(s: Seq<char>, cls: CharClass, want: bool, hi: int, r: int)
    requires
        0 <= hi <= s.len(),
        -1 <= r < hi,
        forall|k: int| r < k < hi ==> in_class(cls, s[k]) != want,
        r >= 0 ==> in_class(cls, s[r]) == want,
    ensures
        last_before(s, cls, want, hi) == r,
    decreases hi,
{
    if r < hi - 1 {
        lemma_last_before_is(s, cls, want, hi - 1, r);
    }
}

/// `s` without its leading and trailing whitespace.
pub open spec fn trim_spec(s: Seq<char>) -> Seq<char> {
    let a = first_match(s, CharClass::Space, false, 0);
    if a == s.len() {
        Seq::empty()
    } else {
        s.subrange(a, last_before(s, CharClass::Space, false, s.len() as int) + 1)
    }
}

/// A string that neither starts nor ends with whitespace is its own trim.
pub proof fn lemma_trim_id(s: Seq<char>)
    requires
        s.len() > 0,
        !is_space_char(s[0]),
        !is_space_char(s[s.len() - 1]),
    ensures
        trim_spec(s) == s,
{
    lemma_first_match_is(s, CharClass::Space, false, 0, 0);
    lemma_last_before_is(s, CharClass::Space, false, s.len() as int, s.len() - 1);
    assert(trim_spec(s) =~= s);
}

/// A non-empty string equal to its own trim starts and ends with
/// non-whitespace.
pub proof fn lemma_trim_ends(s: Seq<char>)
    requires
        trim_spec(s) == s,
        s.len() > 0,
    ensures
        !is_space_char(s[0]),
        !is_space_char(s[s.len() - 1]),
{
    let a = first_match(s, CharClass::Space, false, 0);
    let b = last_before(s, CharClass::Space, false, s.len() as int);
    lemma_first_match_props(s, CharClass::Space, false, 0);
    lemma_last_before_props(s, CharClass::Space, false, s.len() as int);
    assert(a != s.len()) by {
        if a == s.len() {
            assert(trim_spec(s).len() == 0);
        }
    }
    assert(s.subrange(a, b + 1).len() == s.len());
}

/// A non-empty trim result starts and ends with non-whitespace.
pub proof fn lemma_trim_result_ends(s: Seq<char>)
    requires
        trim_spec(s).len() > 0,
    ensures
        !is_space_char(trim_spec(s)[0]),
        !is_space_char(trim_spec(s)[trim_spec(s).len() - 1]),
{
    let a = first_match(s, CharClass::Space, false, 0);
    let b = last_before(s, CharClass::Space, false, s.len() as int);
    lemma_first_match_props(s, CharClass::Space, false, 0);
    lemma_last_before_props(s, CharClass::Space, false, s.len() as int);
    assert(a < s.len());
    assert(b >= a) by {
        if b < a {
            assert(in_class(CharClass::Space, s[a]));
        }
    }
    assert(trim_spec(s)[0] == s[a]);
    assert(trim_spec(s)[trim_spec(s).len() - 1] == s[b]);
}

/// `p` is a prefix of `s`.
pub open spec fn starts_with_spec(s: Seq<char>, p: Seq<char>) -> bool {
    p.len() <= s.len() && s.subrange(0, p.len() as int) == p
}

/// `p` is a suffix of `s`.
pub open spec fn ends_with_spec(s: Seq<char>, p: Seq<char>) -> bool {
    p.len() <= s.len() && s.subrange(s.len() - p.len(), s.len() as int) == p
}

/// The views of an optional string slice.
pub open spec fn opt_view(o: Option<&str>) -> Option<Seq<char>> {
    match o {
        Some(s) => Some(s@),
        None => None,
    }
}

/// The decimal digit `d` as a character, for `0 <= d <= 9`.
pub open spec fn digit_char(d: int) -> char {
    if d == 0 {
        '0'
    } else if d == 1 {
        '1'
    } else if d == 2 {
        '2'
    } else if d == 3 {
        '3'
    } else if d == 4 {
        '4'
    } else if d == 5 {
        '5'
    } else if d == 6 {
        '6'
    } else if d == 7 {
        '7'
    } else if d == 8 {
        '8'
    } else {
        '9'
    }
}

/// The decimal rendering of `n`, without leading zeros, for `0 <= n < 1000`.
pub open spec fn dec_str(n: int) -> Seq<char> {
    if n < 10 {
        seq![digit_char(n)]
    } else if n < 100 {
        seq![digit_char(n / 10), digit_char(n % 10)]
    } else {
        seq![digit_char(n / 100), digit_char((n / 10) % 10), digit_char(n % 10)]
    }
}

/// Whether `c` belongs to the class `cls`, executably.
pub fn class_matches(cls: CharClass, c: char) -> (b: bool)
    ensures
        b == in_class(cls, c),
{
    match cls {
        CharClass::Space => c == ' ' || c == '\t' || c == '\r' || c == '\n',
        CharClass::Sep => c == '/' || c == '\\',
        CharClass::Just(d) => c == d,
    }
}

/// Scan `s` forward from `from` for the first character whose membership in
/// `cls` equals `want`.
pub fn find_in(s: &str, cls: CharClass, want: bool, from: usize) -> (r: usize)
    requires
        from <= s@.len(),
    ensures
        r == first_match(s@, cls, want, from as int),
        from <= r <= s@.len(),
{
    let n = s.unicode_len();
    let mut i = from;
    while i < n
        invariant
            from <= i <= n,
            n == s@.len(),
            forall|k: int| from <= k < i ==> in_class(cls, s@[k]) != want,
        decreases n - i,
    {
        if class_matches(cls, s.get_char(i)) == want {
            proof {
                lemma_first_match_is(s@, cls, want, from as int, i as int);
            }
            return i;
        }
        i = i + 1;
    }
    proof {
        lemma_first_match_is(s@, cls, want, from as int, n as int);
    }
    n
}

/// Scan `s` backward from just below `hi` for the last character whose
/// membership in `cls` equals `want`.
pub fn rfind_in(s: &str, cls: CharClass, want: bool, hi: usize) -> (r: Option<usize>)
    requires
        hi <= s@.len(),
    ensures
        match r {
            Some(i) => i == last_before(s@, cls, want, hi as int) && i < hi,
            None => last_before(s@, cls, want, hi as int) == -1,
        },
{
    let mut i = hi;
    while i > 0
        invariant
            i <= hi <= s@.len(),
            forall|k: int| i <= k < hi ==> in_class(cls, s@[k]) != want,
        decreases i,
    {
        i = i - 1;
        if class_matches(cls, s.get_char(i)) == want {
            proof {
                lemma_last_before_is(s@, cls, want, hi as int, i as int);
            }
            return Some(i);
        }
    }
    proof {
        lemma_last_before_is(s@, cls, want, hi as int, -1);
    }
    None
}

/// `s` without its leading and trailing whitespace.
pub fn trim_of(s: &str) -> (r: &str)
    ensures
        r@ == trim_spec(s@),
{
    let n = s.unicode_len();
    let a = find_in(s, CharClass::Space, false, 0);
    if a == n {
        let empty = s.substring_char(0, 0);
        proof {
            assert(empty@ =~= trim_spec(s@));
        }
        empty
    } else {
        let b = match rfind_in(s, CharClass::Space, false, n) {
            Some(b) => b,
            None => {
                proof {
                    lemma_first_match_props(s@, CharClass::Space, false, 0);
                    lemma_last_before_props(s@, CharClass::Space, false, s@.len() as int);
                    assert(false);
                }
                0
            },
        };
        proof {
            lemma_first_match_props(s@, CharClass::Space, false, 0);
            lemma_last_before_props(s@, CharClass::Space, false, s@.len() as int);
        }
        s.substring_char(a, b + 1)
    }
}

/// Whether `p` is a prefix of `s`.
pub fn starts_with_str(s: &str, p: &str) -> (b: bool)
    ensures
        b == starts_with_spec(s@, p@),
{
    let n = s.unicode_len();
    let m = p.unicode_len();
    if m > n {
        return false;
    }
    let mut i: usize = 0;
    while i < m
        invariant
            0 <= i <= m,
            m == p@.len() <= s@.len(),
            forall|k: int| 0 <= k < i ==> s@[k] == p@[k],
        decreases m - i,
    {
        if s.get_char(i) != p.get_char(i) {
            proof {
                assert(s@.subrange(0, p@.len() as int)[i as int] != p@[i as int]);
            }
            return false;
        }
        i = i + 1;
    }
    proof {
        assert(s@.subrange(0, p@.len() as int) =~= p@);
    }
    true
}

/// Whether `p` is a suffix of `s`.
pub fn ends_with_str(s: &str, p: &str) -> (b: bool)
    ensures
        b == ends_with_spec(s@, p@),
{
    let n = s.unicode_len();
    let m = p.unicode_len();
    if m > n {
        return false;
    }
    let tail = s.substring_char(n - m, n);
    let r = starts_with_str(tail, p);
    proof {
        if r {
            assert(tail@.subrange(0, p@.len() as int) =~= tail@);
        } else {
            if ends_with_spec(s@, p@) {
                assert(tail@.subrange(0, p@.len() as int) =~= p@);
            }
        }
    }
    r
}

/// Relies on `String::push`: appends the given character to the end of the
/// string.
#[verifier::external_body]
pub fn push_char(s: &mut String, c: char)
    ensures
        final(s)@ == old(s)@.push(c),
{
    s.push(c);
}

/// The character of the decimal digit `d`.
pub fn digit_to_char(d: u32) -> (c: char)
    requires
        d < 10,
    ensures
        c == digit_char(d as int),
{
    match d {
        0 => '0',
        1 => '1',
        2 => '2',
        3 => '3',
        4 => '4',
        5 => '5',
        6 => '6',
        7 => '7',
        8 => '8',
        _ => '9',
    }
}

/// Append the decimal rendering of `n` to `s`.
pub fn push_dec(s: &mut String, n: u32)
    requires
        n < 1000,
    ensures
        final(s)@ == old(s)@ + dec_str(n as int),
{
    if n < 10 {
        push_char(s, digit_to_char(n));
        proof {
            assert(s@ =~= old(s)@ + dec_str(n as int));
        }
    } else if n < 100 {
        push_char(s, digit_to_char(n / 10));
        push_char(s, digit_to_char(n % 10));
        proof {
            assert(s@ =~= old(s)@ + dec_str(n as int));
        }
    } else {
        push_char(s, digit_to_char(n / 100));
        push_char(s, digit_to_char((n / 10) % 10));
        push_char(s, digit_to_char(n % 10));
        proof {
            assert(s@ =~= old(s)@ + dec_str(n as int));
        }
    }
}

} // verus!
