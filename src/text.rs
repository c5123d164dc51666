//! Character-level helpers shared by the SQL inspector and the protocol code.
use vstd::prelude::*;
use vstd::string::StrSliceExecFns;

verus! {

/// Unicode `White_Space`: what `char::is_whitespace`, `str::trim_start` and
/// the regex class `\s` treat as whitespace.
pub open spec fn is_space(c: char) -> bool {
    let u = c as u32;
    (9 <= u <= 13) || u == 32 || u == 0x85 || u == 0xa0 || u == 0x1680 || (0x2000 <= u <= 0x200a)
        || u == 0x2028 || u == 0x2029 || u == 0x202f || u == 0x205f || u == 0x3000
}

/// `c` equals the keyword character `k`, ignoring case. Keywords are ASCII
/// and case is folded for ASCII letters only: a non-ASCII letter whose
/// uppercase form is an ASCII letter (such as dotless `ı`) does not match.
pub open spec fn ci_eq(c: char, k: char) -> bool {
    c == k || (65 <= k as u32 <= 90 && c as u32 == k as u32 + 32)
}

/// The keyword `w` stands at position `i` of `s`, ignoring ASCII case.
pub open spec fn word_at(s: Seq<char>, i: int, w: Seq<char>) -> bool {
    0 <= i && i + w.len() <= s.len() && forall|j: int| 0 <= j < w.len() ==> ci_eq(s[i + j], w[j])
}

/// `w` occurs at position `i` of `s`, character for character.
pub open spec fn occurs_at(s: Seq<char>, i: int, w: Seq<char>) -> bool {
    0 <= i && i + w.len() <= s.len() && s.subrange(i, i + w.len()) == w
}

/// The first position at or after `i` that does not hold whitespace.
pub open spec fn skip_from(s: Seq<char>, i: int) -> int
    decreases s.len() - i,
{
    if i < 0 {
        skip_from(s, 0)
    } else if i >= s.len() {
        s.len() as int
    } else if is_space(s[i]) {
        skip_from(s, i + 1)
    } else {
        i
    }
}

pub fn is_space_char(c: char) -> (r: bool)
    ensures
        r == is_space(c),
{
    let u = c as u32;
    (9 <= u && u <= 13) || u == 32 || u == 0x85 || u == 0xa0 || u == 0x1680 || (0x2000 <= u && u
        <= 0x200a) || u == 0x2028 || u == 0x2029 || u == 0x202f || u == 0x205f || u == 0x3000
}

/// The characters of a string slice.
pub fn chars_of(s: &str) -> (r: Vec<char>)
    ensures
        r@ == s@,
{
    let n = s.unicode_len();
    let mut r: Vec<char> = Vec::new();
    let mut i: usize = 0;
    while i < n
        invariant
            n == s@.len(),
            i <= n,
            r@ == s@.subrange(0, i as int),
        decreases n - i,
    {
        let c = s.get_char(i);
        r.push(c);
        i = i + 1;
    }
    assert(r@ == s@);
    r
}

/// The literal characters of a string slice, turned into a vector.
pub fn keyword(s: &str) -> (r: Vec<char>)
    ensures
        r@ == s@,
{
    chars_of(s)
}

pub fn ci_eq_char(c: char, k: char) -> (r: bool)
    ensures
        r == ci_eq(c, k),
{
    c == k || (65 <= k as u32 && k as u32 <= 90 && c as u32 == k as u32 + 32)
}

/// Whether keyword `w` stands at position `i` of `s`, ignoring ASCII case.
pub fn word_at_exec(s: &Vec<char>, i: usize, w: &Vec<char>) -> (r: bool)
    ensures
        r == word_at(s@, i as int, w@),
{
    let n = s.len();
    if i > n || w.len() > n - i {
        return false;
    }
    let mut j: usize = 0;
    while j < w.len()
        invariant
            n == s@.len(),
            i + w@.len() <= n,
            j <= w@.len(),
            forall|k: int| 0 <= k < j ==> ci_eq(s@[i + k], w@[k]),
        decreases w@.len() - j,
    {
        if !ci_eq_char(s[i + j], w[j]) {
            return false;
        }
        j = j + 1;
    }
    true
}

/// Whether `w` occurs at position `i` of `s`, character for character.
pub fn occurs_at_exec(s: &Vec<char>, i: usize, w: &Vec<char>) -> (r: bool)
    ensures
        r == occurs_at(s@, i as int, w@),
{
    let n = s.len();
    if i > n || w.len() > n - i {
        return false;
    }
    let mut j: usize = 0;
    while j < w.len()
        invariant
            n == s@.len(),
            i + w@.len() <= n,
            j <= w@.len(),
            forall|k: int| 0 <= k < j ==> s@[i + k] == w@[k],
        decreases w@.len() - j,
    {
        if s[i + j] != w[j] {
            assert(s@.subrange(i as int, i + w@.len())[j as int] != w@[j as int]);
            return false;
        }
        j = j + 1;
    }
    assert(s@.subrange(i as int, i + w@.len()) =~= w@);
    true
}

/// Whether `w` occurs anywhere in `s`.
pub fn contains_exec(s: &Vec<char>, w: &Vec<char>) -> (r: bool)
    ensures
        r == exists|i: int| occurs_at(s@, i, w@),
{
    let n = s.len();
    let mut i: usize = 0;
    while i < n
        invariant
            n == s@.len(),
            i <= n,
            forall|k: int| 0 <= k < i ==> !occurs_at(s@, k, w@),
        decreases n - i,
    {
        if occurs_at_exec(s, i, w) {
            return true;
        }
        i = i + 1;
    }
    if occurs_at_exec(s, n, w) {
        return true;
    }
    assert forall|k: int| !occurs_at(s@, k, w@) by {
        if 0 <= k && k < i {
        }
    }
    false
}

/// The first position at or after `i` that does not hold whitespace.
pub fn skip_spaces(s: &Vec<char>, i: usize) -> (r: usize)
    requires
        i <= s@.len(),
    ensures
        r == skip_from(s@, i as int),
        i <= r <= s@.len(),
{
    let mut k: usize = i;
    while k < s.len() && is_space_char(s[k])
        invariant
            i <= k <= s@.len(),
            skip_from(s@, i as int) == skip_from(s@, k as int),
        decreases s@.len() - k,
    {
        k = k + 1;
    }
    k
}

/// Whether two strings hold the same characters.
pub fn same_text(a: &str, b: &str) -> (r: bool)
    ensures
        r == (a@ == b@),
{
    let x = chars_of(a);
    let y = chars_of(b);
    if x.len() != y.len() {
        assert(a@.len() != b@.len());
        return false;
    }
    let mut i: usize = 0;
    while i < x.len()
        invariant
            x@ == a@,
            y@ == b@,
            x@.len() == y@.len(),
            i <= x@.len(),
            forall|k: int| 0 <= k < i ==> x@[k] == y@[k],
        decreases x@.len() - i,
    {
        if x[i] != y[i] {
            assert(a@[i as int] != b@[i as int]);
            return false;
        }
        i = i + 1;
    }
    assert(x@ =~= y@);
    true
}

} // verus!
