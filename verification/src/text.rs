//! Character-level text predicates used by the parser choice, the log
//! whitelist and the update logic, and the two string operations of std
//! the library relies on.
use vstd::prelude::*;
use vstd::string::*;

verus! {

/// `needle` occurs in `text` starting at position `i`.
pub open spec fn occurs_at(text: Seq<char>, needle: Seq<char>, i: int) -> bool {
    0 <= i && i + needle.len() <= text.len() && text.subrange(i, i + needle.len()) == needle
}

/// `needle` occurs somewhere in `text`.
pub open spec fn text_contains(text: Seq<char>, needle: Seq<char>) -> bool {
    exists|i: int| occurs_at(text, needle, i)
}

/// `text` begins with `prefix`.
pub open spec fn text_starts_with(text: Seq<char>, prefix: Seq<char>) -> bool {
    prefix.len() <= text.len() && text.subrange(0, prefix.len() as int) == prefix
}

/// `text` ends with `suffix`.
pub open spec fn text_ends_with(text: Seq<char>, suffix: Seq<char>) -> bool {
    suffix.len() <= text.len() && text.subrange(text.len() - suffix.len(), text.len() as int)
        == suffix
}

/// The characters of a string slice.
pub fn chars_of(s: &str) -> (v: Vec<char>)
    ensures
        v@ == s@,
{
    let n = s.unicode_len();
    let mut v: Vec<char> = Vec::new();
    let mut i: usize = 0;
    while i < n
        invariant
            n == s@.len(),
            i <= n,
            v@ == s@.subrange(0, i as int),
        decreases n - i,
    {
        v.push(s.get_char(i));
        i = i + 1;
        assert(v@ =~= s@.subrange(0, i as int));
    }
    assert(v@ =~= s@);
    v
}

/// Whether `needle` occurs in `text` at position `i`.
pub fn matches_at(text: &Vec<char>, needle: &Vec<char>, i: usize) -> (b: bool)
    ensures
        b == occurs_at(text@, needle@, i as int),
{
    if i > text.len() || needle.len() > text.len() - i {
        return false;
    }
    let mut j: usize = 0;
    while j < needle.len()
        invariant
            i + needle@.len() <= text@.len(),
            text@.len() == text.len(),
            needle@.len() == needle.len(),
            j <= needle@.len(),
            forall|k: int| 0 <= k < j ==> text@[i + k] == needle@[k],
        decreases needle@.len() - j,
    {
        if text[i + j] != needle[j] {
            assert(text@.subrange(i as int, i + needle@.len())[j as int] != needle@[j as int]);
            return false;
        }
        j = j + 1;
    }
    assert(text@.subrange(i as int, i + needle@.len()) =~= needle@);
    true
}

/// Whether `needle` occurs anywhere in `text`.
pub fn contains_chars(text: &Vec<char>, needle: &Vec<char>) -> (b: bool)
    ensures
        b == text_contains(text@, needle@),
{
    if needle.len() > text.len() {
        assert forall|i: int| !occurs_at(text@, needle@, i) by {}
        return false;
    }
    let last = text.len() - needle.len();
    let mut i: usize = 0;
    loop
        invariant
            i <= last,
            last == text@.len() - needle@.len(),
            forall|k: int| 0 <= k < i ==> !occurs_at(text@, needle@, k),
        ensures
            forall|k: int| 0 <= k <= last ==> !occurs_at(text@, needle@, k),
        decreases last - i,
    {
        if matches_at(text, needle, i) {
            return true;
        }
        if i == last {
            break;
        }
        i = i + 1;
    }
    assert forall|k: int| !occurs_at(text@, needle@, k) by {
        if 0 <= k && k <= last {
        }
    }
    false
}

/// Whether the string `needle` occurs in the characters `text`.
pub fn contains_str(text: &Vec<char>, needle: &str) -> (b: bool)
    ensures
        b == text_contains(text@, needle@),
{
    let n = chars_of(needle);
    contains_chars(text, &n)
}

/// Whether `text` begins with `prefix`.
pub fn starts_with_chars(text: &Vec<char>, prefix: &Vec<char>) -> (b: bool)
    ensures
        b == text_starts_with(text@, prefix@),
{
    matches_at(text, prefix, 0)
}

/// Whether `text` ends with `suffix`.
pub fn ends_with_chars(text: &Vec<char>, suffix: &Vec<char>) -> (b: bool)
    ensures
        b == text_ends_with(text@, suffix@),
{
    if suffix.len() > text.len() {
        return false;
    }
    matches_at(text, suffix, text.len() - suffix.len())
}

/// Whether two character sequences are equal.
pub fn chars_equal(a: &Vec<char>, b: &Vec<char>) -> (r: bool)
    ensures
        r == (a@ == b@),
{
    if a.len() != b.len() {
        return false;
    }
    let r = matches_at(a, b, 0);
    assert(a@.subrange(0, b@.len() as int) =~= a@);
    r
}

/// The lower-case form of `text` that `str::to_lowercase` returns.
pub uninterp spec fn lowercase(text: Seq<char>) -> Seq<char>;

/// Calls `str::to_lowercase`. Trusted: its result is the one `lowercase`
/// names for the characters of `text` (the Unicode lower-case mapping,
/// which depends on the text alone).
#[verifier::external_body]
pub(crate) fn to_lowercase(text: &str) -> (r: String)
    ensures
        r@ == lowercase(text@),
{
    text.to_lowercase()
}

/// Calls `String::push`. Trusted: the character is appended to the string.
#[verifier::external_body]
pub(crate) fn push_char(s: &mut String, c: char)
    ensures
        final(s)@ == old(s)@.push(c),
{
    s.push(c)
}

} // verus!
