//! Release versions in the `V.YY.DDMM.SV` scheme.
use crate::text::chars_of;
use vstd::prelude::*;
use vstd::string::*;

verus! {

/// The version of this build, in the `V.YY.DDMM.SV` scheme: major version,
/// year, day and month, sub-version of the day.
pub const VERSION: &'static str = "1.26.2103.02";

/// A release version. Versions compare field by field in declaration
/// order: major, year, day, month, patch.
#[derive(Debug, PartialEq, Eq, Structural, PartialOrd, Ord, Clone, Copy)]
pub struct Version {
    pub major: u32,
    pub year: u32,
    pub day: u32,
    pub month: u32,
    pub patch: u32,
}

// ---------------------------------------------------------------------------
// Decimal numbers
// ---------------------------------------------------------------------------

pub open spec fn is_digit(c: char) -> bool {
    '0' <= c && c <= '9'
}

pub open spec fn all_digits(s: Seq<char>) -> bool {
    forall|i: int| 0 <= i < s.len() ==> is_digit(#[trigger] s[i])
}

/// The value of a string of decimal digits.
pub open spec fn digits_value(s: Seq<char>) -> nat
    decreases s.len(),
{
    if s.len() == 0 {
        0
    } else {
        digits_value(s.drop_last()) * 10 + (s.last() as nat - '0' as nat) as nat
    }
}

/// The digits of an unsigned number: an optional leading '+' is not part of them.
pub open spec fn unsigned_digits(s: Seq<char>) -> Seq<char> {
    if s.len() > 0 && s[0] == '+' {
        s.skip(1)
    } else {
        s
    }
}

/// A `u32` written in decimal, as `str::parse::<u32>` reads it: an optional
/// '+', then at least one digit and nothing else, the value fitting 32 bits.
pub open spec fn parse_u32(s: Seq<char>) -> Option<u32> {
    let d = unsigned_digits(s);
    if d.len() > 0 && all_digits(d) && digits_value(d) <= u32::MAX {
        Some(digits_value(d) as u32)
    } else {
        None
    }
}

/// Reads `text[from..to]` as a decimal `u32`.
pub fn parse_u32_chars(text: &Vec<char>, from: usize, to: usize) -> (r: Option<u32>)
    requires
        from <= to <= text@.len(),
    ensures
        r == parse_u32(text@.subrange(from as int, to as int)),
{
    let ghost s = text@.subrange(from as int, to as int);
    let mut start = from;
    if from < to && text[from] == '+' {
        start = from + 1;
    }
    let ghost d = text@.subrange(start as int, to as int);
    assert(d =~= unsigned_digits(s));
    if start == to {
        return None;
    }
    let limit: u64 = 0x1_0000_0000;
    let mut value: u64 = 0;
    let mut i = start;
    while i < to
        invariant
            start <= i <= to <= text@.len(),
            limit == 0x1_0000_0000u64,
            s == text@.subrange(from as int, to as int),
            d == unsigned_digits(s),
            d == text@.subrange(start as int, to as int),
            all_digits(text@.subrange(start as int, i as int)),
            value == if digits_value(text@.subrange(start as int, i as int)) < limit {
                digits_value(text@.subrange(start as int, i as int))
            } else {
                limit as nat
            },
        decreases to - i,
    {
        let c = text[i];
        if c < '0' || c > '9' {
            assert(d[i - start] == c);
            assert(!is_digit(d[i - start]));
            assert(!all_digits(d));
            return None;
        }
        let ghost prefix = text@.subrange(start as int, i as int);
        let ghost next = text@.subrange(start as int, i + 1);
        assert(next.drop_last() =~= prefix);
        assert(next.last() == c);
        let digit = (c as u32 - 48) as u64;
        if value < limit {
            value = value * 10 + digit;
            if value > limit {
                value = limit;
            }
        }
        i = i + 1;
        assert forall|k: int| 0 <= k < next.len() implies is_digit(#[trigger] next[k]) by {
            if k < prefix.len() {
                assert(next[k] == prefix[k]);
            }
        }
    }
    if value >= limit {
        None
    } else {
        Some(value as u32)
    }
}

// ---------------------------------------------------------------------------
// Splitting
// ---------------------------------------------------------------------------

/// `s` cut at every occurrence of `sep`, as `str::split` does: n separators
/// give n + 1 pieces, empty ones included.
pub open spec fn split_at_char(s: Seq<char>, sep: char) -> Seq<Seq<char>>
    decreases s.len(),
{
    if s.len() == 0 {
        seq![Seq::empty()]
    } else {
        let pieces = split_at_char(s.drop_last(), sep);
        if s.last() == sep {
            pieces.push(Seq::empty())
        } else {
            pieces.update(pieces.len() - 1, pieces.last().push(s.last()))
        }
    }
}

pub proof fn lemma_split_nonempty(s: Seq<char>, sep: char)
    ensures
        split_at_char(s, sep).len() >= 1,
    decreases s.len(),
{
    if s.len() > 0 {
        lemma_split_nonempty(s.drop_last(), sep);
    }
}

/// `s` without its leading 'v' characters.
pub open spec fn trim_leading_v(s: Seq<char>) -> Seq<char>
    decreases s.len(),
{
    if s.len() > 0 && s[0] == 'v' {
        trim_leading_v(s.skip(1))
    } else {
        s
    }
}

/// The number of bytes of a character in UTF-8.
pub open spec fn utf8_width(c: char) -> nat {
    if (c as u32) < 0x80 {
        1
    } else if (c as u32) < 0x800 {
        2
    } else if (c as u32) < 0x10000 {
        3
    } else {
        4
    }
}

/// The number of bytes of a string in UTF-8.
pub open spec fn utf8_size(s: Seq<char>) -> nat
    decreases s.len(),
{
    if s.len() == 0 {
        0
    } else {
        utf8_size(s.drop_last()) + utf8_width(s.last())
    }
}

/// A four-byte DDMM field whose second byte ends inside a character: its
/// first two bytes cannot be cut out of it.
pub open spec fn ddmm_cut_inside_char(ddmm: Seq<char>) -> bool {
    utf8_size(ddmm) == 4 && (utf8_width(ddmm[0]) >= 3 || (utf8_width(ddmm[0]) == 1
        && utf8_width(ddmm[1]) >= 2))
}

/// The version strings `Version::parse` cannot read: four dot-separated
/// fields whose first two are numbers and whose DDMM field is four bytes
/// long but not cut at its second byte.
pub open spec fn version_text_faults(s: Seq<char>) -> bool {
    let parts = split_at_char(trim_leading_v(s), '.');
    parts.len() == 4 && parse_u32(parts[0]) is Some && parse_u32(parts[1]) is Some
        && ddmm_cut_inside_char(parts[2])
}

/// The version a string names: after leading 'v's, exactly four fields
/// separated by dots: major, year, DDMM (four characters: day then month),
/// patch, each a decimal `u32`.
pub open spec fn version_of(s: Seq<char>) -> Option<Version> {
    let parts = split_at_char(trim_leading_v(s), '.');
    if parts.len() != 4 {
        None
    } else {
        let ddmm = parts[2];
        match (
            parse_u32(parts[0]),
            parse_u32(parts[1]),
            parse_u32(ddmm.subrange(0, 2)),
            parse_u32(ddmm.subrange(2, 4)),
            parse_u32(parts[3]),
        ) {
            (Some(major), Some(year), Some(day), Some(month), Some(patch)) => if ddmm.len()
                == 4 {
                Some(Version { major, year, day, month, patch })
            } else {
                None
            },
            _ => None,
        }
    }
}

/// `a` is a later version than `b`: the first field in which they differ is
/// larger in `a`.
pub open spec fn version_gt(a: Version, b: Version) -> bool {
    a.major > b.major || (a.major == b.major && (a.year > b.year || (a.year == b.year && (a.day
        > b.day || (a.day == b.day && (a.month > b.month || (a.month == b.month && a.patch
        > b.patch)))))))
}

/// "Later than" is a strict total order on versions: no version is later
/// than itself, it is transitive, and of two different versions one is
/// later than the other.
pub proof fn lemma_version_order(a: Version, b: Version, c: Version)
    ensures
        !version_gt(a, a),
        version_gt(a, b) ==> !version_gt(b, a),
        version_gt(a, b) && version_gt(b, c) ==> version_gt(a, c),
        a != b ==> version_gt(a, b) || version_gt(b, a),
{
}

/// The first field in which two versions differ decides which is later:
/// whatever the fields after it hold, a larger major, else a larger year,
/// else a larger day, else a larger month, else a larger patch.
pub proof fn lemma_first_difference_decides(a: Version, b: Version)
    ensures
        a.major > b.major ==> version_gt(a, b),
        a.major == b.major && a.year > b.year ==> version_gt(a, b),
        a.major == b.major && a.year == b.year && a.day > b.day ==> version_gt(a, b),
        a.major == b.major && a.year == b.year && a.day == b.day && a.month > b.month
            ==> version_gt(a, b),
        a.major == b.major && a.year == b.year && a.day == b.day && a.month == b.month && a.patch
            > b.patch ==> version_gt(a, b),
        a == b ==> !version_gt(a, b),
{
}

/// Cutting a text that holds no separator gives the text itself.
pub proof fn lemma_split_without_separator(s: Seq<char>, sep: char)
    requires
        !s.contains(sep),
    ensures
        split_at_char(s, sep) == seq![s],
    decreases s.len(),
{
    if s.len() > 0 {
        assert(!s.drop_last().contains(sep)) by {
            if s.drop_last().contains(sep) {
                let i = choose|i: int| 0 <= i < s.drop_last().len() && s.drop_last()[i] == sep;
                assert(s[i] == sep);
            }
        }
        lemma_split_without_separator(s.drop_last(), sep);
        assert(s.last() != sep) by {
            assert(s[s.len() - 1] == s.last());
        }
        assert(s.drop_last().push(s.last()) =~= s);
        assert(seq![s.drop_last()].update(0, s.drop_last().push(s.last())) =~= seq![s]);
    } else {
        assert(s =~= Seq::<char>::empty());
    }
}

/// Cutting `a`, a separator and a last piece `b` without separators gives
/// the pieces of `a` followed by `b`.
pub proof fn lemma_split_last_piece(a: Seq<char>, b: Seq<char>, sep: char)
    requires
        !b.contains(sep),
    ensures
        split_at_char(a + seq![sep] + b, sep) == split_at_char(a, sep).push(b),
    decreases b.len(),
{
    let t = a + seq![sep] + b;
    if b.len() == 0 {
        assert(t.drop_last() =~= a);
        assert(t.last() == sep);
        assert(b =~= Seq::<char>::empty());
    } else {
        let c = b.drop_last();
        assert(!c.contains(sep)) by {
            if c.contains(sep) {
                let i = choose|i: int| 0 <= i < c.len() && c[i] == sep;
                assert(b[i] == sep);
            }
        }
        lemma_split_last_piece(a, c, sep);
        assert(t.drop_last() =~= a + seq![sep] + c);
        assert(t.last() == b.last());
        assert(b.last() != sep) by {
            assert(b[b.len() - 1] == b.last());
        }
        assert(c.push(b.last()) =~= b);
        let pieces = split_at_char(a, sep).push(c);
        assert(pieces.update(pieces.len() - 1, c.push(b.last())) =~= split_at_char(a, sep).push(b));
    }
}

/// A field of decimal digits, without sign, that fits 32 bits.
pub open spec fn decimal_field(s: Seq<char>) -> bool {
    s.len() > 0 && all_digits(s) && digits_value(s) <= u32::MAX
}

/// A version written out as `major.year.DDMM.patch`, each field in decimal
/// digits and day and month in two digits each, reads back its fields.
pub proof fn lemma_written_version_reads_back(
    major: Seq<char>,
    year: Seq<char>,
    day: Seq<char>,
    month: Seq<char>,
    patch: Seq<char>,
)
    requires
        decimal_field(major),
        decimal_field(year),
        decimal_field(day),
        decimal_field(month),
        decimal_field(patch),
        day.len() == 2,
        month.len() == 2,
    ensures
        version_of(
            major + seq!['.'] + year + seq!['.'] + (day + month) + seq!['.'] + patch,
        ) == Some(
            Version {
                major: digits_value(major) as u32,
                year: digits_value(year) as u32,
                day: digits_value(day) as u32,
                month: digits_value(month) as u32,
                patch: digits_value(patch) as u32,
            },
        ),
{
    let dm = day + month;
    let t = major + seq!['.'] + year + seq!['.'] + dm + seq!['.'] + patch;
    assert forall|f: Seq<char>| decimal_field(f) implies !f.contains('.') && f[0] != '+'
        && f[0] != 'v' && unsigned_digits(f) == f by {
        assert(is_digit(f[0]));
        if f.contains('.') {
            let i = choose|i: int| 0 <= i < f.len() && f[i] == '.';
            assert(is_digit(f[i]));
        }
    }
    assert(!dm.contains('.')) by {
        if dm.contains('.') {
            let i = choose|i: int| 0 <= i < dm.len() && dm[i] == '.';
            if i < 2 {
                assert(dm[i] == day[i]);
                assert(is_digit(day[i]));
            } else {
                assert(dm[i] == month[i - 2]);
                assert(is_digit(month[i - 2]));
            }
        }
    }
    lemma_split_without_separator(major, '.');
    lemma_split_last_piece(major, year, '.');
    lemma_split_last_piece(major + seq!['.'] + year, dm, '.');
    lemma_split_last_piece(major + seq!['.'] + year + seq!['.'] + dm, patch, '.');
    assert(t[0] == major[0]);
    assert(trim_leading_v(t) == t);
    let parts = split_at_char(t, '.');
    assert(parts =~= seq![major, year, dm, patch]);
    assert(dm.subrange(0, 2) =~= day);
    assert(dm.subrange(2, 4) =~= month);
}

/// The positions of the pieces of `text[from..]` cut at `sep`, as
/// (start, end) pairs.
fn split_positions(text: &Vec<char>, from: usize, sep: char) -> (r: Vec<(usize, usize)>)
    requires
        from <= text@.len(),
    ensures
        r@.len() == split_at_char(text@.skip(from as int), sep).len(),
        forall|k: int|
            0 <= k < r@.len() ==> from <= (#[trigger] r@[k]).0 <= r@[k].1 <= text@.len()
                && text@.subrange(r@[k].0 as int, r@[k].1 as int) == split_at_char(
                text@.skip(from as int),
                sep,
            )[k],
{
    let mut done: Vec<(usize, usize)> = Vec::new();
    let mut start = from;
    let mut i = from;
    while i < text.len()
        invariant
            from <= start <= i <= text@.len(),
            done@.len() + 1 == split_at_char(text@.subrange(from as int, i as int), sep).len(),
            forall|k: int|
                0 <= k < done@.len() ==> from <= (#[trigger] done@[k]).0 <= done@[k].1
                    <= text@.len() && text@.subrange(done@[k].0 as int, done@[k].1 as int)
                    == split_at_char(text@.subrange(from as int, i as int), sep)[k],
            text@.subrange(start as int, i as int) == split_at_char(
                text@.subrange(from as int, i as int),
                sep,
            ).last(),
        decreases text@.len() - i,
    {
        let ghost old_pieces = split_at_char(text@.subrange(from as int, i as int), sep);
        let ghost next = text@.subrange(from as int, i + 1);
        assert(next.drop_last() =~= text@.subrange(from as int, i as int));
        proof {
            lemma_split_nonempty(text@.subrange(from as int, i as int), sep);
        }
        if text[i] == sep {
            done.push((start, i));
            start = i + 1;
            i = i + 1;
            assert(text@.subrange(start as int, i as int) =~= Seq::<char>::empty());
        } else {
            i = i + 1;
            assert(text@.subrange(start as int, i as int) =~= text@.subrange(
                start as int,
                i - 1,
            ).push(text@[i - 1]));
        }
    }
    assert(text@.subrange(from as int, text@.len() as int) =~= text@.skip(from as int));
    done.push((start, text.len()));
    done
}

/// The index of the first character after the leading 'v's.
fn skip_leading_v(text: &Vec<char>) -> (from: usize)
    ensures
        from <= text@.len(),
        trim_leading_v(text@) == text@.skip(from as int),
{
    let mut from: usize = 0;
    assert(text@.skip(0) =~= text@);
    while from < text.len() && text[from] == 'v'
        invariant
            from <= text@.len(),
            trim_leading_v(text@.skip(from as int)) == trim_leading_v(text@),
        decreases text@.len() - from,
    {
        assert(text@.skip(from as int).skip(1) =~= text@.skip(from + 1));
        from = from + 1;
    }
    from
}

pub proof fn lemma_utf8_size_at_least_len(s: Seq<char>)
    ensures
        utf8_size(s) >= s.len(),
    decreases s.len(),
{
    if s.len() > 0 {
        lemma_utf8_size_at_least_len(s.drop_last());
    }
}

fn utf8_width_of(c: char) -> (w: usize)
    ensures
        w == utf8_width(c),
{
    let code = c as u32;
    if code < 0x80 {
        1
    } else if code < 0x800 {
        2
    } else if code < 0x10000 {
        3
    } else {
        4
    }
}

/// The UTF-8 size of `text[from..to]`, when it is at most four characters.
fn short_utf8_size(text: &Vec<char>, from: usize, to: usize) -> (n: usize)
    requires
        from <= to <= text@.len(),
        to - from <= 4,
    ensures
        n == utf8_size(text@.subrange(from as int, to as int)),
{
    let mut n: usize = 0;
    let mut i = from;
    while i < to
        invariant
            from <= i <= to <= text@.len(),
            to - from <= 4,
            n == utf8_size(text@.subrange(from as int, i as int)),
            n <= 4 * (i - from),
        decreases to - i,
    {
        let w = utf8_width_of(text[i]);
        assert(text@.subrange(from as int, i + 1).drop_last() =~= text@.subrange(
            from as int,
            i as int,
        ));
        n = n + w;
        i = i + 1;
    }
    n
}

impl Version {
    /// Reads a version string such as "v1.26.2103.02": leading 'v's are
    /// skipped, then four dot-separated fields major, year, DDMM and patch.
    #[verifier::rlimit(40)]
    pub fn parse(s: &str) -> (r: Option<Self>)
        requires
            !version_text_faults(s@),
        ensures
            r == version_of(s@),
    {
        let text = chars_of(s);
        let from = skip_leading_v(&text);
        let ghost t = text@.skip(from as int);
        let parts = split_positions(&text, from, '.');
        if parts.len() != 4 {
            return None;
        }
        let (s0, e0) = parts[0];
        let (s1, e1) = parts[1];
        let (s2, e2) = parts[2];
        let (s3, e3) = parts[3];
        let ghost pieces = split_at_char(t, '.');
        assert(text@.subrange(s0 as int, e0 as int) == pieces[0]);
        assert(text@.subrange(s1 as int, e1 as int) == pieces[1]);
        assert(text@.subrange(s2 as int, e2 as int) == pieces[2]);
        assert(text@.subrange(s3 as int, e3 as int) == pieces[3]);
        let major = match parse_u32_chars(&text, s0, e0) {
            Some(v) => v,
            None => return None,
        };
        let year = match parse_u32_chars(&text, s1, e1) {
            Some(v) => v,
            None => return None,
        };
        if e2 - s2 != 4 {
            return None;
        }
        let ghost ddmm = pieces[2];
        assert(text@.subrange(s2 as int, s2 + 2) =~= ddmm.subrange(0, 2));
        assert(text@.subrange(s2 + 2, e2 as int) =~= ddmm.subrange(2, 4));
        let day = match parse_u32_chars(&text, s2, s2 + 2) {
            Some(v) => v,
            None => return None,
        };
        let month = match parse_u32_chars(&text, s2 + 2, e2) {
            Some(v) => v,
            None => return None,
        };
        let patch = match parse_u32_chars(&text, s3, e3) {
            Some(v) => v,
            None => return None,
        };
        Some(Version { major, year, day, month, patch })
    }

    /// Whether `s` is one of the strings `parse` cannot read: four
    /// dot-separated fields, the first two numbers, and a DDMM field of four
    /// bytes whose second byte ends inside a character.
    #[verifier::rlimit(40)]
    pub fn cuts_inside_char(s: &str) -> (r: bool)
        ensures
            r == version_text_faults(s@),
    {
        let text = chars_of(s);
        let from = skip_leading_v(&text);
        let ghost t = text@.skip(from as int);
        let parts = split_positions(&text, from, '.');
        if parts.len() != 4 {
            return false;
        }
        let (s0, e0) = parts[0];
        let (s1, e1) = parts[1];
        let (s2, e2) = parts[2];
        let ghost pieces = split_at_char(t, '.');
        assert(text@.subrange(s0 as int, e0 as int) == pieces[0]);
        assert(text@.subrange(s1 as int, e1 as int) == pieces[1]);
        assert(text@.subrange(s2 as int, e2 as int) == pieces[2]);
        if parse_u32_chars(&text, s0, e0).is_none() || parse_u32_chars(&text, s1, e1).is_none() {
            return false;
        }
        if e2 - s2 > 4 {
            proof {
                lemma_utf8_size_at_least_len(pieces[2]);
            }
            return false;
        }
        if short_utf8_size(&text, s2, e2) != 4 {
            return false;
        }
        let ghost ddmm = pieces[2];
        proof {
            if ddmm.len() == 0 {
                assert(utf8_size(ddmm) == 0);
            }
        }
        let w0 = utf8_width_of(text[s2]);
        if w0 >= 3 {
            return true;
        }
        if w0 == 1 {
            proof {
                if ddmm.len() == 1 {
                    assert(ddmm.drop_last().len() == 0);
                    assert(utf8_size(ddmm.drop_last()) == 0);
                }
            }
            let w1 = utf8_width_of(text[s2 + 1]);
            return w1 >= 2;
        }
        false
    }

    /// Whether this version is later than `other`.
    pub fn is_newer_than(&self, other: &Version) -> (r: bool)
        ensures
            r == version_gt(*self, *other),
    {
        if self.major != other.major {
            return self.major > other.major;
        }
        if self.year != other.year {
            return self.year > other.year;
        }
        if self.day != other.day {
            return self.day > other.day;
        }
        if self.month != other.month {
            return self.month > other.month;
        }
        self.patch > other.patch
    }
}

} // verus!
