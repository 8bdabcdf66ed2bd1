//! Naming and ordering of saved settings profiles.
use crate::text::{chars_equal, chars_of, ends_with_chars, lowercase, text_ends_with, text_starts_with, to_lowercase};
use vstd::prelude::*;
use vstd::string::*;

verus! {

#[verifier::external_type_specification]
#[verifier::external_body]
pub struct ExPathBuf(std::path::PathBuf);

/// The active profile, remembered across restarts.
pub struct SessionMeta {
    /// The profile's display name.
    pub profile_name: String,
    /// Where the profile is saved, if it is.
    pub profile_path: Option<std::path::PathBuf>,
}

/// The profile identity restored at startup: the remembered profile's name
/// and file, or an unsaved session without a file.
pub fn restored_profile(meta: Option<SessionMeta>) -> (r: (String, Option<std::path::PathBuf>))
    ensures
        match meta {
            Some(m) => r.0@ == m.profile_name@ && r.1 == m.profile_path,
            None => r.0@ == "Unsaved Session"@ && r.1 is None,
        },
{
    match meta {
        Some(m) => (m.profile_name, m.profile_path),
        None => (String::from_str("Unsaved Session"), None),
    }
}

/// The file a preset named `name` is saved in: the name itself when it
/// already ends in `.json`, else the name followed by `.json`.
pub open spec fn preset_file_text(name: Seq<char>) -> Seq<char> {
    if text_ends_with(name, ".json"@) {
        name
    } else {
        name + ".json"@
    }
}

/// A preset's file name ends in `.json` and begins with the preset's name,
/// and naming the file again changes nothing.
pub proof fn lemma_preset_file_name(name: Seq<char>)
    ensures
        text_ends_with(preset_file_text(name), ".json"@),
        text_starts_with(preset_file_text(name), name),
        preset_file_text(preset_file_text(name)) == preset_file_text(name),
{
    let f = preset_file_text(name);
    if !text_ends_with(name, ".json"@) {
        assert(f.subrange(f.len() - ".json"@.len(), f.len() as int) =~= ".json"@);
    }
    assert(f.subrange(0, name.len() as int) =~= name);
}

pub fn preset_file_name(name: &str) -> (s: String)
    ensures
        s@ == preset_file_text(name@),
{
    let text = chars_of(name);
    let suffix = chars_of(".json");
    let mut s = String::from_str(name);
    if !ends_with_chars(&text, &suffix) {
        s.append(".json");
    }
    s
}

/// A file is a profile when its extension is `json` and its stem is not one
/// of the two session files.
pub open spec fn is_profile_file(extension: Seq<char>, stem: Seq<char>) -> bool {
    extension == "json"@ && stem != "last_session"@ && stem != "session_meta"@
}

pub fn is_profile(extension: &str, stem: &str) -> (r: bool)
    ensures
        r == is_profile_file(extension@, stem@),
{
    let stem_chars = chars_of(stem);
    chars_equal(&chars_of(extension), &chars_of("json")) && !chars_equal(
        &stem_chars,
        &chars_of("last_session"),
    ) && !chars_equal(&stem_chars, &chars_of("session_meta"))
}

// ---------------------------------------------------------------------------
// Ordering profiles by name, ignoring case
// ---------------------------------------------------------------------------

/// `a` sorts before `b`: at the first character where they differ, `a`'s
/// is smaller, or `a` is a proper prefix of `b` (the order of `String`).
pub open spec fn text_lt(a: Seq<char>, b: Seq<char>) -> bool
    decreases a.len(),
{
    if a.len() == 0 {
        b.len() > 0
    } else if b.len() == 0 {
        false
    } else if a[0] != b[0] {
        a[0] < b[0]
    } else {
        text_lt(a.skip(1), b.skip(1))
    }
}

fn chars_lt(a: &Vec<char>, b: &Vec<char>) -> (r: bool)
    ensures
        r == text_lt(a@, b@),
{
    let mut i: usize = 0;
    assert(a@.skip(0) =~= a@);
    assert(b@.skip(0) =~= b@);
    while i < a.len() && i < b.len()
        invariant
            i <= a@.len(),
            i <= b@.len(),
            text_lt(a@, b@) == text_lt(a@.skip(i as int), b@.skip(i as int)),
        decreases a@.len() - i,
    {
        if a[i] != b[i] {
            return a[i] < b[i];
        }
        assert(a@.skip(i as int).skip(1) =~= a@.skip(i + 1));
        assert(b@.skip(i as int).skip(1) =~= b@.skip(i + 1));
        i = i + 1;
    }
    i < b.len()
}

/// A profile's sort key: its name in lower case.
pub open spec fn profile_key(p: (String, std::path::PathBuf)) -> Seq<char> {
    lowercase(p.0@)
}

/// `x` inserted into `t` after every entry whose key is not greater.
pub open spec fn insert_by_key(
    t: Seq<(String, std::path::PathBuf)>,
    x: (String, std::path::PathBuf),
) -> Seq<(String, std::path::PathBuf)>
    decreases t.len(),
{
    if t.len() == 0 {
        seq![x]
    } else if text_lt(profile_key(x), profile_key(t.last())) {
        insert_by_key(t.drop_last(), x).push(t.last())
    } else {
        t.push(x)
    }
}

/// The profiles ordered by key, profiles of equal keys kept in their order
/// (the stable sort `sort_by_key` does).
pub open spec fn sorted_by_key(s: Seq<(String, std::path::PathBuf)>) -> Seq<
    (String, std::path::PathBuf),
>
    decreases s.len(),
{
    if s.len() == 0 {
        Seq::empty()
    } else {
        insert_by_key(sorted_by_key(s.drop_last()), s.last())
    }
}

proof fn lemma_insert_at(
    t: Seq<(String, std::path::PathBuf)>,
    x: (String, std::path::PathBuf),
    j: int,
)
    requires
        0 <= j <= t.len(),
        forall|k: int| j <= k < t.len() ==> text_lt(profile_key(x), profile_key(#[trigger] t[k])),
        j > 0 ==> !text_lt(profile_key(x), profile_key(t[j - 1])),
    ensures
        insert_by_key(t, x) == t.insert(j, x),
    decreases t.len(),
{
    if j == t.len() {
        if t.len() > 0 {
            assert(t.push(x) =~= t.insert(j, x));
        } else {
            assert(seq![x] =~= t.insert(j, x));
        }
    } else {
        assert(text_lt(profile_key(x), profile_key(t[t.len() - 1])));
        lemma_insert_at(t.drop_last(), x, j);
        assert(t.drop_last().insert(j, x).push(t.last()) =~= t.insert(j, x));
    }
}

/// `text_lt` is a strict total order: asymmetric, transitive, and of two
/// different texts one sorts before the other.
pub proof fn lemma_text_order(a: Seq<char>, b: Seq<char>, c: Seq<char>)
    ensures
        text_lt(a, b) ==> !text_lt(b, a),
        text_lt(a, b) && text_lt(b, c) ==> text_lt(a, c),
        a != b ==> text_lt(a, b) || text_lt(b, a),
    decreases a.len(),
{
    if a.len() == 0 && b.len() == 0 {
        assert(a =~= b);
    }
    if a.len() > 0 && b.len() > 0 {
        let c1 = if c.len() > 0 {
            c.skip(1)
        } else {
            c
        };
        lemma_text_order(a.skip(1), b.skip(1), c1);
        if a[0] == b[0] && a != b {
            assert(a =~= seq![a[0]] + a.skip(1));
            assert(b =~= seq![b[0]] + b.skip(1));
            assert(a.skip(1) != b.skip(1));
        }
        if a[0] != b[0] {
            assert(a[0] < b[0] || b[0] < a[0]);
        }
    }
}

/// No profile sorts before one that precedes it.
pub open spec fn keys_sorted(t: Seq<(String, std::path::PathBuf)>) -> bool {
    forall|i: int, j: int|
        0 <= i < j < t.len() ==> !text_lt(profile_key(#[trigger] t[j]), profile_key(#[trigger] t[i]))
}

proof fn lemma_insert_by_key_sorted(t: Seq<(String, std::path::PathBuf)>, x: (String, std::path::PathBuf))
    requires
        keys_sorted(t),
    ensures
        keys_sorted(insert_by_key(t, x)),
        insert_by_key(t, x).to_multiset() == t.to_multiset().insert(x),
        forall|k: int|
            0 <= k < insert_by_key(t, x).len() ==> #[trigger] insert_by_key(t, x)[k] == x
                || t.contains(insert_by_key(t, x)[k]),
    decreases t.len(),
{
    broadcast use vstd::seq_lib::to_multiset_build;

    if t.len() == 0 {
        let e = Seq::<(String, std::path::PathBuf)>::empty();
        assert(seq![x] =~= e.push(x));
        assert(t =~= e);
        assert(e.push(x).to_multiset() == e.to_multiset().insert(x));
    } else {
        let last = t.last();
        let rest = t.drop_last();
        assert(t =~= rest.push(last));
        if text_lt(profile_key(x), profile_key(last)) {
            lemma_insert_by_key_sorted(rest, x);
            let inner = insert_by_key(rest, x);
            let r = inner.push(last);
            assert forall|i: int, j: int| 0 <= i < j < r.len() implies !text_lt(
                profile_key(#[trigger] r[j]),
                profile_key(#[trigger] r[i]),
            ) by {
                if j == r.len() - 1 {
                    let e = inner[i];
                    if e == x {
                        lemma_text_order(profile_key(x), profile_key(last), profile_key(last));
                    } else {
                        assert(rest.contains(e));
                        let k = choose|k: int| 0 <= k < rest.len() && rest[k] == e;
                        assert(t[k] == e);
                        assert(t[t.len() - 1] == last);
                    }
                } else {
                    assert(r[i] == inner[i] && r[j] == inner[j]);
                }
            }
            assert forall|k: int| 0 <= k < r.len() implies #[trigger] r[k] == x || t.contains(r[k]) by {
                if k == r.len() - 1 {
                    assert(t[t.len() - 1] == r[k]);
                } else {
                    if inner[k] != x {
                        let i = choose|i: int| 0 <= i < rest.len() && rest[i] == inner[k];
                        assert(t[i] == inner[k]);
                    }
                }
            }
            assert(r.to_multiset() =~= t.to_multiset().insert(x));
        } else {
            let r = t.push(x);
            assert(r.to_multiset() == t.to_multiset().insert(x));
            assert forall|i: int, j: int| 0 <= i < j < r.len() implies !text_lt(
                profile_key(#[trigger] r[j]),
                profile_key(#[trigger] r[i]),
            ) by {
                if j == r.len() - 1 {
                    if i < t.len() - 1 {
                        assert(!text_lt(profile_key(t[t.len() - 1]), profile_key(t[i])));
                        lemma_text_order(profile_key(x), profile_key(t[i]), profile_key(last));
                        lemma_text_order(profile_key(t[i]), profile_key(last), profile_key(x));
                        lemma_text_order(profile_key(last), profile_key(t[i]), profile_key(x));
                    }
                } else {
                    assert(r[i] == t[i] && r[j] == t[j]);
                }
            }
            assert forall|k: int| 0 <= k < r.len() implies #[trigger] r[k] == x || t.contains(r[k]) by {
                if k < t.len() {
                    assert(t[k] == r[k]);
                }
            }
        }
    }
}

/// Ordering profiles by name ignoring case gives the same profiles, each as
/// often, with no profile sorting before one that precedes it.
pub proof fn lemma_sorted_by_key_is_sorted_permutation(s: Seq<(String, std::path::PathBuf)>)
    ensures
        keys_sorted(sorted_by_key(s)),
        sorted_by_key(s).to_multiset() == s.to_multiset(),
    decreases s.len(),
{
    broadcast use vstd::seq_lib::to_multiset_build;

    if s.len() > 0 {
        lemma_sorted_by_key_is_sorted_permutation(s.drop_last());
        lemma_insert_by_key_sorted(sorted_by_key(s.drop_last()), s.last());
        assert(s =~= s.drop_last().push(s.last()));
    } else {
        assert(s =~= sorted_by_key(s));
        assert(s.to_multiset() =~= sorted_by_key(s).to_multiset()) by {
            broadcast use vstd::seq_lib::to_multiset_len;
            broadcast use vstd::multiset::group_multiset_axioms;
        }
    }
}

/// Orders `profiles` by name ignoring case, keeping profiles whose names
/// differ only in case in their order.
pub fn sort_profiles(profiles: Vec<(String, std::path::PathBuf)>) -> (r: Vec<(String, std::path::PathBuf)>)
    ensures
        r@ == sorted_by_key(profiles@),
{
    let ghost input = profiles@;
    let mut rest = profiles;
    let mut done: Vec<(String, std::path::PathBuf)> = Vec::new();
    let mut keys: Vec<Vec<char>> = Vec::new();
    let mut i: usize = 0;
    let n = rest.len();
    while rest.len() > 0
        invariant
            n == input.len(),
            i + rest@.len() == n,
            rest@ == input.skip(i as int),
            done@ == sorted_by_key(input.take(i as int)),
            keys@.len() == done@.len(),
            forall|k: int| 0 <= k < keys@.len() ==> (#[trigger] keys@[k])@ == profile_key(done@[k]),
        decreases rest@.len(),
    {
        let x = rest.remove(0);
        let key = chars_of(to_lowercase(x.0.as_str()).as_str());
        let ghost t = done@;
        let mut j = done.len();
        while j > 0 && chars_lt(&key, &keys[j - 1])
            invariant
                j <= done@.len(),
                done@ == t,
                keys@.len() == t.len(),
                forall|k: int| 0 <= k < keys@.len() ==> (#[trigger] keys@[k])@ == profile_key(t[k]),
                key@ == profile_key(x),
                forall|k: int| j <= k < t.len() ==> text_lt(profile_key(x), profile_key(#[trigger] t[k])),
            decreases j,
        {
            j = j - 1;
        }
        proof {
            lemma_insert_at(t, x, j as int);
            let next = input.take(i + 1);
            assert(next.drop_last() =~= input.take(i as int));
            assert(next.last() == x);
            assert(rest@ =~= input.skip(i + 1));
        }
        let ghost old_keys = keys@;
        done.insert(j, x);
        keys.insert(j, key);
        assert forall|k: int| 0 <= k < keys@.len() implies (#[trigger] keys@[k])@ == profile_key(done@[k]) by {
            if k < j {
                assert(keys@[k] == old_keys[k]);
            } else if k > j {
                assert(keys@[k] == old_keys[k - 1]);
            }
        }
        i = i + 1;
    }
    assert(input.take(n as int) =~= input);
    done
}

} // verus!
