//! The update check: which release to offer in place of this build, where the
//! releases are listed, and which asset of a release is installed.
use crate::text::{chars_equal, chars_of, ends_with_chars, lowercase, push_char, text_ends_with, to_lowercase};
use sha2::Digest;
use vstd::prelude::*;
use vstd::string::*;

verus! {

/// The GitHub owner of the release repository.
pub const OWNER: &'static str = "Next-Tablet-Driver";

/// The GitHub release repository.
pub const REPO: &'static str = "NextTabletDriver";

/// A file attached to a release.
pub struct Asset {
    pub name: String,
    pub browser_download_url: String,
}

/// A published release: its tag, its notes and its files.
pub struct Release {
    pub tag_name: String,
    pub body: Option<String>,
    pub assets: Vec<Asset>,
}

/// The operating system an installer is chosen for.
#[derive(Debug, Clone, Copy, PartialEq, Eq, Structural)]
pub enum Platform {
    Windows,
    Linux,
    Other,
}

/// The address of the API document that describes the latest release.
pub open spec fn github_api_url_text() -> Seq<char> {
    "https://api.github.com/repos/"@ + OWNER@ + "/"@ + REPO@ + "/releases/latest"@
}

pub fn github_api_url() -> (url: String)
    ensures
        url@ == github_api_url_text(),
{
    let mut url = String::from_str("https://api.github.com/repos/");
    url.append(OWNER);
    url.append("/");
    url.append(REPO);
    url.append("/releases/latest");
    url
}

/// A remote tag announces an update when it differs from the local
/// version text; a tag equal to it means this build is the latest.
pub open spec fn is_update(remote_tag: Seq<char>, local: Seq<char>) -> bool {
    remote_tag != local
}

/// A build is never offered its own version, and two builds that differ
/// are each offered the other's.
pub proof fn lemma_update_offers_every_other_tag(a: Seq<char>, b: Seq<char>)
    ensures
        !is_update(a, a),
        is_update(a, b) == is_update(b, a),
        a != b ==> is_update(a, b),
{
}

/// The release, when its tag differs from the local version `local`.
pub fn offered_release(release: Release, local: &str) -> (r: Option<Release>)
    ensures
        r == (if release.tag_name@ != local@ {
            Some(release)
        } else {
            None
        }),
{
    let tag = chars_of(release.tag_name.as_str());
    let here = chars_of(local);
    if chars_equal(&tag, &here) {
        None
    } else {
        Some(release)
    }
}

/// The first asset, from index `k` on, whose name ends with `suffix`.
pub open spec fn first_ending_from(assets: Seq<Asset>, suffix: Seq<char>, k: int) -> Option<int>
    decreases assets.len() - k,
{
    if k < 0 || k >= assets.len() {
        None
    } else if text_ends_with(assets[k].name@, suffix) {
        Some(k)
    } else {
        first_ending_from(assets, suffix, k + 1)
    }
}

pub proof fn lemma_first_ending_from_in_range(assets: Seq<Asset>, suffix: Seq<char>, k: int)
    ensures
        first_ending_from(assets, suffix, k) matches Some(i) ==> 0 <= k <= i < assets.len(),
    decreases assets.len() - k,
{
    if 0 <= k < assets.len() && !text_ends_with(assets[k].name@, suffix) {
        lemma_first_ending_from_in_range(assets, suffix, k + 1);
    }
}

pub open spec fn first_ending(assets: Seq<Asset>, suffix: Seq<char>) -> Option<int> {
    first_ending_from(assets, suffix, 0)
}

/// The search from `k` finds the first asset at or after `k` whose name
/// ends with `suffix`, and finds none when no such asset is left.
pub proof fn lemma_first_ending_from_is_first(assets: Seq<Asset>, suffix: Seq<char>, k: int)
    requires
        0 <= k,
    ensures
        first_ending_from(assets, suffix, k) matches Some(i) ==> k <= i < assets.len()
            && text_ends_with(assets[i].name@, suffix) && forall|j: int|
            k <= j < i ==> !text_ends_with(#[trigger] assets[j].name@, suffix),
        first_ending_from(assets, suffix, k) is None ==> forall|j: int|
            k <= j < assets.len() ==> !text_ends_with(#[trigger] assets[j].name@, suffix),
    decreases assets.len() - k,
{
    if k < assets.len() && !text_ends_with(assets[k].name@, suffix) {
        lemma_first_ending_from_is_first(assets, suffix, k + 1);
    }
}

/// The chosen asset of a platform: on Windows an `.exe` whenever the
/// release has one, the first of them; on Linux an `.AppImage` whenever
/// there is one, else a `.tar.gz` whenever there is one, each the first of
/// its kind; failing those, and on other systems, the first asset. Only a
/// release without assets has none.
pub proof fn lemma_platform_asset_choice(assets: Seq<Asset>, platform: Platform)
    ensures
        platform_asset_index(assets, platform) is None <==> assets.len() == 0,
        platform_asset_index(assets, platform) matches Some(i) ==> 0 <= i < assets.len(),
        platform == Platform::Windows && (exists|j: int|
            0 <= j < assets.len() && text_ends_with(#[trigger] assets[j].name@, ".exe"@))
            ==> platform_asset_index(assets, platform) == first_ending(assets, ".exe"@),
        platform == Platform::Linux && (exists|j: int|
            0 <= j < assets.len() && text_ends_with(#[trigger] assets[j].name@, ".AppImage"@))
            ==> platform_asset_index(assets, platform) == first_ending(assets, ".AppImage"@),
        platform == Platform::Linux && (forall|j: int|
            0 <= j < assets.len() ==> !text_ends_with(#[trigger] assets[j].name@, ".AppImage"@))
            && (exists|j: int|
            0 <= j < assets.len() && text_ends_with(#[trigger] assets[j].name@, ".tar.gz"@))
            ==> platform_asset_index(assets, platform) == first_ending(assets, ".tar.gz"@),
        first_ending(assets, ".exe"@) matches Some(i) ==> text_ends_with(assets[i].name@, ".exe"@)
            && forall|j: int| 0 <= j < i ==> !text_ends_with(#[trigger] assets[j].name@, ".exe"@),
        first_ending(assets, ".AppImage"@) matches Some(i) ==> text_ends_with(
            assets[i].name@,
            ".AppImage"@,
        ) && forall|j: int|
            0 <= j < i ==> !text_ends_with(#[trigger] assets[j].name@, ".AppImage"@),
        first_ending(assets, ".tar.gz"@) matches Some(i) ==> text_ends_with(
            assets[i].name@,
            ".tar.gz"@,
        ) && forall|j: int| 0 <= j < i ==> !text_ends_with(#[trigger] assets[j].name@, ".tar.gz"@),
        platform == Platform::Other ==> platform_asset_index(assets, platform) == first_of(assets),
{
    lemma_first_ending_from_is_first(assets, ".exe"@, 0);
    lemma_first_ending_from_is_first(assets, ".AppImage"@, 0);
    lemma_first_ending_from_is_first(assets, ".tar.gz"@, 0);
}

pub open spec fn first_of(assets: Seq<Asset>) -> Option<int> {
    if assets.len() > 0 {
        Some(0)
    } else {
        None
    }
}

/// The index of the asset installed on `platform`: on Windows the first
/// `.exe`; on Linux the first `.AppImage`, else the first `.tar.gz`; failing
/// those, and elsewhere, the first asset.
pub open spec fn platform_asset_index(assets: Seq<Asset>, platform: Platform) -> Option<int> {
    match platform {
        Platform::Windows => match first_ending(assets, ".exe"@) {
            Some(i) => Some(i),
            None => first_of(assets),
        },
        Platform::Linux => match first_ending(assets, ".AppImage"@) {
            Some(i) => Some(i),
            None => match first_ending(assets, ".tar.gz"@) {
                Some(i) => Some(i),
                None => first_of(assets),
            },
        },
        Platform::Other => first_of(assets),
    }
}

/// The message given when a release has no asset for `platform`.
pub open spec fn no_asset_message(platform: Platform) -> Seq<char> {
    match platform {
        Platform::Windows => "No suitable installer asset found in release"@,
        Platform::Linux => "No suitable Linux asset found in release"@,
        Platform::Other => "No assets found in release"@,
    }
}

fn first_asset_ending(assets: &Vec<Asset>, suffix: &str) -> (r: Option<usize>)
    ensures
        r matches Some(i) ==> i < assets@.len(),
        match first_ending(assets@, suffix@) {
            Some(i) => 0 <= i < assets@.len() && r == Some(i as usize),
            None => r is None,
        },
{
    proof {
        lemma_first_ending_from_in_range(assets@, suffix@, 0);
    }
    let suffix_chars = chars_of(suffix);
    let mut k: usize = 0;
    while k < assets.len()
        invariant
            k <= assets@.len(),
            suffix_chars@ == suffix@,
            first_ending(assets@, suffix@) == first_ending_from(assets@, suffix@, k as int),
        decreases assets@.len() - k,
    {
        let name = chars_of(assets[k].name.as_str());
        if ends_with_chars(&name, &suffix_chars) {
            return Some(k);
        }
        k = k + 1;
    }
    None
}

fn platform_asset(assets: &Vec<Asset>, platform: Platform) -> (r: Option<usize>)
    ensures
        r matches Some(i) ==> i < assets@.len(),
        match platform_asset_index(assets@, platform) {
            Some(i) => 0 <= i < assets@.len() && r == Some(i as usize),
            None => r is None,
        },
{
    let first = if assets.len() > 0 {
        Some(0)
    } else {
        None
    };
    match platform {
        Platform::Windows => match first_asset_ending(assets, ".exe") {
            Some(i) => Some(i),
            None => first,
        },
        Platform::Linux => match first_asset_ending(assets, ".AppImage") {
            Some(i) => Some(i),
            None => match first_asset_ending(assets, ".tar.gz") {
                Some(i) => Some(i),
                None => first,
            },
        },
        Platform::Other => first,
    }
}

/// The asset of `release` to install on `platform`, or why there is none.
pub fn find_platform_asset(release: &Release, platform: Platform) -> (r: Result<&Asset, String>)
    ensures
        match platform_asset_index(release.assets@, platform) {
            Some(i) => 0 <= i < release.assets@.len() && r == Ok::<&Asset, String>(
                &release.assets@[i],
            ),
            None => match r {
                Ok(_) => false,
                Err(message) => message@ == no_asset_message(platform),
            },
        },
{
    // The asset list's length is that of a `Vec`, so every index below it fits a `usize`.
    assert(release.assets@.len() == release.assets.len());
    match platform_asset(&release.assets, platform) {
        Some(i) => Ok(&release.assets[i]),
        None => Err(no_asset_text(platform)),
    }
}

fn no_asset_text(platform: Platform) -> (s: String)
    ensures
        s@ == no_asset_message(platform),
{
    match platform {
        Platform::Windows => String::from_str("No suitable installer asset found in release"),
        Platform::Linux => String::from_str("No suitable Linux asset found in release"),
        Platform::Other => String::from_str("No assets found in release"),
    }
}

// ---------------------------------------------------------------------------
// Checksums
// ---------------------------------------------------------------------------

/// The checksum file published beside an asset: the asset's name followed
/// by `.sha256`.
pub open spec fn checksum_name(asset_name: Seq<char>) -> Seq<char> {
    asset_name + ".sha256"@
}

/// The first asset, from index `k` on, named `name`.
pub open spec fn first_named_from(assets: Seq<Asset>, name: Seq<char>, k: int) -> Option<int>
    decreases assets.len() - k,
{
    if k < 0 || k >= assets.len() {
        None
    } else if assets[k].name@ == name {
        Some(k)
    } else {
        first_named_from(assets, name, k + 1)
    }
}

proof fn lemma_first_named_from_in_range(assets: Seq<Asset>, name: Seq<char>, k: int)
    ensures
        first_named_from(assets, name, k) matches Some(i) ==> 0 <= k <= i < assets.len(),
    decreases assets.len() - k,
{
    if 0 <= k < assets.len() && assets[k].name@ != name {
        lemma_first_named_from_in_range(assets, name, k + 1);
    }
}

/// The checksum file of the asset named `asset_name`, if the release has one.
pub fn checksum_asset<'a>(release: &'a Release, asset_name: &str) -> (r: Option<&'a Asset>)
    ensures
        match first_named_from(release.assets@, checksum_name(asset_name@), 0) {
            Some(i) => 0 <= i < release.assets@.len() && r == Some(&release.assets@[i]),
            None => r is None,
        },
{
    proof {
        lemma_first_named_from_in_range(release.assets@, checksum_name(asset_name@), 0);
    }
    let mut wanted = String::from_str(asset_name);
    wanted.append(".sha256");
    let mut k: usize = 0;
    while k < release.assets.len()
        invariant
            k <= release.assets@.len(),
            wanted@ == checksum_name(asset_name@),
            first_named_from(release.assets@, checksum_name(asset_name@), 0) == first_named_from(
                release.assets@,
                checksum_name(asset_name@),
                k as int,
            ),
        decreases release.assets@.len() - k,
    {
        if release.assets[k].name == wanted {
            return Some(&release.assets[k]);
        }
        k = k + 1;
    }
    None
}

/// Whether `c` has the Unicode `White_Space` property (the characters
/// `char::is_whitespace` accepts): tab to carriage return, space, next
/// line, no-break space, ogham space mark, the spaces U+2000 to U+200A,
/// line and paragraph separators, narrow no-break space, medium
/// mathematical space and ideographic space.
pub open spec fn white_space(c: char) -> bool {
    let n = c as u32;
    (0x09 <= n && n <= 0x0D) || n == 0x20 || n == 0x85 || n == 0xA0 || n == 0x1680 || (0x2000
        <= n && n <= 0x200A) || n == 0x2028 || n == 0x2029 || n == 0x202F || n == 0x205F || n
        == 0x3000
}

pub fn is_white_space(c: char) -> (r: bool)
    ensures
        r == white_space(c),
{
    let n = c as u32;
    (0x09 <= n && n <= 0x0D) || n == 0x20 || n == 0x85 || n == 0xA0 || n == 0x1680 || (0x2000
        <= n && n <= 0x200A) || n == 0x2028 || n == 0x2029 || n == 0x202F || n == 0x205F || n
        == 0x3000
}

/// The first word of `text`: after any leading white space, the characters
/// up to the next white space or the end (empty when there is none).
pub open spec fn first_word_from(text: Seq<char>, k: int) -> Seq<char>
    decreases text.len() - k,
{
    if k < 0 || k >= text.len() {
        Seq::empty()
    } else if white_space(text[k]) {
        first_word_from(text, k + 1)
    } else {
        word_at(text, k, k)
    }
}

/// The characters from `start` up to the first white space at or after `k`.
pub open spec fn word_at(text: Seq<char>, start: int, k: int) -> Seq<char>
    decreases text.len() - k,
{
    if k < start || k >= text.len() || white_space(text[k]) {
        text.subrange(start, if start <= k && k <= text.len() { k } else { start })
    } else {
        word_at(text, start, k + 1)
    }
}

/// The word read from `start` runs up to the first white space at or after
/// `k`, or to the end.
pub proof fn lemma_word_at_shape(text: Seq<char>, start: int, k: int)
    requires
        0 <= start <= k <= text.len(),
        forall|i: int| start <= i < k ==> !white_space(#[trigger] text[i]),
    ensures
        exists|e: int|
            k <= e <= text.len() && word_at(text, start, k) == text.subrange(start, e) && (forall|
                i: int,
            | start <= i < e ==> !white_space(#[trigger] text[i])) && (e == text.len()
                || white_space(text[e])),
    decreases text.len() - k,
{
    if k >= text.len() || white_space(text[k]) {
        assert(word_at(text, start, k) == text.subrange(start, k));
    } else {
        lemma_word_at_shape(text, start, k + 1);
    }
}

/// The first word of a text from `k`: the text skips white space from `k`
/// up to `s`, then the word runs from `s` up to `e`, where white space or
/// the end follows; the word is empty only when nothing but white space
/// follows `k`.
pub proof fn lemma_first_word_shape(text: Seq<char>, k: int)
    requires
        0 <= k <= text.len(),
    ensures
        exists|s: int, e: int|
            k <= s <= e <= text.len() && first_word_from(text, k) == text.subrange(s, e) && (forall|
                i: int,
            | k <= i < s ==> white_space(#[trigger] text[i])) && (forall|i: int|
                s <= i < e ==> !white_space(#[trigger] text[i])) && (e == text.len() || white_space(
                text[e],
            )) && (s < text.len() ==> s < e),
    decreases text.len() - k,
{
    if k >= text.len() {
        assert(first_word_from(text, k) =~= text.subrange(k, k));
        assert(k <= k <= k <= text.len());
    } else if white_space(text[k]) {
        lemma_first_word_shape(text, k + 1);
        let (s, e) = choose|s: int, e: int|
            k + 1 <= s <= e <= text.len() && first_word_from(text, k + 1) == text.subrange(s, e)
                && (forall|i: int| k + 1 <= i < s ==> white_space(#[trigger] text[i])) && (forall|
                i: int,
            | s <= i < e ==> !white_space(#[trigger] text[i])) && (e == text.len() || white_space(
                text[e],
            )) && (s < text.len() ==> s < e);
        assert(forall|i: int| k <= i < s ==> white_space(#[trigger] text[i]));
    } else {
        lemma_word_at_shape(text, k, k);
        let e = choose|e: int|
            k <= e <= text.len() && word_at(text, k, k) == text.subrange(k, e) && (forall|i: int|
                k <= i < e ==> !white_space(#[trigger] text[i])) && (e == text.len() || white_space(
                text[e],
            ));
        if e == k {
            assert(e < text.len());
            assert(white_space(text[e]));
        }
        assert(k <= k <= e <= text.len());
    }
}

/// The checksum a `.sha256` file gives: its first word.
pub fn first_word(text: &str) -> (w: String)
    ensures
        w@ == first_word_from(text@, 0),
{
    let chars = chars_of(text);
    let mut k: usize = 0;
    while k < chars.len() && is_white_space(chars[k])
        invariant
            k <= chars@.len(),
            chars@ == text@,
            first_word_from(text@, 0) == first_word_from(text@, k as int),
        decreases chars@.len() - k,
    {
        k = k + 1;
    }
    let start = k;
    let mut word = String::new();
    while k < chars.len() && !is_white_space(chars[k])
        invariant
            start <= k <= chars@.len(),
            chars@ == text@,
            start == chars@.len() || !white_space(chars@[start as int]) || start == k,
            first_word_from(text@, 0) == (if start < chars@.len() {
                word_at(text@, start as int, start as int)
            } else {
                Seq::<char>::empty()
            }),
            start < chars@.len() ==> word_at(text@, start as int, start as int) == word_at(
                text@,
                start as int,
                k as int,
            ),
            word@ == text@.subrange(start as int, k as int),
        decreases chars@.len() - k,
    {
        push_char(&mut word, chars[k]);
        assert(word@ =~= text@.subrange(start as int, k + 1));
        k = k + 1;
    }
    proof {
        if start == chars@.len() {
            assert(word@ =~= Seq::<char>::empty());
        }
    }
    word
}

/// Lower-case hexadecimal digits.
pub open spec fn lower_hex_digit(n: int) -> char {
    seq!['0', '1', '2', '3', '4', '5', '6', '7', '8', '9', 'a', 'b', 'c', 'd', 'e', 'f'][n]
}

/// Bytes as lower-case hexadecimal, two digits per byte, high digit first.
pub open spec fn lower_hex(bytes: Seq<u8>) -> Seq<char>
    decreases bytes.len(),
{
    if bytes.len() == 0 {
        Seq::empty()
    } else {
        lower_hex(bytes.drop_last()) + seq![
            lower_hex_digit(bytes.last() as int / 16),
            lower_hex_digit(bytes.last() as int % 16),
        ]
    }
}

/// Calls `hex::encode`. Trusted: the string is `lower_hex` of the bytes,
/// which is how that function writes them.
#[verifier::external_body]
fn hex_encode(bytes: &[u8]) -> (s: String)
    ensures
        s@ == lower_hex(bytes@),
{
    hex::encode(bytes)
}

/// A downloaded file passes its check when its SHA-256 digest, in
/// hexadecimal, equals the published checksum, letter case aside.
pub open spec fn checksum_accepted(digest: Seq<u8>, expected: Seq<char>) -> bool {
    lowercase(lower_hex(digest)) == lowercase(expected)
}

pub fn checksum_matches(digest: &[u8], expected: &str) -> (r: bool)
    ensures
        r == checksum_accepted(digest@, expected@),
{
    let actual = hex_encode(digest);
    let a = to_lowercase(actual.as_str());
    let e = to_lowercase(expected);
    chars_equal(&chars_of(a.as_str()), &chars_of(e.as_str()))
}

/// The SHA-256 digest of `data`.
pub uninterp spec fn sha256(data: Seq<u8>) -> Seq<u8>;

/// Calls `sha2::Sha256::digest`. Trusted: the result is the 32-byte digest
/// that `sha256` names for `data` (it depends on the bytes alone).
#[verifier::external_body]
fn sha256_digest(data: &[u8]) -> (d: Vec<u8>)
    ensures
        d@ == sha256(data@),
        d@.len() == 32,
{
    sha2::Sha256::digest(data).to_vec()
}

/// The SHA-256 digest of a download, in lower-case hexadecimal.
pub fn download_digest_hex(data: &[u8]) -> (s: String)
    ensures
        s@ == lower_hex(sha256(data@)),
{
    let digest = sha256_digest(data);
    hex_encode(digest.as_slice())
}

/// A download is accepted only when its SHA-256 digest matches the
/// published checksum, letter case aside.
pub fn download_accepted(data: &[u8], expected: &str) -> (r: bool)
    ensures
        r == checksum_accepted(sha256(data@), expected@),
{
    let digest = sha256_digest(data);
    checksum_matches(digest.as_slice(), expected)
}

} // verus!
