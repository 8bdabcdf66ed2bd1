use next_tablet_driver::update::{
    checksum_asset, checksum_matches, download_accepted, download_digest_hex, find_platform_asset,
    first_word, github_api_url, is_white_space, offered_release, Asset, Platform, Release,
};
use next_tablet_driver::version::Version;
use next_tablet_driver::VERSION;

fn asset(name: &str) -> Asset {
    Asset {
        name: name.to_string(),
        browser_download_url: format!("https://example.invalid/{}", name),
    }
}

fn release(tag: &str, names: &[&str]) -> Release {
    Release {
        tag_name: tag.to_string(),
        body: None,
        assets: names.iter().map(|n| asset(n)).collect(),
    }
}

#[test]
fn current_version_parses() {
    let v = Version::parse(VERSION).unwrap();
    assert_eq!(
        v,
        Version { major: 1, year: 26, day: 21, month: 3, patch: 2 }
    );
}

#[test]
fn version_parse_skips_leading_v() {
    let v = Version::parse("vv2.25.0101.10").unwrap();
    assert_eq!(v, Version { major: 2, year: 25, day: 1, month: 1, patch: 10 });
}

#[test]
fn version_parse_rejects_malformed_text() {
    assert_eq!(Version::parse("1.26.2103"), None);
    assert_eq!(Version::parse("1.26.2103.02.1"), None);
    assert_eq!(Version::parse("1.26.213.02"), None);
    assert_eq!(Version::parse("1.x.2103.02"), None);
    assert_eq!(Version::parse("1.26.21a3.02"), None);
    assert_eq!(Version::parse(""), None);
    assert_eq!(Version::parse("1.26.2103.4294967296"), None);
    assert_eq!(Version::parse("+1.26.2103.+2"), Some(Version { major: 1, year: 26, day: 21, month: 3, patch: 2 }));
}

#[test]
fn version_text_cut_inside_char_is_detected() {
    assert!(Version::cuts_inside_char("1.26.2é3.02"));
    assert!(Version::cuts_inside_char("1.26.€5.02"));
    assert!(!Version::cuts_inside_char("1.26.é12.02"));
    assert!(!Version::cuts_inside_char("1.26.2103.02"));
    assert!(!Version::cuts_inside_char("x.26.2é3.02"));
    assert_eq!(Version::parse("1.26.é12.02"), None);
}

#[test]
fn version_order_compares_fields_in_order() {
    let a = Version { major: 1, year: 26, day: 21, month: 3, patch: 2 };
    let b = Version { major: 1, year: 26, day: 22, month: 1, patch: 0 };
    assert!(b.is_newer_than(&a));
    assert!(!a.is_newer_than(&b));
    assert!(!a.is_newer_than(&a));
    let c = Version { major: 2, year: 0, day: 0, month: 0, patch: 0 };
    assert!(c.is_newer_than(&b));
    assert_eq!(b.is_newer_than(&a), b > a);
}

#[test]
fn release_offered_when_tag_differs() {
    let r = offered_release(release("1.26.2103.03", &[]), VERSION);
    assert_eq!(r.map(|r| r.tag_name), Some("1.26.2103.03".to_string()));
    assert!(offered_release(release("1.26.2103.02", &[]), VERSION).is_none());
    assert!(offered_release(release("1.25.3112.09", &[]), VERSION).is_some());
    assert!(offered_release(release("x", &[]), VERSION).is_some());
    assert!(offered_release(release("v1.26.2103.02", &[]), VERSION).is_some());
}

#[test]
fn github_url_names_latest_release() {
    assert_eq!(
        github_api_url(),
        "https://api.github.com/repos/Next-Tablet-Driver/NextTabletDriver/releases/latest"
    );
}

#[test]
fn windows_prefers_first_exe() {
    let r = release("v1", &["notes.txt", "setup.exe", "other.exe"]);
    assert_eq!(find_platform_asset(&r, Platform::Windows).unwrap().name, "setup.exe");
    let r = release("v1", &["a.tar.gz", "b.AppImage"]);
    assert_eq!(find_platform_asset(&r, Platform::Windows).unwrap().name, "a.tar.gz");
}

#[test]
fn linux_prefers_appimage_then_tarball() {
    let r = release("v1", &["setup.exe", "x.tar.gz", "x.AppImage"]);
    assert_eq!(find_platform_asset(&r, Platform::Linux).unwrap().name, "x.AppImage");
    let r = release("v1", &["setup.exe", "x.tar.gz"]);
    assert_eq!(find_platform_asset(&r, Platform::Linux).unwrap().name, "x.tar.gz");
    let r = release("v1", &["setup.exe"]);
    assert_eq!(find_platform_asset(&r, Platform::Linux).unwrap().name, "setup.exe");
    let r = release("v1", &["x.AppImage"]);
    assert_eq!(find_platform_asset(&r, Platform::Other).unwrap().name, "x.AppImage");
}

#[test]
fn missing_assets_give_platform_messages() {
    let r = release("v1", &[]);
    assert_eq!(
        find_platform_asset(&r, Platform::Windows).err().unwrap(),
        "No suitable installer asset found in release"
    );
    assert_eq!(
        find_platform_asset(&r, Platform::Linux).err().unwrap(),
        "No suitable Linux asset found in release"
    );
    assert_eq!(
        find_platform_asset(&r, Platform::Other).err().unwrap(),
        "No assets found in release"
    );
}

#[test]
fn checksum_file_sits_beside_asset() {
    let r = release("v1", &["setup.exe.sha256", "setup.exe", "other.sha256"]);
    assert_eq!(checksum_asset(&r, "setup.exe").unwrap().name, "setup.exe.sha256");
    assert!(checksum_asset(&r, "x.AppImage").is_none());
}

#[test]
fn checksum_file_first_word() {
    assert_eq!(first_word("  ab12cd  setup.exe\n"), "ab12cd");
    assert_eq!(first_word("deadbeef"), "deadbeef");
    assert_eq!(first_word("\t\n "), "");
    assert_eq!(first_word(""), "");
}

#[test]
fn checksum_compares_hex_ignoring_case() {
    let digest = [0xDE, 0xAD, 0x01, 0xF0];
    assert!(checksum_matches(&digest, "dead01f0"));
    assert!(checksum_matches(&digest, "DEAD01F0"));
    assert!(!checksum_matches(&digest, "dead01f1"));
    assert!(!checksum_matches(&digest, "dead01f0 "));
    assert!(checksum_matches(&[], ""));
}

#[test]
fn download_checked_against_sha256() {
    assert_eq!(
        download_digest_hex(b"abc"),
        "ba7816bf8f01cfea414140de5dae2223b00361a396177a9cb410ff61f20015ad"
    );
    assert!(download_accepted(
        b"abc",
        "BA7816BF8F01CFEA414140DE5DAE2223B00361A396177A9CB410FF61F20015AD"
    ));
    assert!(!download_accepted(
        b"abd",
        "ba7816bf8f01cfea414140de5dae2223b00361a396177a9cb410ff61f20015ad"
    ));
    assert_eq!(
        download_digest_hex(b""),
        "e3b0c44298fc1c149afbf4c8996fb92427ae41e4649b934ca495991b7852b855"
    );
}

#[test]
fn white_space_matches_std() {
    for c in (0u32..=0x10FFFF).filter_map(char::from_u32) {
        assert_eq!(is_white_space(c), c.is_whitespace(), "{:?}", c);
    }
}
