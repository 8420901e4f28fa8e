use qbit_killswitch::updater::{
    asset_suffix, check_download, check_for_update, checksum_verdict, ends_with, expected_checksum,
    plan_update, update_decision, verify_checksum,
};

const ABC_SHA256: &str = "ba7816bf8f01cfea414140de5dae2223b00361a396177a9cb410ff61f20015ad";

#[test]
fn newer_release_is_reported() {
    assert_eq!(check_for_update("v0.5.0", "0.4.0"), Ok(Some("0.5.0".to_string())));
    assert_eq!(check_for_update("1.0.0", "0.4.0"), Ok(Some("1.0.0".to_string())));
}

#[test]
fn current_or_older_release_is_not() {
    assert_eq!(check_for_update("v0.4.0", "0.4.0"), Ok(None));
    assert_eq!(check_for_update("v0.3.9", "0.4.0"), Ok(None));
    assert_eq!(check_for_update("v0.4.0-rc.1", "0.4.0"), Ok(None));
}

#[test]
fn unparsable_versions_are_errors() {
    assert_eq!(check_for_update("vlatest", "0.4.0"), Err("Parsing remote version 'latest'".to_string()));
    assert_eq!(check_for_update("v1.0.0", "dev"), Err("Parsing current version".to_string()));
}

#[test]
fn asset_suffix_per_platform() {
    assert_eq!(asset_suffix("windows", "x86_64"), "windows-x64.exe");
    assert_eq!(asset_suffix("linux", "x86_64"), "linux-x64");
    assert_eq!(asset_suffix("macos", "aarch64"), "macos-arm64");
    assert_eq!(asset_suffix("linux", "aarch64"), "linux-x64");
    assert_eq!(asset_suffix("windows", "aarch64"), "linux-x64");
}

#[test]
fn ends_with_suffix() {
    assert!(ends_with("qbit-killswitch-linux-x64", "linux-x64"));
    assert!(!ends_with("x64", "linux-x64"));
    assert!(ends_with("abc", ""));
}

fn names(list: &[&str]) -> Vec<String> {
    list.iter().map(|s| s.to_string()).collect()
}

#[test]
fn plan_picks_first_binary_and_checksums() {
    let n = names(&["qk-windows-x64.exe", "checksums.txt", "qk-linux-x64", "qk2-linux-x64"]);
    assert_eq!(plan_update(&n, "linux-x64"), Ok((2, Some(1))));
    let n = names(&["qk-linux-x64"]);
    assert_eq!(plan_update(&n, "linux-x64"), Ok((0, None)));
}

#[test]
fn plan_without_binary_fails() {
    let n = names(&["checksums.txt"]);
    assert_eq!(
        plan_update(&n, "macos-arm64"),
        Err("No release asset found for platform suffix 'macos-arm64'".to_string())
    );
}

#[test]
fn checksum_lookup_in_sha256sum_output() {
    let text = "AAAA  qk-windows-x64.exe\r\nBBBB  qk-linux-x64\nCCCC qk-linux-x64\n";
    assert_eq!(expected_checksum(text, "qk-linux-x64"), Some("bbbb".to_string()));
    assert_eq!(expected_checksum(text, "qk-windows-x64.exe"), Some("aaaa".to_string()));
    assert_eq!(expected_checksum(text, "qk-macos-arm64"), None);
    assert_eq!(expected_checksum("", "x"), None);
    assert_eq!(expected_checksum("   \nDDDD x", "x"), Some("dddd".to_string()));
}

#[test]
fn checksum_matches_digest_of_bytes() {
    assert_eq!(verify_checksum(b"abc", &ABC_SHA256.to_string()), Ok(()));
    assert_eq!(
        verify_checksum(b"abd", &ABC_SHA256.to_string()),
        Err(format!(
            "SHA-256 mismatch — download may be corrupt.\nExpected: {}\nGot:      {}",
            ABC_SHA256, "a52d159f262b2c6ddb724a61840befc36eb30c88877a4030b65cbe86298449c9"
        ))
    );
}

#[test]
fn download_check_uses_checksums_when_listed() {
    let sums = format!("{}  qk-linux-x64\n", ABC_SHA256.to_uppercase());
    assert_eq!(check_download(b"abc", Some(&sums), "qk-linux-x64"), Ok(()));
    assert!(check_download(b"xyz", Some(&sums), "qk-linux-x64").is_err());
    assert_eq!(check_download(b"xyz", Some(&sums), "other"), Ok(()));
    assert_eq!(check_download(b"xyz", None, "qk-linux-x64"), Ok(()));
}

#[test]
fn update_decision_follows_the_version_results() {
    assert_eq!(update_decision("0.5.0".to_string(), true, true, true), Ok(Some("0.5.0".to_string())));
    assert_eq!(update_decision("0.5.0".to_string(), true, true, false), Ok(None));
    assert_eq!(update_decision("x".to_string(), false, true, true), Err("Parsing remote version 'x'".to_string()));
    assert_eq!(update_decision("0.5.0".to_string(), true, false, true), Err("Parsing current version".to_string()));
}

#[test]
fn checksum_verdict_compares_digests() {
    assert_eq!(checksum_verdict(&"ab".to_string(), &"ab".to_string()), Ok(()));
    assert_eq!(
        checksum_verdict(&"ab".to_string(), &"cd".to_string()),
        Err("SHA-256 mismatch — download may be corrupt.\nExpected: cd\nGot:      ab".to_string())
    );
}
