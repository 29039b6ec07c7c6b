use tempest::release::release_from_body;
use tempest::release::{
    archive_file_name, checksum_matches, expected_checksum, release_arch, select_release,
    ArchiveDigest, ReleaseAsset,
};
use tempest::TempestError;

fn assets(list: &[(&str, &str)]) -> Option<Vec<ReleaseAsset>> {
    Some(list.iter().map(|(n, u)| ReleaseAsset { name: n.to_string(), url: u.to_string() }).collect())
}

#[test]
fn picks_generic_archive_on_x86_64() {
    let a = assets(&[
        ("GE-Proton10-1.sha512sum", "s1"),
        ("GE-Proton10-1.tar.gz", "a1"),
        ("GE-Proton10-1-aarch64.tar.gz", "arm"),
    ]);
    let c = select_release(Some("GE-Proton10-1".into()), a, "x86_64").ok().unwrap();
    assert_eq!(c.tag, "GE-Proton10-1");
    assert_eq!(c.archive_url, "a1");
    assert_eq!(c.checksum_url.as_deref(), Some("s1"));
}

#[test]
fn arch_specific_assets_win() {
    let a = assets(&[
        ("GE-Proton10-1.tar.gz", "generic"),
        ("GE-Proton10-1-aarch64.sha512sum", "armsum"),
        ("GE-Proton10-1-aarch64.tar.gz", "arm"),
    ]);
    let c = select_release(Some("t".into()), a.clone(), "aarch64").ok().unwrap();
    assert_eq!(c.archive_url, "arm");
    assert_eq!(c.checksum_url.as_deref(), Some("armsum"));
    let c = select_release(Some("t".into()), a, "riscv64").ok().unwrap();
    assert_eq!(c.archive_url, "generic");
    assert_eq!(c.checksum_url, None);
}

#[test]
fn release_errors() {
    assert_eq!(select_release(None, assets(&[]), "x86_64").err(), Some(TempestError::Other("no tag_name in release".into())));
    assert_eq!(select_release(Some("t".into()), None, "x86_64").err(), Some(TempestError::Other("no assets in release".into())));
    assert_eq!(
        select_release(Some("t".into()), assets(&[("x.sha512sum", "s")]), "x86_64").err(),
        Some(TempestError::Other("no GE-Proton archive asset found".into()))
    );
    assert_eq!(
        select_release(Some("t".into()), assets(&[("x.tar.gz", "")]), "x86_64").err(),
        Some(TempestError::Other("archive asset has no download URL".into()))
    );
    assert_eq!(
        select_release(Some("t".into()), assets(&[("x-AARCH64.tar.gz", "u")]), "x86_64").err(),
        Some(TempestError::Other("no GE-Proton archive asset found".into()))
    );
}

#[test]
fn arch_names() {
    assert_eq!(release_arch("aarch64"), "aarch64");
    assert_eq!(release_arch("x86"), "x86_64");
    assert_eq!(archive_file_name("GE-Proton10-1"), "GE-Proton10-1.tar.gz");
}

#[test]
fn checksum_files() {
    assert_eq!(expected_checksum("  ABCdef  file.tar.gz\n"), Some("abcdef".to_string()));
    assert_eq!(expected_checksum(" \n\t "), None);
    assert_eq!(checksum_matches("ABC  f", "abc"), Ok(true));
    assert_eq!(checksum_matches("ABC  f", "abd"), Ok(false));
    assert_eq!(checksum_matches("", "abc"), Err(TempestError::Other("empty checksum file".into())));
}

#[test]
fn sha512_of_known_input() {
    let mut d = ArchiveDigest::new();
    d.update(b"ab");
    d.update(b"c");
    assert_eq!(
        d.finish_hex(),
        "ddaf35a193617abacc417349ae20413112e6fa4e89a97ea20a9eeee64b55d39a2192992a274fc1a836ba3c23a3feebbd454d4423643ce80e2a9ac94fa54ca49f"
    );
}

#[test]
fn release_from_api_body() {
    let body = r#"{"tag_name":"GE-Proton10-1","assets":[
        {"name":"GE-Proton10-1.sha512sum","browser_download_url":"https://x/s"},
        {"name":"GE-Proton10-1.tar.gz","browser_download_url":"https://x/a"},
        {"name":42}]}"#;
    let c = release_from_body(body, "x86_64").ok().unwrap();
    assert_eq!(c.tag, "GE-Proton10-1");
    assert_eq!(c.archive_url, "https://x/a");
    assert_eq!(c.checksum_url, Some("https://x/s".to_string()));
    assert_eq!(
        release_from_body("not json", "x86_64").err(),
        Some(TempestError::NetworkError("error decoding response body".into()))
    );
    assert_eq!(
        release_from_body(r#"{"assets":[]}"#, "x86_64").err(),
        Some(TempestError::Other("no tag_name in release".into()))
    );
    assert_eq!(
        release_from_body(r#"{"tag_name":"t"}"#, "x86_64").err(),
        Some(TempestError::Other("no assets in release".into()))
    );
    assert_eq!(
        release_from_body(r#"{"tag_name":"t","assets":[{"name":"x.tar.gz"}]}"#, "x86_64").err(),
        Some(TempestError::Other("archive asset has no download URL".into()))
    );
}
