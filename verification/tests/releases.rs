use helium_updater::github::{
    extract_chromium_version, fetch_latest_release, friendly_timestamp, GitHubAsset, GitHubRelease,
    ReleaseAsset, ReleaseInfo,
};
use helium_updater::helium::NativeArchitecture;

fn asset(name: &str) -> ReleaseAsset {
    ReleaseAsset {
        name: name.to_string(),
        digest: None,
        download_url: format!("https://example.invalid/{name}"),
    }
}

fn release(names: &[&str]) -> ReleaseInfo {
    ReleaseInfo {
        tag_name: "0.4.5.1".to_string(),
        published_at: "2025-06-01 10:00:00 UTC".to_string(),
        chromium_version: Some("137.0.7151.68".to_string()),
        assets: names.iter().map(|n| asset(n)).collect(),
    }
}

#[test]
fn installer_prefers_rank_then_name() {
    let r = release(&[
        "helium_0.4.5.1_x64.zip",
        "helium_0.4.5.1_arm64-installer.exe",
        "helium_0.4.5.1_x64-installer.exe",
        "helium_0.4.5.1_x64.exe",
        "helium_0.4.5.1_x64-installer-debug.exe",
    ]);
    let chosen = r.select_installer_asset(NativeArchitecture::X64).unwrap();
    assert_eq!(chosen.name, "helium_0.4.5.1_x64-installer.exe");
    let chosen = r.select_installer_asset(NativeArchitecture::Arm64).unwrap();
    assert_eq!(chosen.name, "helium_0.4.5.1_arm64-installer.exe");
}

#[test]
fn installer_ties_go_to_the_name_sorting_first() {
    let r = release(&["b-installer.EXE", "a-installer.exe", "c.exe"]);
    let chosen = r.select_installer_asset(NativeArchitecture::X64).unwrap();
    assert_eq!(chosen.name, "a-installer.exe");
    // upper case sorts before lower case, as strings compare
    let r = release(&["setup.exe", "Setup.exe"]);
    let chosen = r.select_installer_asset(NativeArchitecture::X64).unwrap();
    assert_eq!(chosen.name, "Setup.exe");
}

#[test]
fn installer_missing_is_an_error() {
    let r = release(&["helium.zip", "helium-symbols.exe", "Debug.exe"]);
    assert_eq!(
        r.select_installer_asset(NativeArchitecture::X64).unwrap_err(),
        "could not find a matching Helium Windows installer asset"
    );
    let r = release(&[]);
    assert!(r.select_installer_asset(NativeArchitecture::Arm64).is_err());
}

#[test]
fn installer_keeps_digest_and_url() {
    let mut r = release(&["x64-installer.exe"]);
    r.assets[0].digest = Some("sha256:abc".to_string());
    let chosen = r.select_installer_asset(NativeArchitecture::X64).unwrap();
    assert_eq!(chosen.digest.as_deref(), Some("sha256:abc"));
    assert_eq!(chosen.download_url, "https://example.invalid/x64-installer.exe");
}

#[test]
fn timestamps_are_shown_friendly() {
    assert_eq!(friendly_timestamp("2025-06-01T10:20:30Z"), "2025-06-01 10:20:30 UTC");
    assert_eq!(friendly_timestamp(""), "");
}

#[test]
fn chromium_version_comes_from_first_mentioning_line() {
    let body = "Helium 0.4.5.1\r\n\r\n- Updated Chromium to 137.0.7151.68\r\n- Chromium 1.2 mention";
    assert_eq!(extract_chromium_version(body), Some("137.0.7151.68".to_string()));
    assert_eq!(extract_chromium_version("CHROMIUM 9.8\nnothing"), Some("9.8".to_string()));
    assert_eq!(extract_chromium_version("chromium without version\n1.2.3"), None);
    assert_eq!(extract_chromium_version(""), None);
}

fn github(tag: &str) -> GitHubRelease {
    GitHubRelease {
        tag_name: tag.to_string(),
        published_at: "2025-06-01T10:20:30Z".to_string(),
        body: "Chromium 137.0.7151.68".to_string(),
        assets: vec![GitHubAsset {
            name: "helium-installer.exe".to_string(),
            digest: Some("sha256:00".to_string()),
            browser_download_url: "https://example.invalid/h.exe".to_string(),
        }],
    }
}

#[test]
fn release_is_read_from_github() {
    let info = fetch_latest_release(github("v0.4.5.1")).unwrap();
    assert_eq!(info.tag_name, "0.4.5.1");
    assert_eq!(info.published_at, "2025-06-01 10:20:30 UTC");
    assert_eq!(info.chromium_version.as_deref(), Some("137.0.7151.68"));
    assert_eq!(info.assets.len(), 1);
    assert_eq!(info.assets[0].name, "helium-installer.exe");
    assert_eq!(info.assets[0].digest.as_deref(), Some("sha256:00"));
    assert_eq!(info.assets[0].download_url, "https://example.invalid/h.exe");
}

#[test]
fn release_tag_without_version_is_kept_and_blank_is_refused() {
    let info = fetch_latest_release(github("nightly")).unwrap();
    assert_eq!(info.tag_name, "nightly");
    assert_eq!(
        fetch_latest_release(github(" \t")).unwrap_err(),
        "GitHub returned an empty release tag"
    );
    assert!(fetch_latest_release(github("")).is_err());
}

#[test]
fn installer_choice_does_not_depend_on_order_of_distinct_names() {
    let names = ["z-installer-x64.exe", "a-x64.exe", "b-installer.exe", "a-installer-amd64.exe"];
    let forward = release(&names).select_installer_asset(NativeArchitecture::X64).unwrap();
    let mut reversed = names.to_vec();
    reversed.reverse();
    let backward = release(&reversed).select_installer_asset(NativeArchitecture::X64).unwrap();
    assert_eq!(forward.name, "a-installer-amd64.exe");
    assert_eq!(backward.name, forward.name);
}
