use chadd_updater::fetch::{fetch_result, FetchError, FetchReply, HttpStatus};
use chadd_updater::release::{GitHubAsset, GitHubRelease};
use chadd_updater::update::{check, UpdateInfo};

fn asset(name: &str, url: &str, size: u64) -> GitHubAsset {
    GitHubAsset { name: name.to_string(), browser_download_url: url.to_string(), size }
}

fn release(tag: &str, assets: Vec<GitHubAsset>) -> GitHubRelease {
    GitHubRelease {
        tag_name: tag.to_string(),
        name: "Release".to_string(),
        body: "What changed".to_string(),
        html_url: "https://example.invalid/release".to_string(),
        published_at: "2024-01-01T00:00:00Z".to_string(),
        prerelease: false,
        draft: false,
        assets,
    }
}

fn failed(current: &str, error: &str) -> UpdateInfo {
    UpdateInfo {
        available: false,
        current_version: current.to_string(),
        latest_version: "Unknown".to_string(),
        download_url: None,
        release_notes: None,
        error: Some(format!("Failed to check for updates: {}", error)),
        asset_size: None,
    }
}

#[test]
fn a_newer_release_is_available() {
    let assets = vec![
        asset("readme.txt", "https://example.invalid/readme.txt", 10),
        asset("app-setup-x64.exe", "https://example.invalid/app-setup-x64.exe", 2048),
    ];
    let info = check("1.2.3", Ok(release("v1.3.0", assets)));
    assert_eq!(
        info,
        UpdateInfo {
            available: true,
            current_version: "1.2.3".to_string(),
            latest_version: "1.3.0".to_string(),
            download_url: Some("https://example.invalid/app-setup-x64.exe".to_string()),
            release_notes: Some("What changed".to_string()),
            error: None,
            asset_size: Some(2048),
        }
    );
}

#[test]
fn an_equal_or_older_release_is_not_available() {
    let equal = check("1.3.0", Ok(release("v1.3.0", vec![])));
    assert!(!equal.available);
    assert_eq!(equal.error, None);
    assert_eq!(equal.latest_version, "1.3.0");
    let shorter = check("1.3.0", Ok(release("v1.3", vec![])));
    assert!(!shorter.available);
    let older = check("2.0.0", Ok(release("v1.9.9", vec![])));
    assert!(!older.available);
    assert_eq!(older.latest_version, "1.9.9");
}

#[test]
fn a_tag_without_numbers_is_never_available() {
    let info = check("1.0.0", Ok(release("nightly", vec![])));
    assert!(!info.available);
    assert_eq!(info.latest_version, "nightly");
    assert_eq!(info.error, None);
}

#[test]
fn every_leading_marker_is_stripped_from_the_tag() {
    assert_eq!(check("1.0", Ok(release("vv2.0", vec![]))).latest_version, "2.0");
    assert!(check("1.0", Ok(release("vv2.0", vec![]))).available);
    assert_eq!(check("1.0", Ok(release("2.0", vec![]))).latest_version, "2.0");
    assert_eq!(check("1.0", Ok(release("v", vec![]))).latest_version, "");
}

#[test]
fn a_release_without_installer_has_no_address_and_no_size() {
    let info = check("1.0", Ok(release("v2.0", vec![asset("app.zip", "https://example.invalid/app.zip", 7)])));
    assert!(info.available);
    assert_eq!(info.download_url, None);
    assert_eq!(info.asset_size, None);
    assert_eq!(info.release_notes, Some("What changed".to_string()));
}

#[test]
fn address_and_size_come_from_the_same_asset() {
    let shared = "https://example.invalid/download";
    let assets = vec![asset("checksums.txt", shared, 1), asset("app-setup.exe", shared, 4096)];
    let info = check("1.0", Ok(release("v2.0", assets)));
    assert_eq!(info.download_url, Some(shared.to_string()));
    assert_eq!(info.asset_size, Some(4096));
}

#[test]
fn the_first_installer_gives_address_and_size() {
    let assets = vec![
        asset("a-setup.exe", "https://example.invalid/a", 11),
        asset("b-setup.exe", "https://example.invalid/b", 22),
    ];
    let info = check("1.0", Ok(release("v1.0", assets)));
    assert_eq!(info.download_url, Some("https://example.invalid/a".to_string()));
    assert_eq!(info.asset_size, Some(11));
}

#[test]
fn a_failed_fetch_is_reported_in_the_result() {
    let info = check("1.2.3", Err(FetchError::AuthFailed));
    assert_eq!(
        info,
        failed(
            "1.2.3",
            "Authentication failed. Check your GitHub token permissions for private repositories."
        )
    );
}

#[test]
fn a_network_failure_gives_a_result() {
    let reply = FetchReply::NoResponse("error sending request: connection refused".to_string());
    let info = check("1.2.3", fetch_result(reply, false));
    assert_eq!(info, failed("1.2.3", "error sending request: connection refused"));
}

#[test]
fn a_dns_failure_gives_a_result() {
    let reply = FetchReply::NoResponse("dns error: failed to lookup address information".to_string());
    let info = check("0.9", fetch_result(reply, true));
    assert_eq!(info, failed("0.9", "dns error: failed to lookup address information"));
}

#[test]
fn a_malformed_body_gives_a_result() {
    let reply = FetchReply::Undecodable("error decoding response body: expected value at line 1 column 1".to_string());
    let info = check("1.2.3", fetch_result(reply, false));
    assert_eq!(info, failed("1.2.3", "error decoding response body: expected value at line 1 column 1"));
}

#[test]
fn a_missing_repository_gives_a_result() {
    let status = HttpStatus::from_u16(404).unwrap();
    let anonymous = check("1.0", fetch_result(FetchReply::Failure(status, None), false));
    assert_eq!(
        anonymous,
        failed("1.0", "Repository not found or releases are private. This is normal if you haven't created any releases yet, or if releases are private and no token is configured.")
    );
    let authorized = check("1.0", fetch_result(FetchReply::Failure(status, None), true));
    assert_eq!(
        authorized,
        failed("1.0", "Repository not found or no releases available. Check repository URL and ensure releases exist.")
    );
}

#[test]
fn a_server_error_gives_a_result() {
    let status = HttpStatus::from_u16(503).unwrap();
    let info = check("1.0", fetch_result(FetchReply::Failure(status, Some("try later".to_string())), false));
    assert_eq!(info, failed("1.0", "HTTP error 503 Service Unavailable: try later"));
}

#[test]
fn error_and_availability_exclude_each_other() {
    let outcomes = vec![
        check("1.0", Ok(release("v2.0", vec![]))),
        check("1.0", Ok(release("v1.0", vec![]))),
        check("1.0", Err(FetchError::NotFoundOrPrivate)),
        check("1.0", Err(FetchError::Decode("bad".to_string()))),
    ];
    for info in outcomes {
        assert!(!(info.available && info.error.is_some()));
        if info.error.is_some() {
            assert_eq!(info.latest_version, "Unknown");
            assert_eq!(info.download_url, None);
            assert_eq!(info.asset_size, None);
            assert_eq!(info.release_notes, None);
        }
    }
}
