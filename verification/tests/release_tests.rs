use chadd_updater::release::{
    find_windows_installer, installer_index, looks_like_installer, GitHubAsset,
};

fn asset(name: &str, size: u64) -> GitHubAsset {
    GitHubAsset {
        name: name.to_string(),
        browser_download_url: format!("https://example.invalid/download/{}", name),
        size,
    }
}

#[test]
fn the_installer_among_other_files_is_selected() {
    let assets = vec![asset("readme.txt", 1), asset("app-setup-x64.exe", 2), asset("app.zip", 3)];
    assert_eq!(
        find_windows_installer(&assets),
        Some("https://example.invalid/download/app-setup-x64.exe".to_string())
    );
    assert_eq!(installer_index(&assets), Some(1));
}

#[test]
fn the_first_match_in_list_order_wins() {
    let assets = vec![
        asset("notes.md", 1),
        asset("tool-installer.exe", 2),
        asset("app-setup.exe", 3),
        asset("app-x64.exe", 4),
    ];
    assert_eq!(installer_index(&assets), Some(1));
    assert_eq!(
        find_windows_installer(&assets),
        Some("https://example.invalid/download/tool-installer.exe".to_string())
    );
}

#[test]
fn no_installer_means_no_selection() {
    assert_eq!(find_windows_installer(&[]), None);
    assert_eq!(installer_index(&[]), None);
    let assets = vec![asset("readme.txt", 1), asset("app.exe", 2), asset("setup.zip", 3)];
    assert_eq!(find_windows_installer(&assets), None);
    assert_eq!(installer_index(&assets), None);
}

#[test]
fn names_are_matched_in_lowercase() {
    assert!(looks_like_installer("APP-SETUP.EXE"));
    assert!(looks_like_installer("App-Installer.Exe"));
    assert!(looks_like_installer("APP-X64.EXE"));
    let assets = vec![asset("README.TXT", 1), asset("CHADD-SETUP.EXE", 2)];
    assert_eq!(installer_index(&assets), Some(1));
}

#[test]
fn an_installer_name_needs_the_extension_and_a_keyword() {
    assert!(looks_like_installer("setup.exe"));
    assert!(looks_like_installer("installer.exe"));
    assert!(looks_like_installer("x64.exe"));
    assert!(looks_like_installer("my-app_1.2.3_x64-setup.exe"));
    assert!(!looks_like_installer("app.exe"));
    assert!(!looks_like_installer(".exe"));
    assert!(!looks_like_installer("setup"));
    assert!(!looks_like_installer("setup.exe.zip"));
    assert!(!looks_like_installer("setup.msi"));
    assert!(!looks_like_installer("x86.exe"));
    assert!(!looks_like_installer(""));
}

#[test]
fn selection_agrees_with_a_plain_search() {
    let names = ["a.txt", "Setup.EXE", "b-x64.exe", "c.exe", "INSTALLER.exe", "d.zip"];
    for start in 0..names.len() {
        let assets: Vec<GitHubAsset> = names[start..].iter().map(|n| asset(n, 1)).collect();
        let expected = assets
            .iter()
            .find(|a| {
                let n = a.name.to_lowercase();
                n.ends_with(".exe") && (n.contains("setup") || n.contains("installer") || n.contains("x64"))
            })
            .map(|a| a.browser_download_url.clone());
        assert_eq!(find_windows_installer(&assets), expected);
    }
}
