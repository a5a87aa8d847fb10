use evolve_desktop::platform::{
    check_webview2, probe_finding, webview2_path, PlatformProbe, ProbeFinding,
    WEBVIEW2_PATH_COUNT,
};

#[test]
fn vacuous_probe_is_always_available() {
    assert!(check_webview2(PlatformProbe::Vacuous));
    for found in [vec![], vec![false, false], vec![true, false], vec![false, true]] {
        let finding = probe_finding(PlatformProbe::Vacuous, &found);
        assert_eq!(finding, ProbeFinding::NotRequired);
        assert!(finding.available());
    }
}

#[test]
fn windows_probe_with_neither_path_is_missing() {
    let finding = probe_finding(PlatformProbe::Windows, &vec![false, false]);
    assert_eq!(finding, ProbeFinding::Missing);
    assert!(!finding.available());
}

#[test]
fn windows_probe_reports_first_existing_path() {
    assert_eq!(
        probe_finding(PlatformProbe::Windows, &vec![true, false]),
        ProbeFinding::FoundAt(0)
    );
    assert_eq!(
        probe_finding(PlatformProbe::Windows, &vec![false, true]),
        ProbeFinding::FoundAt(1)
    );
    assert_eq!(
        probe_finding(PlatformProbe::Windows, &vec![true, true]),
        ProbeFinding::FoundAt(0)
    );
    assert!(probe_finding(PlatformProbe::Windows, &vec![false, true]).available());
}

#[test]
fn windows_probe_with_no_paths_is_missing() {
    assert_eq!(probe_finding(PlatformProbe::Windows, &vec![]), ProbeFinding::Missing);
}

#[test]
fn windows_probe_follows_the_file_system() {
    let mut any = false;
    for i in 0..WEBVIEW2_PATH_COUNT {
        any = any || std::path::Path::new(webview2_path(i)).exists();
    }
    assert_eq!(check_webview2(PlatformProbe::Windows), any);
}

#[test]
fn installation_paths_are_fixed() {
    assert_eq!(WEBVIEW2_PATH_COUNT, 2);
    assert_eq!(webview2_path(0), "C:\\Program Files (x86)\\Microsoft\\EdgeWebView\\Application");
    assert_eq!(webview2_path(1), "C:\\Program Files\\Microsoft\\EdgeWebView\\Application");
}
