use desktop_shell::{get_platform, is_tauri, platform_from_target, Platform};

#[test]
fn known_targets_have_their_labels() {
    assert_eq!(get_platform("macos"), "macOS");
    assert_eq!(get_platform("ios"), "iOS");
    assert_eq!(get_platform("android"), "Android");
    assert_eq!(get_platform("windows"), "Windows");
    assert_eq!(get_platform("linux"), "Linux");
}

#[test]
fn known_targets_are_never_unknown() {
    for os in ["macos", "ios", "android", "windows", "linux"] {
        assert_ne!(get_platform(os), "Unknown");
        assert_ne!(platform_from_target(os), Platform::Unknown);
    }
}

#[test]
fn unlisted_targets_are_unknown() {
    for os in ["freebsd", "openbsd", "netbsd", "redox", "fuchsia", "", "Linux", "macOS", "linux "] {
        assert_eq!(get_platform(os), "Unknown");
        assert_eq!(platform_from_target(os), Platform::Unknown);
    }
}

#[test]
fn targets_resolve_to_platforms() {
    assert_eq!(platform_from_target("macos"), Platform::MacOs);
    assert_eq!(platform_from_target("ios"), Platform::Ios);
    assert_eq!(platform_from_target("android"), Platform::Android);
    assert_eq!(platform_from_target("windows"), Platform::Windows);
    assert_eq!(platform_from_target("linux"), Platform::Linux);
}

#[test]
fn platform_labels() {
    assert_eq!(Platform::MacOs.label(), "macOS");
    assert_eq!(Platform::Ios.label(), "iOS");
    assert_eq!(Platform::Android.label(), "Android");
    assert_eq!(Platform::Windows.label(), "Windows");
    assert_eq!(Platform::Linux.label(), "Linux");
    assert_eq!(Platform::Unknown.label(), "Unknown");
}

#[test]
fn capability_flag_is_always_true() {
    for _ in 0..100 {
        assert!(is_tauri());
    }
    let _ = get_platform("linux");
    assert!(is_tauri());
}

#[test]
fn repeated_queries_agree() {
    for os in ["macos", "ios", "android", "windows", "linux", "haiku"] {
        let first = get_platform(os);
        let flag = is_tauri();
        for _ in 0..10 {
            assert_eq!(get_platform(os), first);
            assert_eq!(is_tauri(), flag);
        }
    }
}
