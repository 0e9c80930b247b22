//! Candidate paths, store-path resolution and launch strategies.

use antigravity_agent::paths::{
    aggregate_launch_failures, bundle_info_plist, bundle_macos_dir, data_dir_for_os,
    data_path_candidate, detect_antigravity_executable, fallback_commands,
    find_antigravity_installations, get_antigravity_db_path, get_antigravity_linux_paths,
    get_antigravity_macos_paths, get_antigravity_windows_paths, is_antigravity_available,
    launch_strategies_for_path, macos_bundle_is_valid, validate_antigravity_path,
    validate_data_path, validate_executable_path, OsKind,
};

#[test]
fn windows_candidates_follow_probe_order() {
    let paths = get_antigravity_windows_paths(
        Some("C:\\Users\\me".to_string()),
        Some("C:\\Users\\me\\AppData\\Local".to_string()),
    );
    assert_eq!(
        paths,
        vec![
            "C:\\Users\\me\\AppData\\Local\\Programs\\Antigravity\\Antigravity.exe".to_string(),
            "C:\\Users\\me\\AppData\\Roaming\\Local\\Programs\\Antigravity\\Antigravity.exe"
                .to_string(),
            "C:\\Users\\me\\AppData\\Local\\Programs\\Antigravity\\Antigravity.exe".to_string(),
            "C:\\Program Files\\Antigravity\\Antigravity.exe".to_string(),
            "C:\\Program Files (x86)\\Antigravity\\Antigravity.exe".to_string(),
        ]
    );
}

#[test]
fn macos_candidates_check_system_then_user_bundles() {
    let paths = get_antigravity_macos_paths(Some("/Users/me".to_string()));
    assert_eq!(paths.len(), 8);
    assert_eq!(paths[0], "/Applications/Antigravity.app");
    assert_eq!(paths[4], "/Users/me/Applications/Antigravity.app");
    let without_home = get_antigravity_macos_paths(None);
    assert_eq!(without_home.len(), 4);
}

#[test]
fn linux_candidates_include_package_manager_locations() {
    let paths = get_antigravity_linux_paths(Some("/home/me".to_string()));
    assert_eq!(
        paths,
        vec![
            "/usr/share/antigravity/antigravity".to_string(),
            "/usr/bin/antigravity".to_string(),
            "/usr/local/bin/antigravity".to_string(),
            "/snap/bin/antigravity".to_string(),
            "/home/me/Applications/Antigravity.AppImage".to_string(),
            "/home/me/.local/bin/antigravity".to_string(),
            "/home/me/bin/antigravity".to_string(),
            "/var/lib/flatpak/exports/bin/antigravity".to_string(),
            "/home/me/.local/share/flatpak/exports/bin/antigravity".to_string(),
        ]
    );
}

#[test]
fn the_data_dir_prefers_the_right_base_per_os() {
    let config = Some("/home/me/.config".to_string());
    let data = Some("/home/me/.local/share".to_string());
    assert_eq!(
        data_dir_for_os(OsKind::Linux, config.clone(), data.clone()).unwrap(),
        "/home/me/.config/Antigravity/User/globalStorage"
    );
    assert_eq!(
        data_dir_for_os(OsKind::Linux, None, data.clone()).unwrap(),
        "/home/me/.local/share/Antigravity/User/globalStorage"
    );
    assert_eq!(
        data_dir_for_os(OsKind::MacOs, config.clone(), data.clone()).unwrap(),
        "/home/me/.local/share/Antigravity/User/globalStorage"
    );
    assert_eq!(
        data_dir_for_os(OsKind::Windows, config, data).unwrap(),
        "/home/me/.config/Antigravity/User/globalStorage"
    );
    assert!(data_dir_for_os(OsKind::Windows, None, Some("d".to_string())).is_none());
}

#[test]
fn a_valid_custom_path_takes_precedence() {
    let resolved = get_antigravity_db_path(
        Some("/custom/dir".to_string()),
        true,
        Some("/auto/dir".to_string()),
    );
    assert_eq!(resolved.unwrap(), "/custom/dir/state.vscdb");

    let fallback = get_antigravity_db_path(
        Some("/custom/dir".to_string()),
        false,
        Some("/auto/dir".to_string()),
    );
    assert_eq!(fallback.unwrap(), "/auto/dir/state.vscdb");

    assert!(get_antigravity_db_path(None, false, None).is_none());
}

#[test]
fn availability_needs_a_path_and_an_existing_file() {
    assert!(is_antigravity_available(&Some("/p/state.vscdb".to_string()), true));
    assert!(!is_antigravity_available(&Some("/p/state.vscdb".to_string()), false));
    assert!(!is_antigravity_available(&None, true));
}

#[test]
fn validations_combine_the_probe_results() {
    assert_eq!(data_path_candidate("/dir"), "/dir/state.vscdb");
    assert!(validate_data_path(true, true));
    assert!(!validate_data_path(true, false));
    assert!(!validate_data_path(false, true));
    assert!(validate_executable_path(true, true));
    assert!(!validate_executable_path(false, false));
    assert_eq!(validate_antigravity_path(true, true), validate_data_path(true, true));
}

#[test]
fn installations_list_data_then_config() {
    let found = find_antigravity_installations(
        Some("/home/me/.local/share".to_string()),
        Some("/home/me/.config".to_string()),
    );
    assert_eq!(
        found,
        vec![
            "/home/me/.local/share/Antigravity".to_string(),
            "/home/me/.config/Antigravity".to_string(),
        ]
    );
    assert!(find_antigravity_installations(None, None).is_empty());
}

#[test]
fn all_db_paths_start_with_the_main_one() {
    let all = antigravity_agent::paths::get_all_antigravity_db_paths(
        Some("/main/state.vscdb".to_string()),
        vec!["/other/state.vscdb".to_string()],
    );
    assert_eq!(
        all,
        vec!["/main/state.vscdb".to_string(), "/other/state.vscdb".to_string()]
    );
    let none = antigravity_agent::paths::get_all_antigravity_db_paths(None, Vec::new());
    assert!(none.is_empty());
}

#[test]
fn detection_picks_the_first_existing_candidate() {
    let paths = vec!["/a".to_string(), "/b".to_string(), "/c".to_string()];
    let exists = vec![false, true, true];
    assert_eq!(detect_antigravity_executable(&paths, &exists).unwrap(), "/b");
    assert!(detect_antigravity_executable(&paths, &vec![false, false, false]).is_none());
}

#[test]
fn bundle_validation_and_inner_paths() {
    assert!(macos_bundle_is_valid(true, true, true, true));
    assert!(!macos_bundle_is_valid(true, true, false, true));
    assert_eq!(bundle_macos_dir("/Applications/A.app"), "/Applications/A.app/Contents/MacOS");
    assert_eq!(
        bundle_info_plist("/Applications/A.app"),
        "/Applications/A.app/Contents/Info.plist"
    );
}

#[test]
fn macos_launches_try_background_open_then_inner_executables_then_open() {
    let strategies = launch_strategies_for_path("/Applications/A.app", OsKind::MacOs);
    assert_eq!(strategies.len(), 5);
    assert_eq!(strategies[0].program, "open");
    assert_eq!(strategies[0].args, vec!["-g".to_string(), "/Applications/A.app".to_string()]);
    assert_eq!(strategies[1].program, "/Applications/A.app/Contents/MacOS/Electron");
    assert!(strategies[1].args.is_empty());
    assert_eq!(strategies[2].program, "/Applications/A.app/Contents/MacOS/Antigravity");
    assert_eq!(strategies[3].program, "/Applications/A.app/Contents/MacOS/antigravity");
    assert_eq!(strategies[4].program, "open");
    assert_eq!(strategies[4].args, vec!["/Applications/A.app".to_string()]);
}

#[test]
fn other_systems_launch_the_path_directly() {
    let strategies = launch_strategies_for_path("/usr/bin/antigravity", OsKind::Linux);
    assert_eq!(strategies.len(), 1);
    assert_eq!(strategies[0].program, "/usr/bin/antigravity");
    assert!(strategies[0].args.is_empty());
}

#[test]
fn fallback_commands_prefer_the_os_convention() {
    assert_eq!(
        fallback_commands(OsKind::Linux),
        vec!["antigravity".to_string(), "Antigravity".to_string()]
    );
    assert_eq!(
        fallback_commands(OsKind::Windows),
        vec!["Antigravity".to_string(), "antigravity".to_string()]
    );
}

#[test]
fn failures_aggregate_in_attempt_order() {
    let attempts = vec![
        ("/a/exe".to_string(), "no such file".to_string()),
        ("open".to_string(), "denied".to_string()),
    ];
    assert_eq!(
        aggregate_launch_failures(&attempts),
        "Could not start the host application; attempts:\n/a/exe: no such file\nopen: denied"
    );
    assert_eq!(
        aggregate_launch_failures(&Vec::new()),
        "Could not start the host application; attempts:"
    );
}
