//! Settings, path configuration, rendering and the text helpers.

use antigravity_agent::path_config::{
    clear_custom_path, get_custom_data_path, get_custom_executable_path, parse_path_config,
    path_config_file, render_path_config, save_custom_data_path, save_custom_executable_path,
    AntigravityPathConfig,
};
use antigravity_agent::paths::OsKind;
use antigravity_agent::settings::{
    accounts_dir_under, config_base_dir, config_dir_under, log_database_operation,
    parse_app_settings, render_app_settings, AppSettings, AppSettingsManager, ConfigManager,
};
use antigravity_agent::text::{escape_json_string, join_path, render_string_literal, u64_to_string};

#[test]
fn default_settings_monitor_but_do_not_tray() {
    let s = AppSettings::default();
    assert!(!s.system_tray_enabled);
    assert!(s.db_monitoring_enabled);
}

#[test]
fn the_manager_loads_or_defaults_and_updates() {
    let mgr = AppSettingsManager::new(None, "/cfg/app_settings.json".to_string());
    assert!(!mgr.get_settings().system_tray_enabled);

    let loaded = AppSettings { system_tray_enabled: true, db_monitoring_enabled: false };
    let mut mgr = AppSettingsManager::new(Some(loaded), "/cfg/app_settings.json".to_string());
    assert!(mgr.get_settings().system_tray_enabled);

    let rendered = mgr.update_settings(AppSettings {
        system_tray_enabled: false,
        db_monitoring_enabled: true,
    });
    assert_eq!(
        rendered,
        "{\"system_tray_enabled\":false,\"db_monitoring_enabled\":true}"
    );
    assert!(!mgr.get_settings().system_tray_enabled);
    assert!(mgr.get_settings().db_monitoring_enabled);
}

#[test]
fn rendered_settings_are_valid_json() {
    let s = AppSettings { system_tray_enabled: true, db_monitoring_enabled: false };
    let text = render_app_settings(&s);
    let parsed: serde_json::Value = serde_json::from_str(&text).unwrap();
    assert_eq!(parsed["system_tray_enabled"], serde_json::Value::Bool(true));
    assert_eq!(parsed["db_monitoring_enabled"], serde_json::Value::Bool(false));
}

#[test]
fn the_settings_parser_undoes_the_renderer() {
    let all = vec![
        AppSettings { system_tray_enabled: false, db_monitoring_enabled: false },
        AppSettings { system_tray_enabled: false, db_monitoring_enabled: true },
        AppSettings { system_tray_enabled: true, db_monitoring_enabled: false },
        AppSettings { system_tray_enabled: true, db_monitoring_enabled: true },
    ];
    for s in all {
        let parsed = parse_app_settings(&render_app_settings(&s)).expect("renders parse");
        assert_eq!(parsed, s);
    }
    assert!(parse_app_settings("{}").is_none());
    assert!(parse_app_settings(
        "{\"system_tray_enabled\":true,\"db_monitoring_enabled\":yes}"
    )
    .is_none());
    assert!(parse_app_settings(
        "{\"system_tray_enabled\":true,\"db_monitoring_enabled\":true}x"
    )
    .is_none());
}

#[test]
fn config_files_live_under_the_config_dir() {
    let mgr = ConfigManager::new("/home/me/.config/.antigravity-agent".to_string());
    assert_eq!(
        mgr.window_state_file(),
        "/home/me/.config/.antigravity-agent/window_state.json"
    );
    assert_eq!(
        mgr.app_settings_file(),
        "/home/me/.config/.antigravity-agent/app_settings.json"
    );
    assert_eq!(config_dir_under("/home/me/.config"), "/home/me/.config/.antigravity-agent");
    assert_eq!(
        accounts_dir_under("/home/me/.config/.antigravity-agent"),
        "/home/me/.config/.antigravity-agent/antigravity-accounts"
    );
    assert_eq!(path_config_file("/cfg"), "/cfg/antigravity_path.json");
}

#[test]
fn the_config_base_prefers_roaming_appdata_on_the_windowed_os() {
    assert_eq!(
        config_base_dir(
            OsKind::Windows,
            Some("C:\\Users\\me\\AppData\\Roaming".to_string()),
            Some("C:\\Users\\me".to_string()),
            Some("C:\\cfg".to_string()),
        ),
        "C:\\Users\\me\\AppData\\Roaming"
    );
    assert_eq!(
        config_base_dir(OsKind::Windows, None, Some("C:\\Users\\me".to_string()), None),
        "C:\\Users\\me/AppData/Roaming"
    );
    assert_eq!(
        config_base_dir(OsKind::Linux, None, None, Some("/home/me/.config".to_string())),
        "/home/me/.config"
    );
    assert_eq!(config_base_dir(OsKind::Linux, None, None, None), ".");
}

#[test]
fn path_overrides_update_independently() {
    let empty = AntigravityPathConfig::default();
    assert!(get_custom_data_path(&empty).is_none());
    assert!(get_custom_executable_path(&empty).is_none());

    let with_data = save_custom_data_path(&empty, "/data/dir".to_string());
    let with_both = save_custom_executable_path(&with_data, "/bin/app".to_string());
    assert_eq!(get_custom_data_path(&with_both).unwrap(), "/data/dir");
    assert_eq!(get_custom_executable_path(&with_both).unwrap(), "/bin/app");

    let replaced = save_custom_data_path(&with_both, "/other".to_string());
    assert_eq!(get_custom_data_path(&replaced).unwrap(), "/other");
    assert_eq!(get_custom_executable_path(&replaced).unwrap(), "/bin/app");

    let cleared = clear_custom_path();
    assert!(get_custom_data_path(&cleared).is_none());
}

#[test]
fn the_rendered_path_config_round_trips_windows_paths() {
    let config = AntigravityPathConfig {
        custom_data_path: Some("C:\\Users\\me\\data".to_string()),
        custom_executable_path: None,
    };
    let text = render_path_config(&config);
    assert_eq!(
        text,
        "{\"custom_data_path\":\"C:\\\\Users\\\\me\\\\data\",\"custom_executable_path\":null}"
    );
    let parsed: serde_json::Value = serde_json::from_str(&text).unwrap();
    assert_eq!(
        parsed["custom_data_path"],
        serde_json::Value::String("C:\\Users\\me\\data".to_string())
    );
    assert_eq!(parsed["custom_executable_path"], serde_json::Value::Null);
}

#[test]
fn the_config_parser_undoes_the_renderer() {
    let configs = vec![
        AntigravityPathConfig { custom_data_path: None, custom_executable_path: None },
        AntigravityPathConfig {
            custom_data_path: Some("C:\\Users\\mé\\da\"ta".to_string()),
            custom_executable_path: None,
        },
        AntigravityPathConfig {
            custom_data_path: Some("/plain/dir".to_string()),
            custom_executable_path: Some("/bin/app\twith\ntabs".to_string()),
        },
    ];
    for config in configs {
        let rendered = render_path_config(&config);
        let parsed = parse_path_config(&rendered).expect("a rendered document parses");
        assert_eq!(parsed.custom_data_path, config.custom_data_path);
        assert_eq!(parsed.custom_executable_path, config.custom_executable_path);
    }
}

#[test]
fn the_config_parser_is_strict() {
    assert!(parse_path_config("").is_none());
    assert!(parse_path_config("{}").is_none());
    assert!(parse_path_config("{\"custom_data_path\":null}").is_none());
    // Trailing garbage is rejected.
    assert!(parse_path_config(
        "{\"custom_data_path\":null,\"custom_executable_path\":null} "
    )
    .is_none());
    // An unterminated string literal is rejected.
    assert!(parse_path_config(
        "{\"custom_data_path\":\"oops,\"custom_executable_path\":null}"
    )
    .is_none());
    // The exact render is accepted.
    assert!(parse_path_config("{\"custom_data_path\":null,\"custom_executable_path\":null}")
        .is_some());
}

#[test]
fn the_config_parser_accepts_only_canonical_escapes() {
    // Characters with a short escape must use it: the hex form of a
    // newline and a raw control character are both rejected.
    assert!(parse_path_config(
        "{\"custom_data_path\":\"a\\u000ab\",\"custom_executable_path\":null}"
    )
    .is_none());
    assert!(parse_path_config(
        "{\"custom_data_path\":\"a\nb\",\"custom_executable_path\":null}"
    )
    .is_none());
    assert!(parse_path_config(
        "{\"custom_data_path\":\"a\\u0041b\",\"custom_executable_path\":null}"
    )
    .is_none());
}

#[test]
fn the_config_parser_unescapes_control_sequences() {
    let parsed = parse_path_config(
        "{\"custom_data_path\":\"a\\u0001b\\\\c\\\"d\",\"custom_executable_path\":null}",
    )
    .expect("escapes are understood");
    assert_eq!(parsed.custom_data_path.unwrap(), "a\u{1}b\\c\"d");
}

#[test]
fn database_log_lines_name_operation_table_and_outcome() {
    assert_eq!(
        log_database_operation("connect", Some("ItemTable"), true),
        "database operation succeeded: connect - table: ItemTable"
    );
    assert_eq!(
        log_database_operation("connect", None, false),
        "database operation failed: connect"
    );
}

#[test]
fn decimal_rendering_is_exact() {
    assert_eq!(u64_to_string(0), "0");
    assert_eq!(u64_to_string(7), "7");
    assert_eq!(u64_to_string(10), "10");
    assert_eq!(u64_to_string(305), "305");
    assert_eq!(u64_to_string(18446744073709551615), "18446744073709551615");
}

#[test]
fn json_escaping_covers_quotes_backslashes_and_control_chars() {
    assert_eq!(escape_json_string("plain"), "plain");
    assert_eq!(escape_json_string("a\"b"), "a\\\"b");
    assert_eq!(escape_json_string("a\\b"), "a\\\\b");
    assert_eq!(escape_json_string("a\nb\tc\rd"), "a\\nb\\tc\\rd");
    assert_eq!(escape_json_string("\u{1}\u{1f}"), "\\u0001\\u001f");
    assert_eq!(render_string_literal("hé llo"), "\"hé llo\"");
    let literal = render_string_literal("q\"\\\n");
    let parsed: serde_json::Value = serde_json::from_str(&literal).unwrap();
    assert_eq!(parsed, serde_json::Value::String("q\"\\\n".to_string()));
}

#[test]
fn join_path_inserts_one_separator() {
    assert_eq!(join_path("/a/b", "c.json"), "/a/b/c.json");
}
