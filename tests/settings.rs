use polydb::settings::{SavedConnection, Settings};

#[test]
fn default_settings() {
    let s = Settings::default();
    assert_eq!(s.appearance.theme, "dark");
    assert_eq!(s.appearance.font_size, "medium");
    assert_eq!(s.appearance.editor_font, "JetBrains Mono, Consolas, monospace");
    assert_eq!(s.query.auto_limit, 100);
    assert_eq!(s.query.timeout_seconds, 30);
    assert!(!s.query.auto_format);
    assert!(!s.connection.auto_connect_on_startup);
    assert_eq!(s.connection.connection_timeout_seconds, 10);
    assert_eq!(s.connection.keep_alive_interval_seconds, 60);
    assert_eq!(s.export.default_format, "csv");
    assert_eq!(s.export.csv_delimiter, ",");
    assert!(s.export.include_headers);
    assert!(!s.advanced.enable_debug_logs);
    assert!(s.advanced.cache_table_list);
    assert_eq!(s.advanced.max_cached_connections, 5);
}

#[test]
fn saved_connection_holds_its_fields() {
    let c = SavedConnection {
        name: "local".to_string(),
        url: "postgres://localhost/app".to_string(),
        conn_type: "postgres".to_string(),
        color: "#336699".to_string(),
    };
    assert_eq!(c.clone(), c);
}
