//! User preferences that callers apply around the core, and the record of a
//! saved connection. The core itself enforces none of these preferences.

use vstd::prelude::*;

verus! {

/// A connection the user saved: its name, descriptor, engine tag and the
/// colour it is shown in.
#[derive(Debug, Clone, PartialEq, Eq)]
pub struct SavedConnection {
    pub name: String,
    pub url: String,
    pub conn_type: String,
    pub color: String,
}

/// All preference groups.
#[derive(Debug, Clone, PartialEq, Eq)]
pub struct Settings {
    pub appearance: AppearanceSettings,
    pub query: QuerySettings,
    pub connection: ConnectionSettings,
    pub export: ExportSettings,
    pub advanced: AdvancedSettings,
}

/// How the interface looks.
#[derive(Debug, Clone, PartialEq, Eq)]
pub struct AppearanceSettings {
    /// `light`, `dark` or `auto`.
    pub theme: String,
    /// `small`, `medium` or `large`.
    pub font_size: String,
    pub editor_font: String,
}

/// Preferences that callers apply to queries.
#[derive(Debug, Clone, PartialEq, Eq)]
pub struct QuerySettings {
    /// The row cap a caller adds to queries; 0 for none.
    pub auto_limit: i32,
    pub timeout_seconds: i32,
    pub auto_format: bool,
}

/// Preferences about sessions.
#[derive(Debug, Clone, PartialEq, Eq)]
pub struct ConnectionSettings {
    pub auto_connect_on_startup: bool,
    pub connection_timeout_seconds: i32,
    pub keep_alive_interval_seconds: i32,
}

/// Preferences about exports.
#[derive(Debug, Clone, PartialEq, Eq)]
pub struct ExportSettings {
    /// An export format tag.
    pub default_format: String,
    pub csv_delimiter: String,
    pub include_headers: bool,
}

/// Preferences for diagnosis and caching.
#[derive(Debug, Clone, PartialEq, Eq)]
pub struct AdvancedSettings {
    pub enable_debug_logs: bool,
    pub cache_table_list: bool,
    pub max_cached_connections: i32,
}

impl AppearanceSettings {
    /// The default appearance holds.
    pub open spec fn is_default(&self) -> bool {
        &&& self.theme@ == "dark"@
        &&& self.font_size@ == "medium"@
        &&& self.editor_font@ == "JetBrains Mono, Consolas, monospace"@
    }
}

impl Default for AppearanceSettings {
    fn default() -> (r: Self)
        ensures
            r.is_default(),
    {
        AppearanceSettings {
            theme: String::from_str("dark"),
            font_size: String::from_str("medium"),
            editor_font: String::from_str("JetBrains Mono, Consolas, monospace"),
        }
    }
}

impl QuerySettings {
    /// The default query preferences hold.
    pub open spec fn is_default(&self) -> bool {
        self.auto_limit == 100 && self.timeout_seconds == 30 && !self.auto_format
    }
}

impl Default for QuerySettings {
    fn default() -> (r: Self)
        ensures
            r.is_default(),
    {
        QuerySettings { auto_limit: 100, timeout_seconds: 30, auto_format: false }
    }
}

impl ConnectionSettings {
    /// The default session preferences hold.
    pub open spec fn is_default(&self) -> bool {
        !self.auto_connect_on_startup && self.connection_timeout_seconds == 10
            && self.keep_alive_interval_seconds == 60
    }
}

impl Default for ConnectionSettings {
    fn default() -> (r: Self)
        ensures
            r.is_default(),
    {
        ConnectionSettings {
            auto_connect_on_startup: false,
            connection_timeout_seconds: 10,
            keep_alive_interval_seconds: 60,
        }
    }
}

impl ExportSettings {
    /// The default export preferences hold.
    pub open spec fn is_default(&self) -> bool {
        &&& self.default_format@ == "csv"@
        &&& self.csv_delimiter@ == ","@
        &&& self.include_headers
    }
}

impl Default for ExportSettings {
    fn default() -> (r: Self)
        ensures
            r.is_default(),
    {
        ExportSettings {
            default_format: String::from_str("csv"),
            csv_delimiter: String::from_str(","),
            include_headers: true,
        }
    }
}

impl AdvancedSettings {
    /// The default diagnosis and caching preferences hold.
    pub open spec fn is_default(&self) -> bool {
        !self.enable_debug_logs && self.cache_table_list && self.max_cached_connections == 5
    }
}

impl Default for AdvancedSettings {
    fn default() -> (r: Self)
        ensures
            r.is_default(),
    {
        AdvancedSettings { enable_debug_logs: false, cache_table_list: true, max_cached_connections: 5 }
    }
}

impl Default for Settings {
    fn default() -> (r: Self)
        ensures
            r.appearance.is_default(),
            r.query.is_default(),
            r.connection.is_default(),
            r.export.is_default(),
            r.advanced.is_default(),
    {
        Settings {
            appearance: AppearanceSettings::default(),
            query: QuerySettings::default(),
            connection: ConnectionSettings::default(),
            export: ExportSettings::default(),
            advanced: AdvancedSettings::default(),
        }
    }
}

} // verus!
