//! Configuration export and import: secret stripping, defaulting of
//! optional sections, and the conversion from the persisted shape to the
//! in-memory application shape.

use vstd::prelude::*;
use vstd::string::StringExecFns;

use crate::exporter::{obsidian_config_default_ok, ObsidianExportConfig};

verus! {

/// Interface preferences; persisted as an optional section.
#[derive(Clone, Debug)]
pub struct UISettings {
    pub theme: String,
    pub language: String,
}

pub open spec fn ui_settings_default_ok(u: UISettings) -> bool {
    &&& u.theme@ == "system"@
    &&& u.language@ == "en"@
}

impl Default for UISettings {
    /// System theme, English interface.
    fn default() -> (r: Self)
        ensures
            ui_settings_default_ok(r),
    {
        UISettings { theme: String::from_str("system"), language: String::from_str("en") }
    }
}

/// Capture cadence; persisted as an optional section.
#[derive(Clone, Debug)]
pub struct CaptureSettings {
    pub interval_seconds: u64,
    pub capture_on_battery: bool,
}

pub open spec fn capture_settings_default_ok(c: CaptureSettings) -> bool {
    &&& c.interval_seconds == 60
    &&& c.capture_on_battery == true
}

impl Default for CaptureSettings {
    /// One capture a minute, on battery too.
    fn default() -> (r: Self)
        ensures
            capture_settings_default_ok(r),
    {
        CaptureSettings { interval_seconds: 60, capture_on_battery: true }
    }
}

/// Log verbosity; persisted as an optional section.
#[derive(Clone, Debug)]
pub struct LoggerSettings {
    pub level: String,
}

pub open spec fn logger_settings_default_ok(l: LoggerSettings) -> bool {
    l.level@ == "info"@
}

impl Default for LoggerSettings {
    /// Informational logging.
    fn default() -> (r: Self)
        ensures
            logger_settings_default_ok(r),
    {
        LoggerSettings { level: String::from_str("info") }
    }
}

/// Notion integration settings; the token is a secret.
#[derive(Clone, Debug)]
pub struct NotionConfig {
    pub api_token: String,
    pub database_id: String,
}

pub open spec fn notion_config_default_ok(n: NotionConfig) -> bool {
    &&& n.api_token@ == Seq::<char>::empty()
    &&& n.database_id@ == Seq::<char>::empty()
}

impl Default for NotionConfig {
    /// No token, no database.
    fn default() -> (r: Self)
        ensures
            notion_config_default_ok(r),
    {
        NotionConfig { api_token: String::new(), database_id: String::new() }
    }
}

/// Summarizer credentials; the key and token are secrets.
#[derive(Clone, Debug)]
pub struct LLMConfig {
    pub provider: String,
    pub api_key: String,
    pub auth_token: String,
}

/// Where captured data is stored; a server password is a secret.
#[derive(Clone, Debug)]
pub enum DatabaseConfig {
    Sqlite { path: String },
    MariaDB { host: String, port: u16, username: String, password: String, database: String },
}

/// Video capture settings; copied as one value.
#[derive(Clone, Debug)]
pub struct VideoConfig {
    pub enabled: bool,
    pub frame_rate: u64,
}

/// The configuration shape kept on disk.
#[derive(Clone, Debug)]
pub struct PersistedAppConfig {
    pub retention_days: u64,
    pub llm_provider: String,
    pub capture_interval: u64,
    pub summary_interval: u64,
    pub video_config: VideoConfig,
    pub ui_settings: Option<UISettings>,
    pub llm_config: Option<LLMConfig>,
    pub capture_settings: Option<CaptureSettings>,
    pub logger_settings: Option<LoggerSettings>,
    pub database_config: Option<DatabaseConfig>,
    pub notion_config: Option<NotionConfig>,
    pub obsidian_config: Option<ObsidianExportConfig>,
}

/// The in-memory configuration shape the update logic works on: every
/// section optional.
#[derive(Clone, Debug)]
pub struct AppConfig {
    pub retention_days: Option<u64>,
    pub llm_provider: Option<String>,
    pub capture_interval: Option<u64>,
    pub summary_interval: Option<u64>,
    pub video_config: Option<VideoConfig>,
    pub ui_settings: Option<UISettings>,
    pub llm_config: Option<LLMConfig>,
    pub capture_settings: Option<CaptureSettings>,
    pub logger_settings: Option<LoggerSettings>,
    pub database_config: Option<DatabaseConfig>,
    pub notion_config: Option<NotionConfig>,
    pub obsidian_config: Option<ObsidianExportConfig>,
}

/// One exportable configuration bundle.
#[derive(Clone, Debug)]
pub struct ConfigExportPackage {
    pub version: u64,
    pub exported_at: String,
    pub include_secrets: bool,
    pub app_config: PersistedAppConfig,
}

/// Blanks every secret of the configuration in place: the summarizer's API
/// key and auth token, the Notion token, and a MariaDB password. Everything
/// else stays as it was.
pub fn strip_secrets(config: &mut PersistedAppConfig)
    ensures
        final(config).retention_days == old(config).retention_days,
        final(config).llm_provider == old(config).llm_provider,
        final(config).capture_interval == old(config).capture_interval,
        final(config).summary_interval == old(config).summary_interval,
        final(config).video_config == old(config).video_config,
        final(config).ui_settings == old(config).ui_settings,
        final(config).capture_settings == old(config).capture_settings,
        final(config).logger_settings == old(config).logger_settings,
        final(config).obsidian_config == old(config).obsidian_config,
        match old(config).llm_config {
            Some(l) => final(config).llm_config matches Some(l2) && l2.provider == l.provider
                && l2.api_key@ == Seq::<char>::empty() && l2.auth_token@ == Seq::<char>::empty(),
            None => final(config).llm_config is None,
        },
        match old(config).notion_config {
            Some(n) => final(config).notion_config matches Some(n2) && n2.database_id
                == n.database_id && n2.api_token@ == Seq::<char>::empty(),
            None => final(config).notion_config is None,
        },
        match old(config).database_config {
            Some(DatabaseConfig::MariaDB { host, port, username, password: _, database }) => {
                final(config).database_config matches Some(
                    DatabaseConfig::MariaDB {
                        host: h2,
                        port: p2,
                        username: u2,
                        password: pw2,
                        database: d2,
                    },
                ) && h2 == host && p2 == port && u2 == username && pw2@ == Seq::<char>::empty()
                    && d2 == database
            },
            Some(DatabaseConfig::Sqlite { path }) => {
                final(config).database_config matches Some(DatabaseConfig::Sqlite { path: p2 })
                    && p2 == path
            },
            None => final(config).database_config is None,
        },
{
    match &mut config.llm_config {
        Some(llm_config) => {
            llm_config.api_key = String::new();
            llm_config.auth_token = String::new();
        }
        None => {}
    }
    match &mut config.notion_config {
        Some(notion_config) => {
            notion_config.api_token = String::new();
        }
        None => {}
    }
    match &mut config.database_config {
        Some(database_config) => {
            match database_config {
                DatabaseConfig::MariaDB { password, .. } => {
                    *password = String::new();
                }
                DatabaseConfig::Sqlite { .. } => {}
            }
        }
        None => {}
    }
}

/// Fills every absent optional section of an imported configuration with
/// its default; present sections pass through unchanged.
pub fn normalize_imported_config(config: PersistedAppConfig) -> (r: PersistedAppConfig)
    ensures
        r.retention_days == config.retention_days,
        r.llm_provider == config.llm_provider,
        r.capture_interval == config.capture_interval,
        r.summary_interval == config.summary_interval,
        r.video_config == config.video_config,
        r.llm_config == config.llm_config,
        r.database_config == config.database_config,
        match config.ui_settings {
            Some(u) => r.ui_settings == Some(u),
            None => r.ui_settings matches Some(u) && ui_settings_default_ok(u),
        },
        match config.capture_settings {
            Some(c) => r.capture_settings == Some(c),
            None => r.capture_settings matches Some(c) && capture_settings_default_ok(c),
        },
        match config.logger_settings {
            Some(l) => r.logger_settings == Some(l),
            None => r.logger_settings matches Some(l) && logger_settings_default_ok(l),
        },
        match config.notion_config {
            Some(n) => r.notion_config == Some(n),
            None => r.notion_config matches Some(n) && notion_config_default_ok(n),
        },
        match config.obsidian_config {
            Some(o) => r.obsidian_config == Some(o),
            None => r.obsidian_config matches Some(o) && obsidian_config_default_ok(o),
        },
{
    let mut config = config;
    if config.ui_settings.is_none() {
        config.ui_settings = Some(UISettings::default());
    }
    if config.capture_settings.is_none() {
        config.capture_settings = Some(CaptureSettings::default());
    }
    if config.logger_settings.is_none() {
        config.logger_settings = Some(LoggerSettings::default());
    }
    if config.notion_config.is_none() {
        config.notion_config = Some(NotionConfig::default());
    }
    if config.obsidian_config.is_none() {
        config.obsidian_config = Some(ObsidianExportConfig::default());
    }
    config
}

/// Lifts a persisted configuration into the in-memory shape: the always-
/// present fields become `Some`, the optional sections are carried over.
pub fn persisted_to_app_config(config: PersistedAppConfig) -> (r: AppConfig)
    ensures
        r.retention_days == Some(config.retention_days),
        r.llm_provider == Some(config.llm_provider),
        r.capture_interval == Some(config.capture_interval),
        r.summary_interval == Some(config.summary_interval),
        r.video_config == Some(config.video_config),
        r.ui_settings == config.ui_settings,
        r.llm_config == config.llm_config,
        r.capture_settings == config.capture_settings,
        r.logger_settings == config.logger_settings,
        r.database_config == config.database_config,
        r.notion_config == config.notion_config,
        r.obsidian_config == config.obsidian_config,
{
    AppConfig {
        retention_days: Some(config.retention_days),
        llm_provider: Some(config.llm_provider),
        capture_interval: Some(config.capture_interval),
        summary_interval: Some(config.summary_interval),
        video_config: Some(config.video_config),
        ui_settings: config.ui_settings,
        llm_config: config.llm_config,
        capture_settings: config.capture_settings,
        logger_settings: config.logger_settings,
        database_config: config.database_config,
        notion_config: config.notion_config,
        obsidian_config: config.obsidian_config,
    }
}

} // verus!
