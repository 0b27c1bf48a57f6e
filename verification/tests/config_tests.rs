use obsidian_export::config::{
    normalize_imported_config, persisted_to_app_config, strip_secrets, DatabaseConfig, LLMConfig,
    NotionConfig, PersistedAppConfig, VideoConfig,
};

fn base_config() -> PersistedAppConfig {
    PersistedAppConfig {
        retention_days: 30,
        llm_provider: "openai".to_string(),
        capture_interval: 60,
        summary_interval: 3600,
        video_config: VideoConfig { enabled: true, frame_rate: 2 },
        ui_settings: None,
        llm_config: Some(LLMConfig {
            provider: "openai".to_string(),
            api_key: "SECRET-REDACTED".to_string(),
            auth_token: "SECRET-REDACTED".to_string(),
        }),
        capture_settings: None,
        logger_settings: None,
        database_config: Some(DatabaseConfig::MariaDB {
            host: "db.local".to_string(),
            port: 3306,
            username: "screen".to_string(),
            password: "SECRET-REDACTED".to_string(),
            database: "activity".to_string(),
        }),
        notion_config: Some(NotionConfig {
            api_token: "SECRET-REDACTED".to_string(),
            database_id: "abc123".to_string(),
        }),
        obsidian_config: None,
    }
}

#[test]
fn strip_secrets_blanks_every_credential() {
    let mut config = base_config();
    strip_secrets(&mut config);
    let llm = config.llm_config.unwrap();
    assert_eq!(llm.api_key, "");
    assert_eq!(llm.auth_token, "");
    assert_eq!(llm.provider, "openai");
    let notion = config.notion_config.unwrap();
    assert_eq!(notion.api_token, "");
    assert_eq!(notion.database_id, "abc123");
    match config.database_config.unwrap() {
        DatabaseConfig::MariaDB { host, password, database, .. } => {
            assert_eq!(password, "");
            assert_eq!(host, "db.local");
            assert_eq!(database, "activity");
        }
        DatabaseConfig::Sqlite { .. } => panic!("variant changed"),
    }
}

#[test]
fn strip_secrets_leaves_absent_sections_absent() {
    let mut config = base_config();
    config.llm_config = None;
    config.notion_config = None;
    config.database_config = Some(DatabaseConfig::Sqlite { path: "/data/app.db".to_string() });
    strip_secrets(&mut config);
    assert!(config.llm_config.is_none());
    assert!(config.notion_config.is_none());
    match config.database_config.unwrap() {
        DatabaseConfig::Sqlite { path } => assert_eq!(path, "/data/app.db"),
        DatabaseConfig::MariaDB { .. } => panic!("variant changed"),
    }
}

#[test]
fn normalize_fills_missing_sections_with_defaults() {
    let config = normalize_imported_config(base_config());
    assert_eq!(config.ui_settings.unwrap().theme, "system");
    assert_eq!(config.capture_settings.unwrap().interval_seconds, 60);
    assert_eq!(config.logger_settings.unwrap().level, "info");
    let obsidian = config.obsidian_config.unwrap();
    assert_eq!(obsidian.weekly_focus_weight, 70);
    assert_eq!(obsidian.weekly_target_minutes, 300);
    // present sections pass through untouched
    assert_eq!(config.notion_config.unwrap().database_id, "abc123");
}

#[test]
fn persisted_config_lifts_into_the_app_shape() {
    let app = persisted_to_app_config(base_config());
    assert_eq!(app.retention_days, Some(30));
    assert_eq!(app.llm_provider.as_deref(), Some("openai"));
    assert_eq!(app.capture_interval, Some(60));
    assert_eq!(app.summary_interval, Some(3600));
    assert!(app.video_config.is_some());
    assert!(app.ui_settings.is_none());
    assert!(app.llm_config.is_some());
}
