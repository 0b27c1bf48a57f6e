use obsidian_export::aggregate::{build_week_summary, score_config_from};
use obsidian_export::dates::{parse_date, week_bounds, DateYmd};
use obsidian_export::exporter::{
    assets_dir_rel, daily_note_rel_path, render_overview, sessions_dir_rel,
    session_export_warning, vault_not_configured_error, ExportOutcome, ObsidianExportConfig,
    ObsidianExporter, ObsidianExportMode,
};
use obsidian_export::metrics::{build_session_metrics, render_metrics, WeekFocusMetrics};
use obsidian_export::category::ActivityCategory;
use obsidian_export::model::{
    ActivityRollup, ActivityTag, DaySummary, DeviceStat, Frame, Session, SessionStamp,
    TimelineCardRecord, UsagePattern,
};
use obsidian_export::notes::{
    format_markdown_link, format_tags, pick_screenshots, render_timeline, sanitize_filename,
    session_filename, session_link, to_file_url,
};

fn config() -> ObsidianExportConfig {
    ObsidianExportConfig {
        vault_path: "/vault".to_string(),
        root_folder: String::new(),
        include_screenshots: true,
        include_video_link: true,
        export_mode: ObsidianExportMode::Copy,
        daily_template: None,
        session_template: None,
        weekly_focus_weight: 70,
        weekly_target_minutes: 300,
    }
}

fn day_summary(date: &str) -> DaySummary {
    DaySummary {
        date: parse_date(date).unwrap(),
        summary_text: "A quiet day.".to_string(),
        usage_patterns: Vec::new(),
        device_stats: Vec::new(),
        active_device_count: 1,
    }
}

fn stamp(date: &str, hour: u64, minute: u64, epoch_minutes: i64) -> SessionStamp {
    SessionStamp { date: parse_date(date).unwrap(), hour, minute, epoch_minutes }
}

fn session() -> Session {
    Session {
        id: Some(7),
        start_time: stamp("2024-05-01", 9, 30, 28_580_000),
        end_time: stamp("2024-05-01", 10, 45, 28_580_075),
        title: "Writing".to_string(),
        summary: "Edited the draft.".to_string(),
        tags: Vec::new(),
        video_path: None,
    }
}

#[test]
fn default_daily_note_with_no_sessions_names_date_and_marker() {
    let exporter = ObsidianExporter::new(config());
    let links: Vec<String> = Vec::new();
    let note = exporter.render_daily_note(&day_summary("2024-05-01"), &links);
    assert!(note.contains("2024-05-01"));
    assert!(note.contains("- No sessions recorded"));
    assert!(note.contains("session_count: 0"));
    assert!(note.contains("No usage statistics"));
    assert!(note.contains("No device stats"));
}

#[test]
fn daily_note_lists_sessions_patterns_and_devices() {
    let exporter = ObsidianExporter::new(config());
    let mut summary = day_summary("2024-05-01");
    summary.usage_patterns.push(UsagePattern {
        label: "peak".to_string(),
        value: "morning".to_string(),
    });
    summary.device_stats.push(DeviceStat {
        name: "laptop".to_string(),
        device_type: "mac".to_string(),
        total_time: "2h".to_string(),
        screenshots: 12,
    });
    let links = vec!["[[Sessions/2024-05-01/x.md]]".to_string()];
    let note = exporter.render_daily_note(&summary, &links);
    assert!(note.contains("- [[Sessions/2024-05-01/x.md]]"));
    assert!(note.contains("- peak: morning"));
    assert!(note.contains("- laptop (mac): 2h, 12 screenshots"));
    assert!(note.contains("session_count: 1"));
}

#[test]
fn daily_template_override_substitutes_placeholders() {
    let mut cfg = config();
    cfg.daily_template = Some("On {{date}}: {{summary}} ({{unknown}})".to_string());
    let exporter = ObsidianExporter::new(cfg);
    let links: Vec<String> = Vec::new();
    let note = exporter.render_daily_note(&day_summary("2024-05-01"), &links);
    assert_eq!(note, "On 2024-05-01: A quiet day. ({{unknown}})");
}

#[test]
fn session_note_uses_template_override_and_keeps_unknown_keys() {
    let mut cfg = config();
    cfg.session_template = Some("{{title}}{{unknown_key}}".to_string());
    let exporter = ObsidianExporter::new(cfg);
    let metrics = build_session_metrics(&Vec::new(), 75);
    let note = exporter.render_session_note(
        &session(),
        "09:30",
        "10:45",
        75,
        "[]",
        "- No timeline available",
        "No metrics available",
        &metrics,
        "",
        "",
    );
    assert_eq!(note, "Writing{{unknown_key}}");
}

#[test]
fn default_session_note_fills_front_matter_and_sections() {
    let exporter = ObsidianExporter::new(config());
    let cards = vec![TimelineCardRecord {
        start_time: "2024-05-01T09:30:00Z".to_string(),
        end_time: "2024-05-01T10:45:00Z".to_string(),
        category: "work".to_string(),
        subcategory: "writing".to_string(),
        title: "Draft".to_string(),
        summary: "editing".to_string(),
    }];
    let metrics = build_session_metrics(&cards, 75);
    let timeline = render_timeline(&cards);
    let metrics_block = render_metrics(&metrics);
    let note = exporter.render_session_note(
        &session(),
        "09:30",
        "10:45",
        75,
        "[]",
        &timeline,
        &metrics_block,
        &metrics,
        "",
        "",
    );
    assert!(note.contains("session_id: 7"));
    assert!(note.contains("duration_minutes: 75"));
    assert!(note.contains("fragmentation_level: low"));
    assert!(note.contains("# Writing"));
    assert!(note.contains("- 09:30-10:45 [work / writing] Draft: editing"));
    assert!(!note.contains("## Video"));
    assert!(!note.contains("## Screenshots"));
}

#[test]
fn blank_titles_and_summaries_fall_back() {
    let exporter = ObsidianExporter::new(config());
    let mut s = session();
    s.title = "  ".to_string();
    s.summary = String::new();
    let metrics = build_session_metrics(&Vec::new(), 75);
    let note = exporter.render_session_note(
        &s,
        "09:30",
        "10:45",
        75,
        "[]",
        "- No timeline available",
        "No metrics available",
        &metrics,
        "",
        "",
    );
    assert!(note.contains("# Untitled Session"));
    assert!(note.contains("No summary"));
}

#[test]
fn timeline_renders_clock_text_from_parsed_timestamps() {
    let cards = vec![TimelineCardRecord {
        start_time: "2024-05-01T13:45:00+02:00".to_string(),
        end_time: "bad stamp".to_string(),
        category: "work".to_string(),
        subcategory: "general".to_string(),
        title: "t".to_string(),
        summary: "s".to_string(),
    }];
    let text = render_timeline(&cards);
    assert_eq!(text, "- 13:45-bad stamp [work / general] t: s");
    let empty: Vec<TimelineCardRecord> = Vec::new();
    assert_eq!(render_timeline(&empty), "- No timeline available");
}

#[test]
fn sanitization_removes_every_forbidden_character() {
    let sanitized = sanitize_filename("a/b\\c:d*e?f\"g<h>i|j");
    assert_eq!(sanitized, "a_b_c_d_e_f_g_h_i_j");
    for c in ['/', '\\', ':', '*', '?', '"', '<', '>', '|'] {
        assert!(!sanitized.contains(c));
    }
    assert_eq!(sanitize_filename("2024-05-01"), "2024-05-01");
}

#[test]
fn file_urls_normalize_separators_and_spaces() {
    assert_eq!(
        to_file_url("C:\\My Shots\\pic 1.jpg"),
        "file:///C:/My%20Shots/pic%201.jpg"
    );
    assert_eq!(to_file_url("/home/u/pic.jpg"), "file:///home/u/pic.jpg");
    assert_eq!(to_file_url("relative/pic.jpg"), "file://relative/pic.jpg");
}

#[test]
fn markdown_links_wrap_label_and_url() {
    assert_eq!(format_markdown_link("Video", "file:///v.mp4"), "[Video](file:///v.mp4)");
}

#[test]
fn screenshot_selection_keeps_first_and_last() {
    let frames: Vec<Frame> = Vec::new();
    assert!(pick_screenshots(&frames).is_empty());
    let one = vec![Frame { file_path: "a.jpg".to_string() }];
    assert_eq!(pick_screenshots(&one).len(), 1);
    let same = vec![
        Frame { file_path: "a.jpg".to_string() },
        Frame { file_path: "b.jpg".to_string() },
        Frame { file_path: "a.jpg".to_string() },
    ];
    assert_eq!(pick_screenshots(&same).len(), 1);
    let distinct = vec![
        Frame { file_path: "a.jpg".to_string() },
        Frame { file_path: "b.jpg".to_string() },
        Frame { file_path: "c.jpg".to_string() },
    ];
    let picked = pick_screenshots(&distinct);
    assert_eq!(picked.len(), 2);
    assert_eq!(picked[0].file_path, "a.jpg");
    assert_eq!(picked[1].file_path, "c.jpg");
}

#[test]
fn session_paths_follow_the_documented_shape() {
    let s = session();
    assert_eq!(session_filename(&s), "2024-05-01_0930-1045_session-7.md");
    assert_eq!(
        session_link(&s),
        "[[Sessions/2024-05-01/2024-05-01_0930-1045_session-7.md]]"
    );
    assert_eq!(daily_note_rel_path("2024-05-01"), "Daily/2024-05-01.md");
    assert_eq!(sessions_dir_rel("2024-05-01"), "Sessions/2024-05-01");
    assert_eq!(assets_dir_rel("2024-05-01"), "Assets/2024-05-01");
}

#[test]
fn tags_render_their_category_names() {
    let none: Vec<ActivityTag> = Vec::new();
    assert_eq!(format_tags(&none), "[]");
    let tags = vec![
        ActivityTag { category: ActivityCategory::Work },
        ActivityTag { category: ActivityCategory::Idle },
    ];
    assert_eq!(format_tags(&tags), "[work, idle]");
}

#[test]
fn vault_root_requires_a_configured_path() {
    let mut cfg = config();
    cfg.vault_path = "   ".to_string();
    let exporter = ObsidianExporter::new(cfg);
    assert!(exporter.vault_root().is_none());
    assert_eq!(vault_not_configured_error(), "Obsidian vault path not configured");
    let mut nested = config();
    nested.root_folder = " screen ".to_string();
    let exporter = ObsidianExporter::new(nested);
    assert_eq!(exporter.vault_root().unwrap(), "/vault/screen");
}

fn zero_week_summary() -> obsidian_export::aggregate::WeekSummaryData {
    let date = parse_date("2024-05-01").unwrap();
    let week = week_bounds(&date).unwrap();
    let acts: Vec<ActivityRollup> = Vec::new();
    let day_summaries: Vec<Option<String>> = vec![None; 7];
    build_week_summary(
        &week,
        &acts,
        WeekFocusMetrics::default(),
        score_config_from(70, 300),
        &day_summaries,
    )
}

#[test]
fn untracked_week_marks_both_week_documents() {
    let exporter = ObsidianExporter::new(config());
    let summary = zero_week_summary();
    let weekly = exporter.render_weekly_note(&summary);
    let (index_path, index) = exporter.render_week_index(&summary);
    assert!(weekly.contains("No focus data available"));
    assert!(index.contains("No focus data available"));
    assert_eq!(index_path, "Index/weeks-2024-W18.md");
    assert!(weekly.contains("# 2024-W18 Weekly Report"));
    assert!(index.contains("# 2024-W18 Weekly Index"));
    assert!(weekly.contains("- [[Index/weeks-2024-W18.md]]"));
}

#[test]
fn overview_links_the_current_documents() {
    let date = parse_date("2024-05-01").unwrap();
    let label = "2024-W18".to_string();
    let (path, content) = render_overview(&date, Some(&label), "2024-05-01 12:00");
    assert_eq!(path, "Index/overview.md");
    assert!(content.contains("- Today: [[Daily/2024-05-01]]"));
    assert!(content.contains("- This week: [[Weekly/2024-W18]]"));
    assert!(content.contains("- Week index: [[Index/weeks-2024-W18.md]]"));
    assert!(content.contains("- Month index: [[Index/sessions-2024-05.md]]"));
    let (_, bare) = render_overview(&date, None, "2024-05-01 12:00");
    assert!(bare.contains("- This week: none"));
    assert!(bare.contains("- Week index: none"));
}

#[test]
fn outcome_message_lists_paths_and_warnings() {
    let outcome = ExportOutcome {
        daily_note_path: "/vault/Daily/2024-05-01.md".to_string(),
        session_paths: vec!["/vault/Sessions/2024-05-01/a.md".to_string()],
        index_note_path: Some("/vault/Index/sessions-2024-05.md".to_string()),
        week_index_path: None,
        weekly_note_path: None,
        overview_path: Some("/vault/Index/overview.md".to_string()),
        warnings: vec![session_export_warning(9, "timed out")],
    };
    let message = outcome.render_message();
    assert_eq!(
        message,
        "Exported daily summary: /vault/Daily/2024-05-01.md\n\
         Session count: 1\n\
         Index file: /vault/Index/sessions-2024-05.md\n\
         Overview file: /vault/Index/overview.md\n\
         \n\
         Warnings:\n\
         - Session 9 export failed: timed out\n"
    );
}

#[test]
fn outcome_message_without_warnings_has_no_warning_section() {
    let outcome = ExportOutcome {
        daily_note_path: "/vault/Daily/2024-05-01.md".to_string(),
        session_paths: Vec::new(),
        index_note_path: None,
        week_index_path: None,
        weekly_note_path: None,
        overview_path: None,
        warnings: Vec::new(),
    };
    let message = outcome.render_message();
    assert_eq!(
        message,
        "Exported daily summary: /vault/Daily/2024-05-01.md\nSession count: 0"
    );
    assert!(!message.contains("Warnings"));
}

#[test]
fn negative_year_dates_format_like_rust_width_four() {
    let d = DateYmd { year: -1, month: 1, day: 2 };
    assert_eq!(obsidian_export::dates::format_date(&d), "-001-01-02");
}
