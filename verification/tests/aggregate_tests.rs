use obsidian_export::aggregate::{
    build_day_table, build_month_index, build_week_insights, build_week_preview,
    build_week_summary, compact_summary_text, ranked_categories, score_config_from,
    sort_activities_by_date, sum_activity_totals, top_categories, WeekSummaryData,
};
use obsidian_export::dates::{parse_date, week_bounds};
use obsidian_export::metrics::{WeekFocusMetrics, WeekScoreConfig};
use obsidian_export::model::ActivityRollup;

fn rollup(date: &str, sessions: i64, minutes: i64, cats: &[&str]) -> ActivityRollup {
    ActivityRollup {
        date: parse_date(date).unwrap(),
        session_count: sessions,
        total_duration_minutes: minutes,
        main_categories: cats.iter().map(|c| c.to_string()).collect(),
    }
}

#[test]
fn compact_text_flattens_line_breaks() {
    assert_eq!(compact_summary_text("line1\nline2\rline3", 140), "line1 line2 line3");
}

#[test]
fn compact_text_truncates_with_ellipsis() {
    let long = "a".repeat(150);
    let out = compact_summary_text(&long, 140);
    assert_eq!(out.chars().count(), 143);
    assert!(out.ends_with("..."));
    assert_eq!(compact_summary_text("short", 140), "short");
}

#[test]
fn totals_sum_over_every_record() {
    let acts = vec![
        rollup("2024-05-01", 3, 120, &["work"]),
        rollup("2024-05-02", 2, 60, &["idle"]),
    ];
    let (sessions, minutes) = sum_activity_totals(&acts);
    assert_eq!(sessions, 5);
    assert_eq!(minutes, 180);
}

#[test]
fn activities_sort_by_calendar_date() {
    let acts = vec![
        rollup("2024-05-03", 1, 10, &[]),
        rollup("2024-04-30", 2, 20, &[]),
        rollup("2024-05-01", 3, 30, &[]),
    ];
    let sorted = sort_activities_by_date(acts);
    let dates: Vec<String> = sorted
        .iter()
        .map(|a| obsidian_export::dates::format_date(&a.date))
        .collect();
    assert_eq!(dates, vec!["2024-04-30", "2024-05-01", "2024-05-03"]);
}

#[test]
fn category_ranking_counts_listings_and_keeps_first_seen_order_on_ties() {
    let acts = vec![
        rollup("2024-05-01", 1, 10, &["work", "idle"]),
        rollup("2024-05-02", 1, 10, &["work", "personal"]),
    ];
    let ranked = ranked_categories(&acts);
    assert_eq!(ranked[0], ("work".to_string(), 2));
    // idle and personal tie at 1; idle was seen first
    assert_eq!(ranked[1], ("idle".to_string(), 1));
    assert_eq!(ranked[2], ("personal".to_string(), 1));
    assert_eq!(top_categories(&ranked), "work(2), idle(1), personal(1)");
}

#[test]
fn top_categories_keeps_at_most_five_and_marks_empty() {
    let acts = vec![rollup(
        "2024-05-01",
        1,
        10,
        &["a", "b", "c", "d", "e", "f"],
    )];
    let ranked = ranked_categories(&acts);
    let text = top_categories(&ranked);
    assert_eq!(text.matches('(').count(), 5);
    let none: Vec<(String, u64)> = Vec::new();
    assert_eq!(top_categories(&none), "none");
}

#[test]
fn day_table_has_a_placeholder_row_without_activity() {
    let empty: Vec<ActivityRollup> = Vec::new();
    let lines = build_day_table(&empty);
    assert_eq!(
        lines,
        vec![
            "| Date | Sessions | Minutes | Top Categories |".to_string(),
            "| --- | --- | --- | --- |".to_string(),
            "| - | 0 | 0 | - |".to_string(),
        ]
    );
}

#[test]
fn day_table_links_each_day() {
    let acts = vec![rollup("2024-05-01", 3, 120, &["work", "idle"])];
    let lines = build_day_table(&acts);
    assert_eq!(lines.len(), 3);
    assert_eq!(lines[2], "| [[Daily/2024-05-01]] | 3 | 120 | work, idle |");
}

#[test]
fn month_index_reports_totals_and_averages() {
    let date = parse_date("2024-05-01").unwrap();
    let acts = sort_activities_by_date(vec![
        rollup("2024-05-02", 2, 100, &["idle"]),
        rollup("2024-05-01", 3, 140, &["work"]),
    ]);
    let (path, content) = build_month_index(&date, &acts);
    assert_eq!(path, "Index/sessions-2024-05.md");
    assert!(content.contains("month: 2024-05"));
    assert!(content.contains("total_sessions: 5"));
    assert!(content.contains("total_minutes: 240"));
    assert!(content.contains("avg_session_minutes: 48"));
    assert!(content.contains("# 2024-05 Monthly Index"));
    assert!(content.contains("| [[Daily/2024-05-01]] | 3 | 140 | work |"));
}

#[test]
fn score_config_clamps_its_inputs() {
    let sc = score_config_from(70, 300);
    assert_eq!(
        sc,
        WeekScoreConfig { focus_weight: 70, effort_weight: 30, target_minutes: 300 }
    );
    let clamped = score_config_from(250, 0);
    assert_eq!(
        clamped,
        WeekScoreConfig { focus_weight: 100, effort_weight: 0, target_minutes: 1 }
    );
}

fn sample_summary(total_minutes: i64, avg: i64, focus: WeekFocusMetrics) -> WeekSummaryData {
    let date = parse_date("2024-05-01").unwrap();
    let week = week_bounds(&date).unwrap();
    let acts: Vec<ActivityRollup> = Vec::new();
    let day_summaries: Vec<Option<String>> = vec![None; 7];
    let mut summary = build_week_summary(
        &week,
        &acts,
        focus,
        score_config_from(70, 300),
        &day_summaries,
    );
    summary.total_minutes = total_minutes;
    summary.avg_session_minutes = avg;
    summary
}

#[test]
fn week_summary_labels_and_highlights() {
    let date = parse_date("2024-05-01").unwrap();
    let week = week_bounds(&date).unwrap();
    let acts = vec![rollup("2024-05-01", 2, 60, &["work"])];
    let day_summaries: Vec<Option<String>> = vec![
        Some("Busy\nmorning".to_string()),
        None,
        None,
        None,
        None,
        None,
        None,
    ];
    let summary = build_week_summary(
        &week,
        &acts,
        WeekFocusMetrics::default(),
        score_config_from(70, 300),
        &day_summaries,
    );
    assert_eq!(summary.week_label, "2024-W18");
    assert_eq!(summary.week_start, "2024-04-29");
    assert_eq!(summary.week_end, "2024-05-05");
    assert_eq!(summary.total_sessions, 2);
    assert_eq!(summary.total_minutes, 60);
    assert_eq!(summary.daily_highlights.len(), 7);
    assert_eq!(summary.daily_highlights[0], "- [[Daily/2024-04-29]]: Busy morning");
    assert_eq!(summary.daily_highlights[1], "- [[Daily/2024-04-30]]: No summary yet");
    assert_eq!(summary.daily_highlights[6], "- [[Daily/2024-05-05]]: No summary yet");
}

#[test]
fn insights_follow_the_documented_thresholds() {
    let focus = WeekFocusMetrics {
        total_minutes: 300,
        work_minutes: 210,
        learning_minutes: 0,
        communication_minutes: 30,
        personal_minutes: 30,
        idle_minutes: 30,
        other_minutes: 0,
    };
    let summary = sample_summary(250, 10, focus);
    let insights = build_week_insights(&summary);
    assert_eq!(
        insights,
        vec![
            "High focus this week; keep the current rhythm".to_string(),
            "High productivity score; effort and focus are well balanced".to_string(),
            "Low total time this week; likely a light-load week".to_string(),
            "Short average sessions suggest fragmentation".to_string(),
        ]
    );
}

#[test]
fn insights_report_low_focus_and_fatigue() {
    let focus = WeekFocusMetrics {
        total_minutes: 1300,
        work_minutes: 100,
        learning_minutes: 0,
        communication_minutes: 200,
        personal_minutes: 500,
        idle_minutes: 500,
        other_minutes: 0,
    };
    let summary = sample_summary(1300, 70, focus);
    let insights = build_week_insights(&summary);
    assert_eq!(
        insights,
        vec![
            "Low focus this week; consider reducing high-distraction activities".to_string(),
            "Low productivity score; watch total effort and focus share".to_string(),
            "High total time this week; beware of fatigue".to_string(),
            "Long average sessions show deep-work tendency".to_string(),
        ]
    );
}

#[test]
fn week_preview_flattens_the_summary() {
    let focus = WeekFocusMetrics {
        total_minutes: 300,
        work_minutes: 210,
        learning_minutes: 0,
        communication_minutes: 30,
        personal_minutes: 30,
        idle_minutes: 30,
        other_minutes: 0,
    };
    let summary = sample_summary(300, 30, focus);
    let preview = build_week_preview(&summary);
    assert_eq!(preview.week_label, "2024-W18");
    assert_eq!(preview.focus_minutes, 210);
    assert_eq!(preview.distraction_minutes, 60);
    assert_eq!(preview.focus_ratio, 70);
    assert_eq!(preview.distraction_ratio, 20);
    assert_eq!(preview.focus_score, 70);
    assert_eq!(preview.effort_score, 100);
    assert_eq!(preview.productivity_score, 79);
    assert_eq!(preview.focus_weight, 70);
    assert_eq!(preview.effort_weight, 30);
    assert_eq!(preview.target_minutes, 300);
}
