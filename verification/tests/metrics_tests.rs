use obsidian_export::metrics::{
    build_session_metrics, count_context_switches, render_metrics, render_week_focus_metrics,
    WeekFocusMetrics, WeekScoreConfig,
};
use obsidian_export::model::TimelineCardRecord;

fn card(start: &str, end: &str, category: &str) -> TimelineCardRecord {
    TimelineCardRecord {
        start_time: start.to_string(),
        end_time: end.to_string(),
        category: category.to_string(),
        subcategory: "general".to_string(),
        title: "card".to_string(),
        summary: "something happened".to_string(),
    }
}

#[test]
fn empty_card_list_yields_zero_metrics_and_marker() {
    let cards: Vec<TimelineCardRecord> = Vec::new();
    let metrics = build_session_metrics(&cards, 45);
    assert_eq!(metrics.timeline_cards, 0);
    assert_eq!(metrics.context_switches, 0);
    assert_eq!(metrics.avg_segment_minutes, 0);
    assert_eq!(metrics.fragmentation_level, "low");
    assert_eq!(render_metrics(&metrics), "No metrics available");
}

#[test]
fn context_switches_compare_categories_case_insensitively() {
    let cards = vec![
        card("2024-05-01T10:00:00Z", "2024-05-01T10:10:00Z", "Work"),
        card("2024-05-01T10:10:00Z", "2024-05-01T10:20:00Z", "WORK"),
        card("2024-05-01T10:20:00Z", "2024-05-01T10:30:00Z", "meeting"),
    ];
    assert_eq!(count_context_switches(&cards), 1);
}

#[test]
fn fragmentation_levels_follow_switch_counts() {
    let one = vec![
        card("a", "b", "work"),
        card("a", "b", "idle"),
    ];
    assert_eq!(build_session_metrics(&one, 10).fragmentation_level, "low");
    let two = vec![
        card("a", "b", "work"),
        card("a", "b", "idle"),
        card("a", "b", "work"),
    ];
    assert_eq!(build_session_metrics(&two, 10).fragmentation_level, "medium");
    let four = vec![
        card("a", "b", "work"),
        card("a", "b", "idle"),
        card("a", "b", "work"),
        card("a", "b", "idle"),
        card("a", "b", "work"),
    ];
    assert_eq!(build_session_metrics(&four, 10).fragmentation_level, "high");
}

#[test]
fn average_segment_minutes_truncates() {
    let cards = vec![
        card("a", "b", "work"),
        card("a", "b", "work"),
        card("a", "b", "work"),
    ];
    let metrics = build_session_metrics(&cards, 10);
    assert_eq!(metrics.avg_segment_minutes, 3);
}

#[test]
fn rendered_metrics_lists_every_number() {
    let cards = vec![
        card("a", "b", "work"),
        card("a", "b", "idle"),
    ];
    let metrics = build_session_metrics(&cards, 20);
    let text = render_metrics(&metrics);
    assert_eq!(
        text,
        "- Timeline cards: 2\n- Context switches: 1\n- Average segment minutes: 10\n- Fragmentation level: low"
    );
}

#[test]
fn add_card_accumulates_by_classified_bucket() {
    let mut m = WeekFocusMetrics::default();
    m.add_card(&card("2024-05-01T10:00:00Z", "2024-05-01T10:30:00Z", "Work"));
    m.add_card(&card("2024-05-01T11:00:00Z", "2024-05-01T11:20:00Z", "meeting"));
    assert_eq!(m.total_minutes, 50);
    assert_eq!(m.work_minutes, 30);
    assert_eq!(m.communication_minutes, 20);
}

#[test]
fn unparsable_or_negative_spans_are_skipped() {
    let mut m = WeekFocusMetrics::default();
    m.add_card(&card("not a time", "2024-05-01T10:30:00Z", "work"));
    m.add_card(&card("2024-05-01T11:00:00Z", "2024-05-01T10:00:00Z", "work"));
    assert_eq!(m.total_minutes, 0);
    assert_eq!(m.work_minutes, 0);
}

fn sample_metrics() -> WeekFocusMetrics {
    WeekFocusMetrics {
        total_minutes: 300,
        work_minutes: 180,
        learning_minutes: 30,
        communication_minutes: 30,
        personal_minutes: 30,
        idle_minutes: 30,
        other_minutes: 0,
    }
}

#[test]
fn bucket_totals_partition_the_week() {
    let m = sample_metrics();
    assert_eq!(
        m.focus_minutes() + m.distraction_minutes() + m.communication_minutes,
        m.total_minutes
    );
    assert!(m.focus_ratio() + m.distraction_ratio() <= 100);
}

#[test]
fn productivity_score_blends_focus_and_effort() {
    // focus 210 of 300 -> ratio 70; effort at target 300 -> 100;
    // (70*70 + 100*30) / 100 = 79
    let m = sample_metrics();
    assert_eq!(m.focus_ratio(), 70);
    assert_eq!(m.effort_score(300), 100);
    assert_eq!(m.productivity_score(70, 30, 300), 79);
}

#[test]
fn effort_score_never_exceeds_100() {
    let mut m = sample_metrics();
    m.total_minutes = 900;
    m.work_minutes = 780;
    assert_eq!(m.effort_score(300), 100);
    m.total_minutes = 150;
    m.work_minutes = 30;
    assert_eq!(m.effort_score(300), 50);
    assert_eq!(m.effort_score(0), 0);
}

#[test]
fn ratios_are_zero_without_tracked_minutes() {
    let m = WeekFocusMetrics::default();
    assert_eq!(m.focus_ratio(), 0);
    assert_eq!(m.distraction_ratio(), 0);
    assert_eq!(m.effort_score(300), 0);
    assert_eq!(m.productivity_score(70, 30, 300), 0);
}

#[test]
fn untracked_week_renders_the_no_data_marker() {
    let m = WeekFocusMetrics::default();
    let sc = WeekScoreConfig { focus_weight: 70, effort_weight: 30, target_minutes: 300 };
    assert_eq!(render_week_focus_metrics(&m, &sc), "No focus data available");
}

#[test]
fn tracked_week_renders_every_score() {
    let m = sample_metrics();
    let sc = WeekScoreConfig { focus_weight: 70, effort_weight: 30, target_minutes: 300 };
    let text = render_week_focus_metrics(&m, &sc);
    assert!(text.contains("- Focus minutes: 210 (70%)"));
    assert!(text.contains("- Communication minutes: 30"));
    assert!(text.contains("- Distraction minutes: 60 (20%)"));
    assert!(text.contains("- Productivity score: 79 / 100 (weights 70% / 30%)"));
    assert!(text.contains("- Breakdown: work 180 / learning 30 / personal 30 / idle 30 / other 0"));
}
