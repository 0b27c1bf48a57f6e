//! The export configuration, the document renderers for daily, session,
//! week-index, weekly-report and overview notes, the deterministic artifact
//! paths, and the outcome record of one day's export.

use vstd::prelude::*;
use vstd::string::StringExecFns;

use crate::aggregate::{build_week_insights, insights_views, WeekSummaryData};
use crate::dates::{date_text, month_label, month_label_text, DateYmd};
use crate::metrics::{distraction_minutes_spec, effort_spec, focus_minutes_spec,
    productivity_spec, ratio_spec, render_week_focus_metrics, week_focus_text, SessionMetrics};
use crate::model::{DaySummary, DeviceStat, Session, UsagePattern};
use crate::notes::{sanitize_filename, sanitized_of, session_display_id};
use crate::template::{pair_views, render_spec, render_template};
use crate::text::{dec_int, i64_to_string, join_views, string_views, trimmed};

verus! {

/// How a screenshot is materialized: copied into the vault, or referenced
/// in place by URL.
#[derive(Clone, Copy, Debug, PartialEq, Eq, Structural)]
pub enum ObsidianExportMode {
    Copy,
    Link,
}

/// The export settings: where the vault lives, what to include, template
/// overrides, and the weekly scoring knobs.
#[derive(Clone, Debug)]
pub struct ObsidianExportConfig {
    pub vault_path: String,
    pub root_folder: String,
    pub include_screenshots: bool,
    pub include_video_link: bool,
    pub export_mode: ObsidianExportMode,
    pub daily_template: Option<String>,
    pub session_template: Option<String>,
    pub weekly_focus_weight: i64,
    pub weekly_target_minutes: i64,
}

impl ObsidianExportConfig {
    pub open spec fn wf(self) -> bool {
        0 <= self.weekly_focus_weight
    }
}

/// The out-of-the-box export settings.
pub open spec fn obsidian_config_default_ok(c: ObsidianExportConfig) -> bool {
    &&& c.vault_path@ == Seq::<char>::empty()
    &&& c.root_folder@ == Seq::<char>::empty()
    &&& c.include_screenshots == true
    &&& c.include_video_link == true
    &&& c.export_mode == ObsidianExportMode::Copy
    &&& c.daily_template is None
    &&& c.session_template is None
    &&& c.weekly_focus_weight == 70
    &&& c.weekly_target_minutes == 300
}

impl Default for ObsidianExportConfig {
    /// No vault configured yet; screenshots copied, video linked, focus
    /// weighted at 70% against a 300-minute weekly target.
    fn default() -> (r: Self)
        ensures
            obsidian_config_default_ok(r),
            r.wf(),
    {
        ObsidianExportConfig {
            vault_path: String::new(),
            root_folder: String::new(),
            include_screenshots: true,
            include_video_link: true,
            export_mode: ObsidianExportMode::Copy,
            daily_template: None,
            session_template: None,
            weekly_focus_weight: 70,
            weekly_target_minutes: 300,
        }
    }
}

/// Renders every document of one day's export from already-fetched records.
pub struct ObsidianExporter {
    pub config: ObsidianExportConfig,
}

/// The user template when present and not blank, the computed default
/// otherwise.
pub open spec fn template_choice(t: Option<String>, fallback: Seq<char>) -> Seq<char> {
    match t {
        Some(s) => if trimmed(s@).len() > 0 {
            s@
        } else {
            fallback
        },
        None => fallback,
    }
}

/// The root the artifacts live under: the trimmed vault path, with the
/// trimmed root folder appended when one is configured.
pub open spec fn vault_root_text(config: ObsidianExportConfig) -> Seq<char> {
    if trimmed(config.root_folder@).len() == 0 {
        trimmed(config.vault_path@)
    } else {
        trimmed(config.vault_path@) + seq!['/'] + trimmed(config.root_folder@)
    }
}

/// The daily note's path under the root.
pub fn daily_note_rel_path(date: &str) -> (r: String)
    ensures
        r@ == "Daily/"@ + sanitized_of(date@) + ".md"@,
{
    let mut p = String::from_str("Daily/");
    let name = sanitize_filename(date);
    p.append(name.as_str());
    p.append(".md");
    proof {
        assert(p@ =~= "Daily/"@ + sanitized_of(date@) + ".md"@);
    }
    p
}

/// The day's session directory under the root.
pub fn sessions_dir_rel(date: &str) -> (r: String)
    ensures
        r@ == "Sessions/"@ + date@,
{
    let mut p = String::from_str("Sessions/");
    p.append(date);
    proof {
        assert(p@ =~= "Sessions/"@ + date@);
    }
    p
}

/// The day's asset directory under the root.
pub fn assets_dir_rel(date: &str) -> (r: String)
    ensures
        r@ == "Assets/"@ + date@,
{
    let mut p = String::from_str("Assets/");
    p.append(date);
    proof {
        assert(p@ =~= "Assets/"@ + date@);
    }
    p
}

/// The week index's path under the root.
pub fn week_index_rel_path(label: &str) -> (r: String)
    ensures
        r@ == "Index/weeks-"@ + label@ + ".md"@,
{
    let mut p = String::from_str("Index/weeks-");
    p.append(label);
    p.append(".md");
    proof {
        assert(p@ =~= "Index/weeks-"@ + label@ + ".md"@);
    }
    p
}

/// The weekly report's path under the root.
pub fn weekly_note_rel_path(label: &str) -> (r: String)
    ensures
        r@ == "Weekly/"@ + label@ + ".md"@,
{
    let mut p = String::from_str("Weekly/");
    p.append(label);
    p.append(".md");
    proof {
        assert(p@ =~= "Weekly/"@ + label@ + ".md"@);
    }
    p
}

/// The overview page's path under the root.
pub fn overview_rel_path() -> (r: String)
    ensures
        r@ == "Index/overview.md"@,
{
    String::from_str("Index/overview.md")
}

/// The session-index section of a daily note: one line per exported
/// session, or an explicit marker when the day has none.
pub open spec fn session_list_text(links: Seq<String>) -> Seq<char> {
    if links.len() == 0 {
        "- No sessions recorded"@
    } else {
        join_views(links.map(|i: int, l: String| "- "@ + l@), "\n"@)
    }
}

/// The usage-pattern section of a daily note.
pub open spec fn usage_patterns_text(ps: Seq<UsagePattern>) -> Seq<char> {
    if ps.len() == 0 {
        "No usage statistics"@
    } else {
        join_views(ps.map(|i: int, p: UsagePattern| "- "@ + p.label@ + ": "@ + p.value@), "\n"@)
    }
}

/// The device-stat section of a daily note.
pub open spec fn device_stats_text(ds: Seq<DeviceStat>) -> Seq<char> {
    if ds.len() == 0 {
        "No device stats"@
    } else {
        join_views(
            ds.map(
                |i: int, d: DeviceStat|
                    "- "@ + d.name@ + " ("@ + d.device_type@ + "): "@ + d.total_time@ + ", "@
                        + dec_int(d.screenshots as int) + " screenshots"@,
            ),
            "\n"@,
        )
    }
}

fn render_session_list(links: &Vec<String>) -> (r: String)
    ensures
        r@ == session_list_text(links@),
{
    if links.len() == 0 {
        return String::from_str("- No sessions recorded");
    }
    let ghost lines = links@.map(|i: int, l: String| "- "@ + l@);
    let mut s = String::new();
    let mut i: usize = 0;
    proof {
        assert(lines.take(0).len() == 0);
    }
    while i < links.len()
        invariant
            0 <= i <= links.len(),
            lines == links@.map(|i: int, l: String| "- "@ + l@),
            s@ == join_views(lines.take(i as int), "\n"@),
        decreases links.len() - i,
    {
        proof {
            assert(lines.take(i + 1).drop_last() =~= lines.take(i as int));
            assert(lines.take(i + 1).last() == lines[i as int]);
        }
        if i > 0 {
            s.append("\n");
        }
        s.append("- ");
        s.append(links[i].as_str());
        proof {
            assert(s@ =~= join_views(lines.take(i + 1), "\n"@));
        }
        i = i + 1;
    }
    proof {
        assert(lines.take(lines.len() as int) =~= lines);
    }
    s
}

fn render_usage_patterns(ps: &Vec<UsagePattern>) -> (r: String)
    ensures
        r@ == usage_patterns_text(ps@),
{
    if ps.len() == 0 {
        return String::from_str("No usage statistics");
    }
    let ghost lines = ps@.map(|i: int, p: UsagePattern| "- "@ + p.label@ + ": "@ + p.value@);
    let mut s = String::new();
    let mut i: usize = 0;
    proof {
        assert(lines.take(0).len() == 0);
    }
    while i < ps.len()
        invariant
            0 <= i <= ps.len(),
            lines == ps@.map(|i: int, p: UsagePattern| "- "@ + p.label@ + ": "@ + p.value@),
            s@ == join_views(lines.take(i as int), "\n"@),
        decreases ps.len() - i,
    {
        proof {
            assert(lines.take(i + 1).drop_last() =~= lines.take(i as int));
            assert(lines.take(i + 1).last() == lines[i as int]);
        }
        if i > 0 {
            s.append("\n");
        }
        s.append("- ");
        s.append(ps[i].label.as_str());
        s.append(": ");
        s.append(ps[i].value.as_str());
        proof {
            assert(s@ =~= join_views(lines.take(i + 1), "\n"@));
        }
        i = i + 1;
    }
    proof {
        assert(lines.take(lines.len() as int) =~= lines);
    }
    s
}

fn render_device_stats(ds: &Vec<DeviceStat>) -> (r: String)
    ensures
        r@ == device_stats_text(ds@),
{
    if ds.len() == 0 {
        return String::from_str("No device stats");
    }
    let ghost lines = ds@.map(
        |i: int, d: DeviceStat|
            "- "@ + d.name@ + " ("@ + d.device_type@ + "): "@ + d.total_time@ + ", "@ + dec_int(
                d.screenshots as int,
            ) + " screenshots"@,
    );
    let mut s = String::new();
    let mut i: usize = 0;
    proof {
        assert(lines.take(0).len() == 0);
    }
    while i < ds.len()
        invariant
            0 <= i <= ds.len(),
            lines == ds@.map(
                |i: int, d: DeviceStat|
                    "- "@ + d.name@ + " ("@ + d.device_type@ + "): "@ + d.total_time@ + ", "@
                        + dec_int(d.screenshots as int) + " screenshots"@,
            ),
            s@ == join_views(lines.take(i as int), "\n"@),
        decreases ds.len() - i,
    {
        proof {
            assert(lines.take(i + 1).drop_last() =~= lines.take(i as int));
            assert(lines.take(i + 1).last() == lines[i as int]);
        }
        if i > 0 {
            s.append("\n");
        }
        s.append("- ");
        s.append(ds[i].name.as_str());
        s.append(" (");
        s.append(ds[i].device_type.as_str());
        s.append("): ");
        s.append(ds[i].total_time.as_str());
        s.append(", ");
        let count_text = i64_to_string(ds[i].screenshots);
        s.append(count_text.as_str());
        s.append(" screenshots");
        proof {
            assert(s@ =~= join_views(lines.take(i + 1), "\n"@));
        }
        i = i + 1;
    }
    proof {
        assert(lines.take(lines.len() as int) =~= lines);
    }
    s
}

/// The computed default daily note for a day summary and its session links.
pub open spec fn daily_default_text(s: DaySummary, links: Seq<String>) -> Seq<char> {
    let date = date_text(s.date.year as int, s.date.month as int, s.date.day as int);
    "---\ntype: screen-analyzer-daily\ndate: "@ + date + "\nsession_count: "@ + dec_int(
        links.len() as int,
    ) + "\nactive_device_count: "@ + dec_int(s.active_device_count as int)
        + "\nsource: screen-analyzer\n---\n\n# "@ + date + " Screen Activity Summary\n\n"@
        + s.summary_text@ + "\n\n## Session Index\n"@ + session_list_text(links)
        + "\n\n## Usage Patterns\n"@ + usage_patterns_text(s.usage_patterns@)
        + "\n\n## Device Stats\n"@ + device_stats_text(s.device_stats@) + "\n"@
}

/// The placeholder mapping of a daily note render.
pub open spec fn daily_pairs(s: DaySummary, links: Seq<String>) -> Seq<(Seq<char>, Seq<char>)> {
    seq![
        ("date"@, date_text(s.date.year as int, s.date.month as int, s.date.day as int)),
        ("summary"@, s.summary_text@),
        ("session_list"@, session_list_text(links)),
        ("usage_patterns"@, usage_patterns_text(s.usage_patterns@)),
        ("device_stats"@, device_stats_text(s.device_stats@)),
        ("active_device_count"@, dec_int(s.active_device_count as int)),
    ]
}

impl ObsidianExporter {
    /// Wraps the export settings.
    pub fn new(config: ObsidianExportConfig) -> (r: Self)
        ensures
            r.config == config,
    {
        ObsidianExporter { config }
    }

    /// The root the artifacts live under, or nothing when the vault path is
    /// blank (a fatal configuration error).
    pub fn vault_root(&self) -> (r: Option<String>)
        ensures
            match r {
                Some(p) => trimmed(self.config.vault_path@).len() > 0 && p@ == vault_root_text(
                    self.config,
                ),
                None => trimmed(self.config.vault_path@).len() == 0,
            },
    {
        let vault = crate::text::str_trim(self.config.vault_path.as_str());
        if vault.as_str().unicode_len() == 0 {
            return None;
        }
        let folder = crate::text::str_trim(self.config.root_folder.as_str());
        if folder.as_str().unicode_len() == 0 {
            Some(vault)
        } else {
            let mut p = vault;
            p.append("/");
            p.append(folder.as_str());
            proof {
                reveal_strlit("/");
                assert(p@ =~= vault_root_text(self.config));
            }
            Some(p)
        }
    }

    /// Renders the daily note: the chosen template with every placeholder
    /// substituted from the day summary and session links.
    pub fn render_daily_note(&self, summary: &DaySummary, session_links: &Vec<String>) -> (r:
        String)
        requires
            summary.wf(),
            session_links@.len() <= 100_000,
        ensures
            r@ == render_spec(
                template_choice(
                    self.config.daily_template,
                    daily_default_text(*summary, session_links@),
                ),
                daily_pairs(*summary, session_links@),
            ),
    {
        let date_str = crate::dates::format_date(&summary.date);
        let list = render_session_list(session_links);
        let patterns = render_usage_patterns(&summary.usage_patterns);
        let devices = render_device_stats(&summary.device_stats);
        let count_text = i64_to_string(session_links.len() as i64);
        let device_count_text = i64_to_string(summary.active_device_count);
        let mut fallback = String::from_str("---\ntype: screen-analyzer-daily\ndate: ");
        fallback.append(date_str.as_str());
        fallback.append("\nsession_count: ");
        fallback.append(count_text.as_str());
        fallback.append("\nactive_device_count: ");
        fallback.append(device_count_text.as_str());
        fallback.append("\nsource: screen-analyzer\n---\n\n# ");
        fallback.append(date_str.as_str());
        fallback.append(" Screen Activity Summary\n\n");
        fallback.append(summary.summary_text.as_str());
        fallback.append("\n\n## Session Index\n");
        fallback.append(list.as_str());
        fallback.append("\n\n## Usage Patterns\n");
        fallback.append(patterns.as_str());
        fallback.append("\n\n## Device Stats\n");
        fallback.append(devices.as_str());
        fallback.append("\n");
        proof {
            assert(fallback@ =~= daily_default_text(*summary, session_links@));
        }
        let mut values: Vec<(String, String)> = Vec::new();
        values.push((String::from_str("date"), date_str));
        values.push((String::from_str("summary"), summary.summary_text.clone()));
        values.push((String::from_str("session_list"), list));
        values.push((String::from_str("usage_patterns"), patterns));
        values.push((String::from_str("device_stats"), devices));
        values.push((String::from_str("active_device_count"), device_count_text));
        proof {
            assert(pair_views(values@) =~= daily_pairs(*summary, session_links@));
        }
        let template: Option<&str> = match &self.config.daily_template {
            Some(t) => Some(t.as_str()),
            None => None,
        };
        let rendered = render_template(template, fallback.as_str(), &values);
        proof {
            assert(crate::template::chosen_template(template, fallback@) == template_choice(
                self.config.daily_template,
                daily_default_text(*summary, session_links@),
            ));
        }
        rendered
    }
}


/// The text itself when it is not blank, the alternative otherwise.
pub open spec fn nonblank_or(s: Seq<char>, alt: Seq<char>) -> Seq<char> {
    if trimmed(s).len() == 0 {
        alt
    } else {
        s
    }
}

/// The video section block of a session note; empty when there is no link.
pub open spec fn video_block_text(video_link: Seq<char>) -> Seq<char> {
    if trimmed(video_link).len() == 0 {
        Seq::empty()
    } else {
        "\n## Video\n"@ + video_link + "\n"@
    }
}

/// The screenshots section block of a session note; empty when there is
/// none.
pub open spec fn screenshots_block_text(section: Seq<char>) -> Seq<char> {
    if trimmed(section).len() == 0 {
        Seq::empty()
    } else {
        "\n## Screenshots\n"@ + section + "\n"@
    }
}

/// The computed default session note.
pub open spec fn session_default_text(
    session: Session,
    start: Seq<char>,
    end: Seq<char>,
    duration_minutes: int,
    tags: Seq<char>,
    timeline: Seq<char>,
    metrics_block: Seq<char>,
    metrics: SessionMetrics,
    video_link: Seq<char>,
    screenshots_section: Seq<char>,
) -> Seq<char> {
    let date = date_text(session.start_time.date.year as int, session.start_time.date.month as int,
        session.start_time.date.day as int);
    let title = nonblank_or(session.title@, "Untitled Session"@);
    let summary = nonblank_or(session.summary@, "No summary"@);
    "---\ntype: screen-analyzer-session\ndate: "@ + date + "\nsession_id: "@ + dec_int(
        session_display_id(session),
    ) + "\nstart: "@ + start + "\nend: "@ + end + "\nduration_minutes: "@ + dec_int(
        duration_minutes,
    ) + "\ntimeline_cards: "@ + dec_int(metrics.timeline_cards as int) + "\ncontext_switches: "@
        + dec_int(metrics.context_switches as int) + "\nfragmentation_level: "@
        + metrics.fragmentation_level@ + "\ntags: "@ + tags
        + "\nsource: screen-analyzer\n---\n\n# "@ + title + "\n\n"@ + summary
        + "\n\n## Metrics\n"@ + metrics_block + "\n\n## Timeline\n"@ + timeline + "\n"@
        + video_block_text(video_link) + screenshots_block_text(screenshots_section)
}

/// The placeholder mapping of a session note render.
pub open spec fn session_pairs(
    session: Session,
    start: Seq<char>,
    end: Seq<char>,
    duration_minutes: int,
    tags: Seq<char>,
    timeline: Seq<char>,
    metrics_block: Seq<char>,
    metrics: SessionMetrics,
    video_link: Seq<char>,
    screenshots_section: Seq<char>,
) -> Seq<(Seq<char>, Seq<char>)> {
    seq![
        (
            "date"@,
            date_text(session.start_time.date.year as int, session.start_time.date.month as int,
                session.start_time.date.day as int),
        ),
        ("session_id"@, dec_int(session_display_id(session))),
        ("start"@, start),
        ("end"@, end),
        ("duration_minutes"@, dec_int(duration_minutes)),
        ("title"@, nonblank_or(session.title@, "Untitled Session"@)),
        ("summary"@, nonblank_or(session.summary@, "No summary"@)),
        ("tags"@, tags),
        ("timeline"@, timeline),
        ("metrics"@, metrics_block),
        ("context_switches"@, dec_int(metrics.context_switches as int)),
        ("fragmentation_level"@, metrics.fragmentation_level@),
        ("video_link"@, video_link),
        ("screenshots"@, screenshots_section),
    ]
}

impl ObsidianExporter {
    /// Renders a session note: the chosen template with every placeholder
    /// substituted from the session, its metrics and its rendered sections.
    pub fn render_session_note(
        &self,
        session: &Session,
        start: &str,
        end: &str,
        duration_minutes: i64,
        tags: &str,
        timeline: &str,
        metrics_block: &str,
        metrics: &SessionMetrics,
        video_link: &str,
        screenshots_section: &str,
    ) -> (r: String)
        requires
            session.wf(),
            duration_minutes >= 0,
            metrics.timeline_cards <= 1_000_000_000,
            metrics.context_switches <= 1_000_000_000,
        ensures
            r@ == render_spec(
                template_choice(
                    self.config.session_template,
                    session_default_text(
                        *session,
                        start@,
                        end@,
                        duration_minutes as int,
                        tags@,
                        timeline@,
                        metrics_block@,
                        *metrics,
                        video_link@,
                        screenshots_section@,
                    ),
                ),
                session_pairs(
                    *session,
                    start@,
                    end@,
                    duration_minutes as int,
                    tags@,
                    timeline@,
                    metrics_block@,
                    *metrics,
                    video_link@,
                    screenshots_section@,
                ),
            ),
    {
        let date_str = crate::dates::format_date(&session.start_time.date);
        let id: i64 = match session.id {
            Some(v) => v,
            None => 0,
        };
        let id_text = i64_to_string(id);
        let duration_text = i64_to_string(duration_minutes);
        let cards_text = i64_to_string(metrics.timeline_cards as i64);
        let switches_text = i64_to_string(metrics.context_switches as i64);
        let title: String = if crate::text::is_blank(session.title.as_str()) {
            String::from_str("Untitled Session")
        } else {
            session.title.clone()
        };
        let summary: String = if crate::text::is_blank(session.summary.as_str()) {
            String::from_str("No summary")
        } else {
            session.summary.clone()
        };
        let video_block: String = if crate::text::is_blank(video_link) {
            String::new()
        } else {
            let mut b = String::from_str("\n## Video\n");
            b.append(video_link);
            b.append("\n");
            b
        };
        let screenshots_block: String = if crate::text::is_blank(screenshots_section) {
            String::new()
        } else {
            let mut b = String::from_str("\n## Screenshots\n");
            b.append(screenshots_section);
            b.append("\n");
            b
        };
        let mut fallback = String::from_str("---\ntype: screen-analyzer-session\ndate: ");
        fallback.append(date_str.as_str());
        fallback.append("\nsession_id: ");
        fallback.append(id_text.as_str());
        fallback.append("\nstart: ");
        fallback.append(start);
        fallback.append("\nend: ");
        fallback.append(end);
        fallback.append("\nduration_minutes: ");
        fallback.append(duration_text.as_str());
        fallback.append("\ntimeline_cards: ");
        fallback.append(cards_text.as_str());
        fallback.append("\ncontext_switches: ");
        fallback.append(switches_text.as_str());
        fallback.append("\nfragmentation_level: ");
        fallback.append(metrics.fragmentation_level.as_str());
        fallback.append("\ntags: ");
        fallback.append(tags);
        fallback.append("\nsource: screen-analyzer\n---\n\n# ");
        fallback.append(title.as_str());
        fallback.append("\n\n");
        fallback.append(summary.as_str());
        fallback.append("\n\n## Metrics\n");
        fallback.append(metrics_block);
        fallback.append("\n\n## Timeline\n");
        fallback.append(timeline);
        fallback.append("\n");
        fallback.append(video_block.as_str());
        fallback.append(screenshots_block.as_str());
        proof {
            assert(fallback@ =~= session_default_text(
                *session,
                start@,
                end@,
                duration_minutes as int,
                tags@,
                timeline@,
                metrics_block@,
                *metrics,
                video_link@,
                screenshots_section@,
            ));
        }
        let mut values: Vec<(String, String)> = Vec::new();
        values.push((String::from_str("date"), date_str));
        values.push((String::from_str("session_id"), id_text));
        values.push((String::from_str("start"), String::from_str(start)));
        values.push((String::from_str("end"), String::from_str(end)));
        values.push((String::from_str("duration_minutes"), duration_text));
        values.push((String::from_str("title"), title));
        values.push((String::from_str("summary"), summary));
        values.push((String::from_str("tags"), String::from_str(tags)));
        values.push((String::from_str("timeline"), String::from_str(timeline)));
        values.push((String::from_str("metrics"), String::from_str(metrics_block)));
        values.push((String::from_str("context_switches"), switches_text));
        values.push(
            (String::from_str("fragmentation_level"), metrics.fragmentation_level.clone()),
        );
        values.push((String::from_str("video_link"), String::from_str(video_link)));
        values.push((String::from_str("screenshots"), String::from_str(screenshots_section)));
        proof {
            assert(pair_views(values@) =~= session_pairs(
                *session,
                start@,
                end@,
                duration_minutes as int,
                tags@,
                timeline@,
                metrics_block@,
                *metrics,
                video_link@,
                screenshots_section@,
            ));
        }
        let template: Option<&str> = match &self.config.session_template {
            Some(t) => Some(t.as_str()),
            None => None,
        };
        let rendered = render_template(template, fallback.as_str(), &values);
        proof {
            assert(crate::template::chosen_template(template, fallback@) == template_choice(
                self.config.session_template,
                session_default_text(
                    *session,
                    start@,
                    end@,
                    duration_minutes as int,
                    tags@,
                    timeline@,
                    metrics_block@,
                    *metrics,
                    video_link@,
                    screenshots_section@,
                ),
            ));
        }
        rendered
    }
}


/// The metric fields shared by the week index's and the weekly report's
/// front matter, through the end of the front-matter block.
pub open spec fn week_frontmatter_fields(s: WeekSummaryData) -> Seq<char> {
    let fm = s.focus_metrics;
    let sc = s.score_config;
    let fr = ratio_spec(focus_minutes_spec(fm), fm.total_minutes as int);
    let dr = ratio_spec(distraction_minutes_spec(fm), fm.total_minutes as int);
    let es = effort_spec(fm.total_minutes as int, sc.target_minutes as int);
    let ps = productivity_spec(fr, es, sc.focus_weight as int, sc.effort_weight as int);
    "week: "@ + s.week_label@ + "\nweek_start: "@ + s.week_start@ + "\nweek_end: "@ + s.week_end@
        + "\ntotal_sessions: "@ + dec_int(s.total_sessions as int) + "\ntotal_minutes: "@
        + dec_int(s.total_minutes as int) + "\navg_session_minutes: "@ + dec_int(
        s.avg_session_minutes as int,
    ) + "\nfocus_minutes: "@ + dec_int(focus_minutes_spec(fm)) + "\nfocus_ratio: "@ + dec_int(fr)
        + "\ndistraction_minutes: "@ + dec_int(distraction_minutes_spec(fm))
        + "\ndistraction_ratio: "@ + dec_int(dr) + "\ncommunication_minutes: "@ + dec_int(
        fm.communication_minutes as int,
    ) + "\nfocus_score: "@ + dec_int(fr) + "\neffort_score: "@ + dec_int(es)
        + "\nproductivity_score: "@ + dec_int(ps) + "\nfocus_weight: "@ + dec_int(
        sc.focus_weight as int,
    ) + "\neffort_weight: "@ + dec_int(sc.effort_weight as int) + "\ntarget_minutes: "@ + dec_int(
        sc.target_minutes as int,
    ) + "\nsource: screen-analyzer\n---\n\n"@
}

/// The overview and focus sections shared by the week index and the weekly
/// report.
pub open spec fn week_overview_block(s: WeekSummaryData) -> Seq<char> {
    "## Overview\n- Total sessions: "@ + dec_int(s.total_sessions as int)
        + "\n- Total minutes: "@ + dec_int(s.total_minutes as int)
        + "\n- Average session minutes: "@ + dec_int(s.avg_session_minutes as int)
        + "\n- Top categories: "@ + s.top_categories@ + "\n\n## Focus\n"@ + week_focus_text(
        s.focus_metrics,
        s.score_config,
    )
}

fn render_week_frontmatter_fields(s: &WeekSummaryData) -> (r: String)
    requires
        s.wf(),
    ensures
        r@ == week_frontmatter_fields(*s),
{
    let fm = &s.focus_metrics;
    let focus = fm.focus_minutes();
    let fr = fm.focus_ratio();
    let dm = fm.distraction_minutes();
    let dr = fm.distraction_ratio();
    let es = fm.effort_score(s.score_config.target_minutes);
    let ps = fm.productivity_score(
        s.score_config.focus_weight,
        s.score_config.effort_weight,
        s.score_config.target_minutes,
    );
    let mut out = String::from_str("week: ");
    out.append(s.week_label.as_str());
    out.append("\nweek_start: ");
    out.append(s.week_start.as_str());
    out.append("\nweek_end: ");
    out.append(s.week_end.as_str());
    out.append("\ntotal_sessions: ");
    let t1 = i64_to_string(s.total_sessions);
    out.append(t1.as_str());
    out.append("\ntotal_minutes: ");
    let t2 = i64_to_string(s.total_minutes);
    out.append(t2.as_str());
    out.append("\navg_session_minutes: ");
    let t3 = i64_to_string(s.avg_session_minutes);
    out.append(t3.as_str());
    out.append("\nfocus_minutes: ");
    let t4 = i64_to_string(focus);
    out.append(t4.as_str());
    out.append("\nfocus_ratio: ");
    let t5 = i64_to_string(fr);
    out.append(t5.as_str());
    out.append("\ndistraction_minutes: ");
    let t6 = i64_to_string(dm);
    out.append(t6.as_str());
    out.append("\ndistraction_ratio: ");
    let t7 = i64_to_string(dr);
    out.append(t7.as_str());
    out.append("\ncommunication_minutes: ");
    let t8 = i64_to_string(fm.communication_minutes);
    out.append(t8.as_str());
    out.append("\nfocus_score: ");
    out.append(t5.as_str());
    out.append("\neffort_score: ");
    let t9 = i64_to_string(es);
    out.append(t9.as_str());
    out.append("\nproductivity_score: ");
    let t10 = i64_to_string(ps);
    out.append(t10.as_str());
    out.append("\nfocus_weight: ");
    let t11 = i64_to_string(s.score_config.focus_weight);
    out.append(t11.as_str());
    out.append("\neffort_weight: ");
    let t12 = i64_to_string(s.score_config.effort_weight);
    out.append(t12.as_str());
    out.append("\ntarget_minutes: ");
    let t13 = i64_to_string(s.score_config.target_minutes);
    out.append(t13.as_str());
    out.append("\nsource: screen-analyzer\n---\n\n");
    proof {
        assert(out@ =~= week_frontmatter_fields(*s));
    }
    out
}

fn render_week_overview_block(s: &WeekSummaryData) -> (r: String)
    requires
        s.wf(),
    ensures
        r@ == week_overview_block(*s),
{
    let mut out = String::from_str("## Overview\n- Total sessions: ");
    let t1 = i64_to_string(s.total_sessions);
    out.append(t1.as_str());
    out.append("\n- Total minutes: ");
    let t2 = i64_to_string(s.total_minutes);
    out.append(t2.as_str());
    out.append("\n- Average session minutes: ");
    let t3 = i64_to_string(s.avg_session_minutes);
    out.append(t3.as_str());
    out.append("\n- Top categories: ");
    out.append(s.top_categories.as_str());
    out.append("\n\n## Focus\n");
    let focus_block = render_week_focus_metrics(&s.focus_metrics, &s.score_config);
    out.append(focus_block.as_str());
    proof {
        assert(out@ =~= week_overview_block(*s));
    }
    out
}

/// The insight section of a weekly report: the advisory lines as a list, or
/// a marker when there are none.
pub open spec fn insight_section_text(s: WeekSummaryData) -> Seq<char> {
    let fm = s.focus_metrics;
    let sc = s.score_config;
    let fr = ratio_spec(focus_minutes_spec(fm), fm.total_minutes as int);
    let es = effort_spec(fm.total_minutes as int, sc.target_minutes as int);
    let ps = productivity_spec(fr, es, sc.focus_weight as int, sc.effort_weight as int);
    let ins = insights_views(fr, ps, s.total_minutes as int, s.avg_session_minutes as int);
    if ins.len() == 0 {
        "- No insights available"@
    } else {
        join_views(ins.map(|i: int, l: Seq<char>| "- "@ + l), "\n"@)
    }
}

/// The daily-highlight section of a weekly report.
pub open spec fn highlight_section_text(s: WeekSummaryData) -> Seq<char> {
    if s.daily_highlights@.len() == 0 {
        "- No daily summaries"@
    } else {
        join_views(string_views(s.daily_highlights@), "\n"@)
    }
}

/// The whole weekly report document.
pub open spec fn weekly_note_text(s: WeekSummaryData) -> Seq<char> {
    "---\ntype: screen-analyzer-weekly\n"@ + week_frontmatter_fields(s) + "# "@ + s.week_label@
        + " Weekly Report\n\n"@ + week_overview_block(s) + "\n\n## Weekly Insights\n"@
        + insight_section_text(s) + "\n\n## Scoring Notes\n- Focus score = focus ratio\n- Effort score: "@
        + dec_int(s.score_config.target_minutes as int)
        + " minutes counts as 100, capped\n- Productivity score = focus score "@ + dec_int(
        s.score_config.focus_weight as int,
    ) + "% + effort score "@ + dec_int(s.score_config.effort_weight as int)
        + "%\n\n## Daily Highlights\n"@ + highlight_section_text(s)
        + "\n\n## Week Index\n- [[Index/weeks-"@ + s.week_label@ + ".md]]\n"@
}

/// The whole week index document.
pub open spec fn week_index_text(s: WeekSummaryData) -> Seq<char> {
    "---\ntype: screen-analyzer-week-index\n"@ + week_frontmatter_fields(s) + "# "@
        + s.week_label@ + " Weekly Index\n\n"@ + week_overview_block(s)
        + "\n\n## Daily Breakdown\n"@ + join_views(string_views(s.table_lines@), "\n"@) + "\n"@
}

fn dash_join(lines: &Vec<String>) -> (r: String)
    requires
        lines@.len() >= 1,
    ensures
        r@ == join_views(lines@.map(|i: int, l: String| "- "@ + l@), "\n"@),
{
    let ghost pref = lines@.map(|i: int, l: String| "- "@ + l@);
    let mut s = String::new();
    let mut i: usize = 0;
    proof {
        assert(pref.take(0).len() == 0);
    }
    while i < lines.len()
        invariant
            0 <= i <= lines.len(),
            pref == lines@.map(|i: int, l: String| "- "@ + l@),
            s@ == join_views(pref.take(i as int), "\n"@),
        decreases lines.len() - i,
    {
        proof {
            assert(pref.take(i + 1).drop_last() =~= pref.take(i as int));
            assert(pref.take(i + 1).last() == pref[i as int]);
        }
        if i > 0 {
            s.append("\n");
        }
        s.append("- ");
        s.append(lines[i].as_str());
        proof {
            assert(s@ =~= join_views(pref.take(i + 1), "\n"@));
        }
        i = i + 1;
    }
    proof {
        assert(pref.take(pref.len() as int) =~= pref);
    }
    s
}

impl ObsidianExporter {
    /// Renders the weekly report from a week summary.
    pub fn render_weekly_note(&self, summary: &WeekSummaryData) -> (r: String)
        requires
            summary.wf(),
        ensures
            r@ == weekly_note_text(*summary),
    {
        let fields = render_week_frontmatter_fields(summary);
        let overview = render_week_overview_block(summary);
        let insights = build_week_insights(summary);
        let insight_block: String = if insights.len() == 0 {
            String::from_str("- No insights available")
        } else {
            let joined = dash_join(&insights);
            proof {
                assert(insights@.map(|i: int, l: String| "- "@ + l@) =~= string_views(
                    insights@,
                ).map(|i: int, l: Seq<char>| "- "@ + l));
            }
            joined
        };
        let highlight_block: String = if summary.daily_highlights.len() == 0 {
            String::from_str("- No daily summaries")
        } else {
            crate::text::join_strings(&summary.daily_highlights, "\n")
        };
        let mut out = String::from_str("---\ntype: screen-analyzer-weekly\n");
        out.append(fields.as_str());
        out.append("# ");
        out.append(summary.week_label.as_str());
        out.append(" Weekly Report\n\n");
        out.append(overview.as_str());
        out.append("\n\n## Weekly Insights\n");
        out.append(insight_block.as_str());
        out.append("\n\n## Scoring Notes\n- Focus score = focus ratio\n- Effort score: ");
        let t1 = i64_to_string(summary.score_config.target_minutes);
        out.append(t1.as_str());
        out.append(" minutes counts as 100, capped\n- Productivity score = focus score ");
        let t2 = i64_to_string(summary.score_config.focus_weight);
        out.append(t2.as_str());
        out.append("% + effort score ");
        let t3 = i64_to_string(summary.score_config.effort_weight);
        out.append(t3.as_str());
        out.append("%\n\n## Daily Highlights\n");
        out.append(highlight_block.as_str());
        out.append("\n\n## Week Index\n- [[Index/weeks-");
        out.append(summary.week_label.as_str());
        out.append(".md]]\n");
        proof {
            assert(out@ =~= weekly_note_text(*summary));
        }
        out
    }

    /// Renders the week index from a week summary: its path under the root
    /// and its full document.
    pub fn render_week_index(&self, summary: &WeekSummaryData) -> (r: (String, String))
        requires
            summary.wf(),
        ensures
            r.0@ == "Index/weeks-"@ + summary.week_label@ + ".md"@,
            r.1@ == week_index_text(*summary),
    {
        let path = week_index_rel_path(summary.week_label.as_str());
        let fields = render_week_frontmatter_fields(summary);
        let overview = render_week_overview_block(summary);
        let table = crate::text::join_strings(&summary.table_lines, "\n");
        let mut out = String::from_str("---\ntype: screen-analyzer-week-index\n");
        out.append(fields.as_str());
        out.append("# ");
        out.append(summary.week_label.as_str());
        out.append(" Weekly Index\n\n");
        out.append(overview.as_str());
        out.append("\n\n## Daily Breakdown\n");
        out.append(table.as_str());
        out.append("\n");
        proof {
            assert(out@ =~= week_index_text(*summary));
        }
        (path, out)
    }
}

/// The overview page: links to today's note, the week's documents when a
/// week summary exists, and the month index.
pub open spec fn overview_text(date: DateYmd, week_label: Option<Seq<char>>, updated: Seq<char>)
    -> Seq<char> {
    "---\ntype: screen-analyzer-overview\nupdated_at: "@ + updated
        + "\nsource: screen-analyzer\n---\n\n# Screen Analyzer Overview\n\n- Today: [[Daily/"@
        + date_text(date.year as int, date.month as int, date.day as int) + "]]\n- This week: "@
        + (match week_label {
        Some(l) => "[[Weekly/"@ + l + "]]"@,
        None => "none"@,
    }) + "\n- Week index: "@ + (match week_label {
        Some(l) => "[[Index/weeks-"@ + l + ".md]]"@,
        None => "none"@,
    }) + "\n- Month index: [[Index/sessions-"@ + month_label_text(
        date.year as int,
        date.month as int,
    ) + ".md]]\n"@
}

/// The view of an optional string slice.
pub open spec fn option_str_view(o: Option<&str>) -> Option<Seq<char>> {
    match o {
        Some(s) => Some(s@),
        None => None,
    }
}

/// Renders the overview page: its path under the root and its document.
/// The caller supplies the current local time as display text.
pub fn render_overview(date: &DateYmd, week_label: Option<&str>, updated_at: &str) -> (r: (
    String,
    String,
))
    requires
        date.wf(),
    ensures
        r.0@ == "Index/overview.md"@,
        r.1@ == overview_text(*date, option_str_view(week_label), updated_at@),
{
    let path = overview_rel_path();
    let mut out = String::from_str("---\ntype: screen-analyzer-overview\nupdated_at: ");
    out.append(updated_at);
    out.append("\nsource: screen-analyzer\n---\n\n# Screen Analyzer Overview\n\n- Today: [[Daily/");
    let date_str = crate::dates::format_date(date);
    out.append(date_str.as_str());
    out.append("]]\n- This week: ");
    match week_label {
        Some(l) => {
            out.append("[[Weekly/");
            out.append(l);
            out.append("]]");
        }
        None => {
            out.append("none");
        }
    }
    out.append("\n- Week index: ");
    match week_label {
        Some(l) => {
            out.append("[[Index/weeks-");
            out.append(l);
            out.append(".md]]");
        }
        None => {
            out.append("none");
        }
    }
    out.append("\n- Month index: [[Index/sessions-");
    let label = month_label(date);
    out.append(label.as_str());
    out.append(".md]]\n");
    proof {
        assert(out@ =~= overview_text(*date, option_str_view(week_label), updated_at@));
    }
    (path, out)
}


/// What one day's export produced: the written paths and the warnings the
/// recoverable failures left behind.
pub struct ExportOutcome {
    pub daily_note_path: String,
    pub session_paths: Vec<String>,
    pub index_note_path: Option<String>,
    pub week_index_path: Option<String>,
    pub weekly_note_path: Option<String>,
    pub overview_path: Option<String>,
    pub warnings: Vec<String>,
}

/// A labelled line for an optional path; nothing when the path is absent.
pub open spec fn opt_path_line(prefix: Seq<char>, v: Option<String>) -> Seq<char> {
    match v {
        Some(p) => prefix + p@,
        None => Seq::empty(),
    }
}

/// The warning list as display lines.
pub open spec fn warn_lines(ws: Seq<String>) -> Seq<char>
    decreases ws.len(),
{
    if ws.len() == 0 {
        Seq::empty()
    } else {
        warn_lines(ws.drop_last()) + "- "@ + ws.last()@ + "\n"@
    }
}

/// The human-readable report of an export outcome: the primary paths, then
/// a warnings section when any warning accumulated.
pub open spec fn message_text(o: ExportOutcome) -> Seq<char> {
    "Exported daily summary: "@ + o.daily_note_path@ + "\nSession count: "@ + dec_int(
        o.session_paths@.len() as int,
    ) + opt_path_line("\nIndex file: "@, o.index_note_path) + opt_path_line(
        "\nWeek index file: "@,
        o.week_index_path,
    ) + opt_path_line("\nWeekly report file: "@, o.weekly_note_path) + opt_path_line(
        "\nOverview file: "@,
        o.overview_path,
    ) + if o.warnings@.len() == 0 {
        Seq::empty()
    } else {
        "\n\nWarnings:\n"@ + warn_lines(o.warnings@)
    }
}

impl ExportOutcome {
    /// Renders the outcome as a plain-text report for interactive display.
    #[verifier::rlimit(60)]
    pub fn render_message(&self) -> (r: String)
        requires
            self.session_paths@.len() <= 100_000,
        ensures
            r@ == message_text(*self),
    {
        let ghost p0 = "Exported daily summary: "@ + self.daily_note_path@ + "\nSession count: "@
            + dec_int(self.session_paths@.len() as int);
        let mut message = String::from_str("Exported daily summary: ");
        message.append(self.daily_note_path.as_str());
        message.append("\nSession count: ");
        let count_text = i64_to_string(self.session_paths.len() as i64);
        message.append(count_text.as_str());
        proof {
            assert(message@ =~= p0);
        }
        let ghost p1 = p0 + opt_path_line("\nIndex file: "@, self.index_note_path);
        match &self.index_note_path {
            Some(p) => {
                message.append("\nIndex file: ");
                message.append(p.as_str());
            }
            None => {}
        }
        proof {
            assert(message@ =~= p1);
        }
        let ghost p2 = p1 + opt_path_line("\nWeek index file: "@, self.week_index_path);
        match &self.week_index_path {
            Some(p) => {
                message.append("\nWeek index file: ");
                message.append(p.as_str());
            }
            None => {}
        }
        proof {
            assert(message@ =~= p2);
        }
        let ghost p3 = p2 + opt_path_line("\nWeekly report file: "@, self.weekly_note_path);
        match &self.weekly_note_path {
            Some(p) => {
                message.append("\nWeekly report file: ");
                message.append(p.as_str());
            }
            None => {}
        }
        proof {
            assert(message@ =~= p3);
        }
        let ghost p4 = p3 + opt_path_line("\nOverview file: "@, self.overview_path);
        match &self.overview_path {
            Some(p) => {
                message.append("\nOverview file: ");
                message.append(p.as_str());
            }
            None => {}
        }
        proof {
            assert(message@ =~= p4);
            assert(message_text(*self) == p4 + if self.warnings@.len() == 0 {
                Seq::<char>::empty()
            } else {
                "\n\nWarnings:\n"@ + warn_lines(self.warnings@)
            });
        }
        if self.warnings.len() > 0 {
            message.append("\n\nWarnings:\n");
            let ghost base = message@;
            let mut i: usize = 0;
            proof {
                assert(warn_lines(self.warnings@.take(0)).len() == 0);
                assert(message@ =~= base + warn_lines(self.warnings@.take(0)));
            }
            while i < self.warnings.len()
                invariant
                    0 <= i <= self.warnings@.len(),
                    base == p4 + "\n\nWarnings:\n"@,
                    message@ == base + warn_lines(self.warnings@.take(i as int)),
                decreases self.warnings@.len() - i,
            {
                proof {
                    assert(self.warnings@.take(i + 1).drop_last() =~= self.warnings@.take(
                        i as int,
                    ));
                    assert(self.warnings@.take(i + 1).last() == self.warnings@[i as int]);
                }
                message.append("- ");
                message.append(self.warnings[i].as_str());
                message.append("\n");
                proof {
                    assert(message@ =~= base + warn_lines(self.warnings@.take(i + 1)));
                }
                i = i + 1;
            }
            proof {
                assert(self.warnings@.take(self.warnings@.len() as int) =~= self.warnings@);
                assert(message@ =~= p4 + ("\n\nWarnings:\n"@ + warn_lines(self.warnings@)));
            }
        }
        message
    }
}

fn prefixed_warning(prefix: &str, err: &str) -> (r: String)
    ensures
        r@ == prefix@ + err@,
{
    let mut w = String::from_str(prefix);
    w.append(err);
    w
}

/// The warning recorded when one session's export fails.
pub fn session_export_warning(session_id: i64, err: &str) -> (r: String)
    ensures
        r@ == "Session "@ + dec_int(session_id as int) + " export failed: "@ + err@,
{
    let mut w = String::from_str("Session ");
    let id_text = i64_to_string(session_id);
    w.append(id_text.as_str());
    w.append(" export failed: ");
    w.append(err);
    proof {
        assert(w@ =~= "Session "@ + dec_int(session_id as int) + " export failed: "@ + err@);
    }
    w
}

/// The warning recorded when the month index cannot be generated.
pub fn month_index_warning(err: &str) -> (r: String)
    ensures
        r@ == "Month index generation failed: "@ + err@,
{
    prefixed_warning("Month index generation failed: ", err)
}

/// The warning recorded when the week summary cannot be built; the week
/// index and the weekly report are skipped for the run.
pub fn week_summary_warning(err: &str) -> (r: String)
    ensures
        r@ == "Week summary build failed: "@ + err@,
{
    prefixed_warning("Week summary build failed: ", err)
}

/// The warning recorded when the week index cannot be generated.
pub fn week_index_warning(err: &str) -> (r: String)
    ensures
        r@ == "Week index generation failed: "@ + err@,
{
    prefixed_warning("Week index generation failed: ", err)
}

/// The warning recorded when the weekly report cannot be generated.
pub fn weekly_note_warning(err: &str) -> (r: String)
    ensures
        r@ == "Weekly report generation failed: "@ + err@,
{
    prefixed_warning("Weekly report generation failed: ", err)
}

/// The warning recorded when the overview page cannot be generated.
pub fn overview_warning(err: &str) -> (r: String)
    ensures
        r@ == "Overview generation failed: "@ + err@,
{
    prefixed_warning("Overview generation failed: ", err)
}

/// The fatal error for a blank vault path.
pub fn vault_not_configured_error() -> (r: String)
    ensures
        r@ == "Obsidian vault path not configured"@,
{
    String::from_str("Obsidian vault path not configured")
}

/// The fatal error for a vault path that does not exist on disk.
pub fn vault_missing_error() -> (r: String)
    ensures
        r@ == "Obsidian vault path does not exist"@,
{
    String::from_str("Obsidian vault path does not exist")
}

/// The error for a date that is not a strict `YYYY-MM-DD` calendar day.
pub fn invalid_date_error(date: &str) -> (r: String)
    ensures
        r@ == "Invalid date format: "@ + date@,
{
    prefixed_warning("Invalid date format: ", date)
}

/// The error for an ISO week whose bounds cannot be represented.
pub fn invalid_week_error() -> (r: String)
    ensures
        r@ == "Week range invalid"@,
{
    String::from_str("Week range invalid")
}

/// The error for a screenshot whose source file is missing.
pub fn screenshot_missing_error() -> (r: String)
    ensures
        r@ == "Screenshot file missing"@,
{
    String::from_str("Screenshot file missing")
}

} // verus!
