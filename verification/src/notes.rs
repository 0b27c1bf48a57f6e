//! Session-note building blocks: timeline and tag rendering, screenshot
//! selection and link planning, filename sanitization and `file://` URLs.

use vstd::prelude::*;
use vstd::string::StringExecFns;

use crate::category::{category_name, category_to_string};
use crate::dates::{clock_text, clock_text_of, date_text};
use crate::model::{ActivityTag, Frame, Session, TimelineCardRecord};
use crate::text::{chars_to_string, dec_int, join_strings, join_views, pad2_spec, str_eq,
    str_to_chars, string_views, u64_pad2};

verus! {

/// One timeline card as a list line: clock range, category pair, title and
/// summary.
pub open spec fn timeline_card_line(card: TimelineCardRecord) -> Seq<char> {
    "- "@ + clock_text_of(card.start_time@) + "-"@ + clock_text_of(card.end_time@) + " ["@
        + card.category@ + " / "@ + card.subcategory@ + "] "@ + card.title@ + ": "@ + card.summary@
}

/// The timeline section: one line per card, or a marker without cards.
pub open spec fn timeline_text(cards: Seq<TimelineCardRecord>) -> Seq<char> {
    if cards.len() == 0 {
        "- No timeline available"@
    } else {
        join_views(cards.map(|i: int, c: TimelineCardRecord| timeline_card_line(c)), "\n"@)
    }
}

/// Renders a session's timeline cards as a Markdown list.
pub fn render_timeline(cards: &Vec<TimelineCardRecord>) -> (r: String)
    ensures
        r@ == timeline_text(cards@),
{
    if cards.len() == 0 {
        return String::from_str("- No timeline available");
    }
    let ghost lines_spec = cards@.map(|i: int, c: TimelineCardRecord| timeline_card_line(c));
    let mut s = String::new();
    let mut i: usize = 0;
    proof {
        assert(lines_spec.take(0).len() == 0);
    }
    while i < cards.len()
        invariant
            0 <= i <= cards.len(),
            lines_spec == cards@.map(|i: int, c: TimelineCardRecord| timeline_card_line(c)),
            s@ == join_views(lines_spec.take(i as int), "\n"@),
        decreases cards.len() - i,
    {
        proof {
            assert(lines_spec.take(i + 1).drop_last() =~= lines_spec.take(i as int));
            assert(lines_spec.take(i + 1).last() == lines_spec[i as int]);
        }
        if i > 0 {
            s.append("\n");
        }
        let card = &cards[i];
        s.append("- ");
        let start = clock_text(card.start_time.as_str());
        s.append(start.as_str());
        s.append("-");
        let end = clock_text(card.end_time.as_str());
        s.append(end.as_str());
        s.append(" [");
        s.append(card.category.as_str());
        s.append(" / ");
        s.append(card.subcategory.as_str());
        s.append("] ");
        s.append(card.title.as_str());
        s.append(": ");
        s.append(card.summary.as_str());
        proof {
            assert(s@ =~= join_views(lines_spec.take(i + 1), "\n"@));
        }
        i = i + 1;
    }
    proof {
        assert(lines_spec.take(lines_spec.len() as int) =~= lines_spec);
    }
    s
}

/// The tag list as display text: the canonical bucket names, bracketed.
pub open spec fn tags_text(tags: Seq<ActivityTag>) -> Seq<char> {
    if tags.len() == 0 {
        "[]"@
    } else {
        "["@ + join_views(tags.map(|i: int, t: ActivityTag| category_name(t.category)), ", "@)
            + "]"@
    }
}

/// Renders a session's tags as bracketed category names.
pub fn format_tags(tags: &Vec<ActivityTag>) -> (r: String)
    ensures
        r@ == tags_text(tags@),
{
    if tags.len() == 0 {
        return String::from_str("[]");
    }
    let ghost names = tags@.map(|i: int, t: ActivityTag| category_name(t.category));
    let mut s = String::from_str("[");
    let mut i: usize = 0;
    proof {
        assert(names.take(0).len() == 0);
    }
    while i < tags.len()
        invariant
            0 <= i <= tags.len(),
            names == tags@.map(|i: int, t: ActivityTag| category_name(t.category)),
            s@ == "["@ + join_views(names.take(i as int), ", "@),
        decreases tags.len() - i,
    {
        proof {
            assert(names.take(i + 1).drop_last() =~= names.take(i as int));
            assert(names.take(i + 1).last() == names[i as int]);
        }
        if i > 0 {
            s.append(", ");
        }
        s.append(category_to_string(&tags[i].category));
        proof {
            assert(s@ =~= "["@ + join_views(names.take(i + 1), ", "@));
        }
        i = i + 1;
    }
    s.append("]");
    proof {
        assert(names.take(names.len() as int) =~= names);
        assert(s@ =~= tags_text(tags@));
    }
    s
}

/// The file paths of a frame list.
pub open spec fn frame_paths(frames: Seq<Frame>) -> Seq<Seq<char>> {
    frames.map(|i: int, f: Frame| f.file_path@)
}

/// Which screenshots a session exports: the first and the last frame,
/// collapsed to one when they are the same file or when only one exists.
pub open spec fn picked_paths(paths: Seq<Seq<char>>) -> Seq<Seq<char>> {
    if paths.len() == 0 {
        Seq::empty()
    } else if paths.len() == 1 {
        seq![paths[0]]
    } else if paths[0] == paths[paths.len() - 1] {
        seq![paths[0]]
    } else {
        seq![paths[0], paths[paths.len() - 1]]
    }
}

/// Picks the screenshots to export from a session's ordered frame list.
pub fn pick_screenshots(frames: &Vec<Frame>) -> (r: Vec<Frame>)
    ensures
        frame_paths(r@) == picked_paths(frame_paths(frames@)),
        r@.len() <= 2,
{
    let mut selected: Vec<Frame> = Vec::new();
    if frames.len() == 0 {
        proof {
            assert(frame_paths(selected@) =~= picked_paths(frame_paths(frames@)));
        }
        return selected;
    }
    selected.push(Frame { file_path: frames[0].file_path.clone() });
    if frames.len() > 1 {
        let last = frames.len() - 1;
        if !str_eq(frames[0].file_path.as_str(), frames[last].file_path.as_str()) {
            selected.push(Frame { file_path: frames[last].file_path.clone() });
        }
    }
    proof {
        assert(frame_paths(selected@) =~= picked_paths(frame_paths(frames@)));
    }
    selected
}

/// The characters a vault filename may not contain.
pub open spec fn is_forbidden_char(c: char) -> bool {
    c == '/' || c == '\\' || c == ':' || c == '*' || c == '?' || c == '"' || c == '<' || c == '>'
        || c == '|'
}

/// The name with every forbidden character replaced by an underscore.
pub open spec fn sanitized_of(s: Seq<char>) -> Seq<char> {
    s.map(|i: int, c: char| if is_forbidden_char(c) {
        '_'
    } else {
        c
    })
}

/// Replaces every path-hostile character of a filename with an underscore;
/// the result never contains one.
pub fn sanitize_filename(raw: &str) -> (r: String)
    ensures
        r@ == sanitized_of(raw@),
        forall|i: int| 0 <= i < r@.len() ==> !is_forbidden_char(r@[i]),
{
    let chars = str_to_chars(raw);
    let mut out: Vec<char> = Vec::new();
    let mut i: usize = 0;
    while i < chars.len()
        invariant
            0 <= i <= chars.len(),
            chars@ == raw@,
            out@ =~= sanitized_of(raw@).take(i as int),
        decreases chars.len() - i,
    {
        let c = chars[i];
        if c == '/' || c == '\\' || c == ':' || c == '*' || c == '?' || c == '"' || c == '<' || c
            == '>' || c == '|' {
            out.push('_');
        } else {
            out.push(c);
        }
        i = i + 1;
    }
    proof {
        assert(out@ =~= sanitized_of(raw@));
    }
    chars_to_string(&out)
}

/// How one path character appears inside a `file://` URL: backslashes
/// become slashes and spaces are percent-encoded.
pub open spec fn url_char_expansion(c: char) -> Seq<char> {
    if c == '\\' {
        seq!['/']
    } else if c == ' ' {
        "%20"@
    } else {
        seq![c]
    }
}

/// The path normalized for a `file://` URL.
pub open spec fn normalized_of(s: Seq<char>) -> Seq<char>
    decreases s.len(),
{
    if s.len() == 0 {
        Seq::empty()
    } else {
        normalized_of(s.drop_last()) + url_char_expansion(s.last())
    }
}

/// Whether the normalized path carries a drive prefix (`:` followed by `/`).
pub open spec fn has_drive_sep(s: Seq<char>) -> bool {
    exists|i: int| 0 <= i && i + 1 < s.len() && (#[trigger] s[i]) == ':' && s[i + 1] == '/'
}

/// The `file://` URL of a local path: three slashes ahead of a drive-letter
/// path, two otherwise.
pub open spec fn file_url_of(path: Seq<char>) -> Seq<char> {
    let n = normalized_of(path);
    if has_drive_sep(n) {
        "file:///"@ + n
    } else {
        "file://"@ + n
    }
}

/// Turns a local file path into a `file://` URL with forward slashes and
/// percent-encoded spaces.
pub fn to_file_url(path: &str) -> (r: String)
    ensures
        r@ == file_url_of(path@),
{
    let chars = str_to_chars(path);
    let mut norm: Vec<char> = Vec::new();
    let mut i: usize = 0;
    proof {
        assert(normalized_of(path@.take(0)) =~= Seq::<char>::empty());
    }
    while i < chars.len()
        invariant
            0 <= i <= chars.len(),
            chars@ == path@,
            norm@ =~= normalized_of(path@.take(i as int)),
        decreases chars.len() - i,
    {
        proof {
            assert(path@.take(i + 1).drop_last() =~= path@.take(i as int));
            assert(path@.take(i + 1).last() == path@[i as int]);
            reveal_strlit("%20");
        }
        let c = chars[i];
        if c == '\\' {
            norm.push('/');
        } else if c == ' ' {
            norm.push('%');
            norm.push('2');
            norm.push('0');
        } else {
            norm.push(c);
        }
        proof {
            assert(norm@ =~= normalized_of(path@.take(i + 1)));
        }
        i = i + 1;
    }
    proof {
        assert(path@.take(path@.len() as int) =~= path@);
    }
    let mut found: bool = false;
    let mut j: usize = 0;
    if norm.len() > 0 {
        while j + 1 < norm.len()
            invariant
                0 <= j,
                j + 1 <= norm.len(),
                found == exists|k: int|
                    0 <= k && k + 1 <= j && (#[trigger] norm@[k]) == ':' && norm@[k + 1] == '/',
            decreases norm.len() - j,
        {
            if norm[j] == ':' && norm[j + 1] == '/' {
                found = true;
            }
            j = j + 1;
        }
    }
    proof {
        assert(found == has_drive_sep(norm@));
    }
    let tail = chars_to_string(&norm);
    let mut s = if found {
        String::from_str("file:///")
    } else {
        String::from_str("file://")
    };
    s.append(tail.as_str());
    proof {
        assert(s@ =~= file_url_of(path@));
    }
    s
}

/// A Markdown link with the given label and target.
pub fn format_markdown_link(label: &str, url: &str) -> (r: String)
    ensures
        r@ == "["@ + label@ + "]("@ + url@ + ")"@,
{
    let mut s = String::from_str("[");
    s.append(label);
    s.append("](");
    s.append(url);
    s.append(")");
    proof {
        assert(s@ =~= "["@ + label@ + "]("@ + url@ + ")"@);
    }
    s
}

/// The `HH:MM` clock text of a session instant.
pub open spec fn clock_of(hour: int, minute: int) -> Seq<char> {
    pad2_spec(hour) + seq![':'] + pad2_spec(minute)
}

/// Formats a session instant as `HH:MM`.
pub fn format_time(hour: u64, minute: u64) -> (r: String)
    requires
        hour < 24,
        minute < 60,
    ensures
        r@ == clock_of(hour as int, minute as int),
{
    let mut s = u64_pad2(hour);
    s.append(":");
    let m = u64_pad2(minute);
    s.append(m.as_str());
    proof {
        reveal_strlit(":");
        assert(s@ =~= clock_of(hour as int, minute as int));
    }
    s
}

/// The id a session is displayed under: its stored id, or 0 without one.
pub open spec fn session_display_id(s: Session) -> int {
    match s.id {
        Some(id) => id as int,
        None => 0,
    }
}

/// The note filename of a session:
/// `<date>_<startHHMM>-<endHHMM>_session-<id>.md`.
pub open spec fn session_filename_text(s: Session) -> Seq<char> {
    date_text(s.start_time.date.year as int, s.start_time.date.month as int,
        s.start_time.date.day as int) + "_"@ + pad2_spec(s.start_time.hour as int) + pad2_spec(
        s.start_time.minute as int,
    ) + "-"@ + pad2_spec(s.end_time.hour as int) + pad2_spec(s.end_time.minute as int)
        + "_session-"@ + dec_int(session_display_id(s)) + ".md"@
}

/// Builds a session's note filename.
pub fn session_filename(s: &Session) -> (r: String)
    requires
        s.wf(),
    ensures
        r@ == session_filename_text(*s),
{
    let mut name = crate::dates::format_date(&s.start_time.date);
    name.append("_");
    let sh = u64_pad2(s.start_time.hour);
    name.append(sh.as_str());
    let sm = u64_pad2(s.start_time.minute);
    name.append(sm.as_str());
    name.append("-");
    let eh = u64_pad2(s.end_time.hour);
    name.append(eh.as_str());
    let em = u64_pad2(s.end_time.minute);
    name.append(em.as_str());
    name.append("_session-");
    let id: i64 = match s.id {
        Some(v) => v,
        None => 0,
    };
    let id_text = crate::text::i64_to_string(id);
    name.append(id_text.as_str());
    name.append(".md");
    proof {
        assert(name@ =~= session_filename_text(*s));
    }
    name
}

/// The wiki link of a session note: the `Sessions/<start date>/<filename>`
/// path in double brackets.
pub open spec fn session_link_text(s: Session) -> Seq<char> {
    "[[Sessions/"@ + date_text(s.start_time.date.year as int, s.start_time.date.month as int,
        s.start_time.date.day as int) + "/"@ + session_filename_text(s) + "]]"@
}

/// Builds a session's wiki link for the daily note's session index.
pub fn session_link(s: &Session) -> (r: String)
    requires
        s.wf(),
    ensures
        r@ == session_link_text(*s),
{
    let mut link = String::from_str("[[Sessions/");
    let date_str = crate::dates::format_date(&s.start_time.date);
    link.append(date_str.as_str());
    link.append("/");
    let name = session_filename(s);
    link.append(name.as_str());
    link.append("]]");
    proof {
        assert(link@ =~= session_link_text(*s));
    }
    link
}

/// The asset filename a copied screenshot lands under.
pub open spec fn screenshot_target_name_text(session_id: int, index: int) -> Seq<char> {
    "session-"@ + dec_int(session_id) + "-"@ + dec_int(index) + ".jpg"@
}

/// Builds the asset filename of a copied screenshot.
pub fn screenshot_target_name(session_id: i64, index: usize) -> (r: String)
    requires
        index < 1000,
    ensures
        r@ == screenshot_target_name_text(session_id as int, index as int),
{
    let mut name = String::from_str("session-");
    let id_text = crate::text::i64_to_string(session_id);
    name.append(id_text.as_str());
    name.append("-");
    let idx_text = crate::text::i64_to_string(index as i64);
    name.append(idx_text.as_str());
    name.append(".jpg");
    proof {
        assert(name@ =~= screenshot_target_name_text(session_id as int, index as int));
    }
    name
}

/// The embed line of a screenshot copied into the vault, relative to the
/// vault root.
pub open spec fn copied_screenshot_line_text(date: Seq<char>, session_id: int, index: int) -> Seq<
    char,
> {
    "![](Assets/"@ + date + "/"@ + screenshot_target_name_text(session_id, index) + ")"@
}

/// Builds the embed line of a screenshot copied into the vault.
pub fn copied_screenshot_line(date: &str, session_id: i64, index: usize) -> (r: String)
    requires
        index < 1000,
    ensures
        r@ == copied_screenshot_line_text(date@, session_id as int, index as int),
{
    let mut line = String::from_str("![](Assets/");
    line.append(date);
    line.append("/");
    let name = screenshot_target_name(session_id, index);
    line.append(name.as_str());
    line.append(")");
    proof {
        assert(line@ =~= copied_screenshot_line_text(date@, session_id as int, index as int));
    }
    line
}

/// The embed line of a screenshot referenced in place by URL.
pub fn linked_screenshot_line(frame_path: &str) -> (r: String)
    ensures
        r@ == "![]("@ + file_url_of(frame_path@) + ")"@,
{
    let url = to_file_url(frame_path);
    let mut line = String::from_str("![](");
    line.append(url.as_str());
    line.append(")");
    proof {
        assert(line@ =~= "![]("@ + file_url_of(frame_path@) + ")"@);
    }
    line
}

/// The line standing in for a screenshot whose preparation failed.
pub fn screenshot_failure_line(err: &str) -> (r: String)
    ensures
        r@ == "Screenshot processing failed: "@ + err@,
{
    let mut line = String::from_str("Screenshot processing failed: ");
    line.append(err);
    proof {
        assert(line@ =~= "Screenshot processing failed: "@ + err@);
    }
    line
}

/// The screenshots section: the prepared lines, or a marker without any.
pub open spec fn screenshots_section_text(lines: Seq<String>) -> Seq<char> {
    if lines.len() == 0 {
        "No screenshots available"@
    } else {
        join_views(string_views(lines), "\n"@)
    }
}

/// Joins the prepared screenshot lines into the note's screenshots section.
pub fn render_screenshots_section(lines: &Vec<String>) -> (r: String)
    ensures
        r@ == screenshots_section_text(lines@),
{
    if lines.len() == 0 {
        return String::from_str("No screenshots available");
    }
    join_strings(lines, "\n")
}

} // verus!
