//! Total, case-insensitive classification of raw category labels into six
//! canonical activity buckets.

use vstd::prelude::*;

use crate::text::str_eq;

verus! {

/// The six canonical activity buckets.
#[derive(Clone, Copy, Debug, PartialEq, Eq, Structural)]
pub enum ActivityCategory {
    Work,
    Communication,
    Learning,
    Personal,
    Idle,
    Other,
}

/// What `str::to_lowercase` returns for the given characters: full Unicode
/// case folding, a function of the characters alone.
pub uninterp spec fn lower_of(s: Seq<char>) -> Seq<char>;

/// Relies on `str::to_lowercase`: the lowercased text depends on the input
/// characters alone.
#[verifier::external_body]
pub(crate) fn lowercase(s: &str) -> (r: String)
    ensures
        r@ == lower_of(s@),
{
    s.to_lowercase()
}

/// The bucket for an already-lowercased label.
pub open spec fn bucket_of(t: Seq<char>) -> ActivityCategory {
    if t == "work"@ {
        ActivityCategory::Work
    } else if t == "communication"@ || t == "meeting"@ {
        ActivityCategory::Communication
    } else if t == "learning"@ || t == "research"@ {
        ActivityCategory::Learning
    } else if t == "personal"@ {
        ActivityCategory::Personal
    } else if t == "idle"@ || t == "break"@ {
        ActivityCategory::Idle
    } else {
        ActivityCategory::Other
    }
}

/// The bucket for a raw label: lower-case it, then match it against the
/// known names; anything else (the empty string too) is `Other`.
pub open spec fn classify_spec(s: Seq<char>) -> ActivityCategory {
    bucket_of(lower_of(s))
}

/// Maps a raw free-text category label to its canonical bucket. Total: every
/// input, known or not, gets a bucket.
pub fn normalize_timeline_category(raw: &str) -> (r: ActivityCategory)
    ensures
        r == classify_spec(raw@),
{
    let low = lowercase(raw);
    let t = low.as_str();
    if str_eq(t, "work") {
        ActivityCategory::Work
    } else if str_eq(t, "communication") || str_eq(t, "meeting") {
        ActivityCategory::Communication
    } else if str_eq(t, "learning") || str_eq(t, "research") {
        ActivityCategory::Learning
    } else if str_eq(t, "personal") {
        ActivityCategory::Personal
    } else if str_eq(t, "idle") || str_eq(t, "break") {
        ActivityCategory::Idle
    } else {
        ActivityCategory::Other
    }
}

/// Classification is case-insensitive: two labels with the same case folding
/// land in the same bucket.
pub proof fn lemma_classify_case_insensitive(a: Seq<char>, b: Seq<char>)
    requires
        lower_of(a) == lower_of(b),
    ensures
        classify_spec(a) == classify_spec(b),
{
}

/// The canonical lower-case name of a bucket.
pub open spec fn category_name(c: ActivityCategory) -> Seq<char> {
    match c {
        ActivityCategory::Work => "work"@,
        ActivityCategory::Communication => "communication"@,
        ActivityCategory::Learning => "learning"@,
        ActivityCategory::Personal => "personal"@,
        ActivityCategory::Idle => "idle"@,
        ActivityCategory::Other => "other"@,
    }
}

pub fn category_to_string(category: &ActivityCategory) -> (r: &'static str)
    ensures
        r@ == category_name(*category),
{
    match category {
        ActivityCategory::Work => "work",
        ActivityCategory::Communication => "communication",
        ActivityCategory::Learning => "learning",
        ActivityCategory::Personal => "personal",
        ActivityCategory::Idle => "idle",
        ActivityCategory::Other => "other",
    }
}

} // verus!
