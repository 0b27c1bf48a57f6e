use obsidian_export::category::{category_to_string, normalize_timeline_category, ActivityCategory};

#[test]
fn classify_is_case_insensitive_for_work() {
    assert_eq!(normalize_timeline_category("WORK"), ActivityCategory::Work);
    assert_eq!(normalize_timeline_category("work"), ActivityCategory::Work);
    assert_eq!(normalize_timeline_category("Work"), ActivityCategory::Work);
}

#[test]
fn classify_unknown_labels_fall_back_to_other() {
    assert_eq!(normalize_timeline_category("unknown-xyz"), ActivityCategory::Other);
    assert_eq!(normalize_timeline_category(""), ActivityCategory::Other);
    assert_eq!(normalize_timeline_category("WORKing"), ActivityCategory::Other);
}

#[test]
fn classify_maps_every_known_label() {
    assert_eq!(normalize_timeline_category("communication"), ActivityCategory::Communication);
    assert_eq!(normalize_timeline_category("Meeting"), ActivityCategory::Communication);
    assert_eq!(normalize_timeline_category("learning"), ActivityCategory::Learning);
    assert_eq!(normalize_timeline_category("RESEARCH"), ActivityCategory::Learning);
    assert_eq!(normalize_timeline_category("personal"), ActivityCategory::Personal);
    assert_eq!(normalize_timeline_category("idle"), ActivityCategory::Idle);
    assert_eq!(normalize_timeline_category("Break"), ActivityCategory::Idle);
}

#[test]
fn category_names_are_canonical_lower_case() {
    assert_eq!(category_to_string(&ActivityCategory::Work), "work");
    assert_eq!(category_to_string(&ActivityCategory::Communication), "communication");
    assert_eq!(category_to_string(&ActivityCategory::Learning), "learning");
    assert_eq!(category_to_string(&ActivityCategory::Personal), "personal");
    assert_eq!(category_to_string(&ActivityCategory::Idle), "idle");
    assert_eq!(category_to_string(&ActivityCategory::Other), "other");
}
