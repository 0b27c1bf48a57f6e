use obsidian_export::template::render_template;

fn pairs(values: &[(&str, &str)]) -> Vec<(String, String)> {
    values.iter().map(|(k, v)| (k.to_string(), v.to_string())).collect()
}

#[test]
fn unknown_placeholders_stay_verbatim() {
    let values = pairs(&[("title", "My Session")]);
    let out = render_template(Some("{{title}}{{unknown_key}}"), "default", &values);
    assert_eq!(out, "My Session{{unknown_key}}");
}

#[test]
fn every_occurrence_is_replaced() {
    let values = pairs(&[("name", "x")]);
    let out = render_template(Some("{{name}} and {{name}}"), "default", &values);
    assert_eq!(out, "x and x");
}

#[test]
fn blank_user_template_falls_back_to_default() {
    let values = pairs(&[("name", "x")]);
    let out = render_template(Some("   \n\t "), "default {{name}}", &values);
    assert_eq!(out, "default x");
}

#[test]
fn absent_user_template_uses_default() {
    let values = pairs(&[("name", "x")]);
    let out = render_template(None, "default {{name}}", &values);
    assert_eq!(out, "default x");
}

#[test]
fn no_mapping_leaves_template_unchanged() {
    let values: Vec<(String, String)> = Vec::new();
    let out = render_template(Some("{{a}} {{b}}"), "default", &values);
    assert_eq!(out, "{{a}} {{b}}");
}

#[test]
fn substitution_applies_pairs_in_order() {
    let values = pairs(&[("a", "{{b}}"), ("b", "two")]);
    let out = render_template(Some("{{a}}-{{b}}"), "default", &values);
    assert_eq!(out, "two-two");
}

#[test]
fn unicode_whitespace_counts_as_blank() {
    let values: Vec<(String, String)> = Vec::new();
    let out = render_template(Some("\u{2003}\u{00a0}\u{3000}"), "default", &values);
    assert_eq!(out, "default");
}

#[test]
fn zero_width_space_is_not_blank() {
    let values: Vec<(String, String)> = Vec::new();
    let out = render_template(Some("\u{200b}"), "default", &values);
    assert_eq!(out, "\u{200b}");
}
