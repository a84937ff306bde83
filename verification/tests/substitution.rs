use typst_engine::subst::substitute;

#[test]
fn replaces_every_occurrence() {
    let template = "a \"__RESUME_DATA__\" b \"__RESUME_DATA__\" c";
    let payload = "{\"x\": 1}";
    let out = substitute(template, payload);
    assert_eq!(out, "a {\"x\": 1} b {\"x\": 1} c");
    assert!(!out.contains("__RESUME_DATA__"));
}

#[test]
fn leaves_template_without_sentinel_unchanged() {
    let template = "#set page(width: auto)\nHello, world.";
    let out = substitute(template, "{\"x\": 1}");
    assert_eq!(out, template);
}

#[test]
fn sentinel_alone_becomes_payload() {
    let out = substitute("\"__RESUME_DATA__\"", "{\"name\": \"Ada\"}");
    assert_eq!(out, "{\"name\": \"Ada\"}");
}

#[test]
fn unquoted_token_is_not_the_sentinel() {
    let template = "__RESUME_DATA__";
    let out = substitute(template, "{}");
    assert_eq!(out, template);
}

#[test]
fn empty_template_stays_empty() {
    let out = substitute("", "{}");
    assert_eq!(out, "");
}

#[test]
fn empty_payload_removes_sentinel() {
    let out = substitute("x\"__RESUME_DATA__\"y", "");
    assert_eq!(out, "xy");
}

#[test]
fn multibyte_text_around_sentinel() {
    let out = substitute("\u{e9}\"__RESUME_DATA__\"\u{3b1}", "x");
    assert_eq!(out, "\u{e9}x\u{3b1}");
}

#[test]
fn adjacent_occurrences_both_replaced() {
    let out = substitute("\"__RESUME_DATA__\"\"__RESUME_DATA__\"", "1");
    assert_eq!(out, "11");
}
