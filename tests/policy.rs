use magic_eight_ball::answer::{
    build_prompt, clean_answer, is_placeholder_answer, normalize_question, starts_with,
    strip_answer_labels, trim_text, PROMPT_HEAD, PROMPT_TAIL,
};
use magic_eight_ball::request::{answer_response, json_escape, no_question_response, APPLICATION_JSON};

#[test]
fn label_stripping_is_idempotent() {
    let once = clean_answer("Answer: Answer: Yes, definitely.");
    assert_eq!(once, "Yes, definitely.");
    assert_eq!(clean_answer(&once), once);
    assert_eq!(strip_answer_labels(&once), once);
}

#[test]
fn labels_are_stripped_with_trimming_between() {
    assert_eq!(clean_answer("\t Answer:   Answer:Maybe. \n"), "Maybe.");
    assert_eq!(clean_answer("Answer:"), "");
    assert_eq!(clean_answer("   "), "");
    assert_eq!(clean_answer("The Answer: yes"), "The Answer: yes");
    assert_eq!(strip_answer_labels("Answer:  x  "), "x");
}

#[test]
fn trimming_uses_unicode_white_space() {
    assert_eq!(trim_text("\u{3000}\u{a0} hi there \u{2029}\r\n"), "hi there");
    assert_eq!(trim_text(""), "");
    assert_eq!(trim_text("x"), "x");
    assert_eq!(trim_text("\u{200b}x"), "\u{200b}x");
}

#[test]
fn normalization_appends_one_question_mark() {
    assert_eq!(normalize_question("are you sure"), "are you sure?");
    assert_eq!(normalize_question("are you sure?"), "are you sure?");
    assert_eq!(normalize_question("¿sí"), "¿sí?");
    assert_eq!(normalize_question(""), "?");
}

#[test]
fn prompt_wraps_normalized_question() {
    let p = build_prompt("are you sure");
    assert_eq!(p, format!("{}are you sure?{}", PROMPT_HEAD, PROMPT_TAIL));
    assert!(p.contains("Prefix your response with 'Answer:'."));
}

#[test]
fn placeholder_is_recognized_exactly() {
    assert!(is_placeholder_answer("Ask again later."));
    assert!(!is_placeholder_answer("Ask again later"));
    assert!(!is_placeholder_answer("Ask again later. "));
    assert!(!is_placeholder_answer("Yes."));
}

#[test]
fn prefix_test_compares_characters() {
    assert!(starts_with("Answer: x", "Answer:"));
    assert!(!starts_with("Ans", "Answer:"));
    assert!(starts_with("abc", ""));
}

#[test]
fn answer_is_wrapped_in_json() {
    let r = answer_response("Yes.");
    assert_eq!(r.status, 200);
    assert_eq!(r.content_type, APPLICATION_JSON);
    assert_eq!(r.body, "{\"answer\": \"Yes.\"}");
}

#[test]
fn json_text_is_escaped() {
    assert_eq!(json_escape("say \"yes\""), "say \\\"yes\\\"");
    assert_eq!(json_escape("a\\b\nc\td\r"), "a\\\\b\\nc\\td\\r");
    assert_eq!(json_escape("\u{1}\u{1f}é"), "\\u0001\\u001fé");
    assert_eq!(answer_response("a\"b").body, "{\"answer\": \"a\\\"b\"}");
}

#[test]
fn no_question_reply_is_fixed() {
    let r = no_question_response();
    assert_eq!(r.status, 200);
    assert_eq!(r.body, "No question provided");
    assert_eq!(r.content_type, "text/plain");
}
