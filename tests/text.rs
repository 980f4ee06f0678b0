use ostt::text::{non_empty, selected_model_id};

#[test]
fn selected_model_is_trimmed() {
    assert_eq!(selected_model_id("nova-3\n"), Some("nova-3".to_string()));
    assert_eq!(selected_model_id("  whisper  "), Some("whisper".to_string()));
}

#[test]
fn blank_selection_is_none() {
    assert_eq!(selected_model_id(""), None);
    assert_eq!(selected_model_id(" \n\t"), None);
}

#[test]
fn non_empty_keeps_text() {
    assert_eq!(non_empty(String::new()), None);
    assert_eq!(non_empty("x".to_string()), Some("x".to_string()));
}
