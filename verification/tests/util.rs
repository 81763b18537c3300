use azalia_config::util::panic_message;

#[test]
fn the_message_of_a_panic_is_picked() {
    assert_eq!(panic_message(Some("owned".to_string()), None), "owned");
    assert_eq!(panic_message(None, Some("borrowed".to_string())), "borrowed");
    assert_eq!(panic_message(Some("owned".to_string()), Some("borrowed".to_string())), "owned");
    assert_eq!(panic_message(None, None), "<unknown panic message>");
    assert_eq!(panic_message(Some(String::new()), Some("borrowed".to_string())), "");
}
