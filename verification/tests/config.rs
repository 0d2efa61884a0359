use astra_receiver::config::{
    config_entry, require_variable, CONFIG_FILE, MISSING_VARIABLE, TOKEN_KEY,
};

#[test]
fn entry_is_name_equals_value_and_newline() {
    assert_eq!(config_entry("ASTRA_TOKEN", "12345"), "ASTRA_TOKEN=12345\n");
}

#[test]
fn entry_with_empty_parts() {
    assert_eq!(config_entry("", ""), "=\n");
    assert_eq!(config_entry("KEY", ""), "KEY=\n");
    assert_eq!(config_entry("", "value"), "=value\n");
}

#[test]
fn entry_keeps_its_parts_as_they_are() {
    assert_eq!(config_entry("A B", "c=d e"), "A B=c=d e\n");
    assert_eq!(config_entry("cl\u{e9}", "\u{1f511}"), "cl\u{e9}=\u{1f511}\n");
}

#[test]
fn fixed_names() {
    assert_eq!(CONFIG_FILE, ".env");
    assert_eq!(TOKEN_KEY, "ASTRA_TOKEN");
    assert_eq!(MISSING_VARIABLE, "Target env is not set.");
}

#[test]
fn variable_that_is_set_is_returned() {
    assert_eq!(require_variable(Some("value".to_string()), None), Ok("value".to_string()));
    assert_eq!(
        require_variable(Some("value".to_string()), Some("complaint".to_string())),
        Ok("value".to_string())
    );
    assert_eq!(require_variable(Some(String::new()), None), Ok(String::new()));
}

#[test]
fn missing_variable_gets_the_stock_complaint() {
    assert_eq!(require_variable(None, None), Err("Target env is not set.".to_string()));
}

#[test]
fn missing_variable_gets_the_callers_complaint() {
    assert_eq!(
        require_variable(None, Some("ASTRA_TOKEN must be set!".to_string())),
        Err("ASTRA_TOKEN must be set!".to_string())
    );
}
