use interact::routing::snake_key;

#[test]
fn camel_case_name_becomes_snake_case_key() {
    assert_eq!(snake_key("MyCommand"), "my_command");
}

#[test]
fn case_and_digit_transitions_all_split() {
    assert_eq!(snake_key("ABTest2Variant"), "a_b_test_2_variant");
}

#[test]
fn single_word_is_lowered_only() {
    assert_eq!(snake_key("Ping"), "ping");
    assert_eq!(snake_key("ping"), "ping");
}

#[test]
fn already_snake_case_input_is_unchanged() {
    assert_eq!(snake_key("my_command"), "my_command");
    assert_eq!(snake_key("a_b_test_2_variant"), "a_b_test_2_variant");
}

#[test]
fn transform_is_idempotent_on_its_own_output() {
    let once = snake_key("ABTest2Variant");
    let twice = snake_key(&once);
    assert_eq!(twice, once);
    let once = snake_key("MyCommand");
    let twice = snake_key(&once);
    assert_eq!(twice, once);
}

#[test]
fn transform_is_deterministic() {
    assert_eq!(snake_key("MyCommand"), snake_key("MyCommand"));
}

#[test]
fn empty_name_gives_empty_key() {
    assert_eq!(snake_key(""), "");
}

#[test]
fn leading_digit_gets_no_separator() {
    assert_eq!(snake_key("2Fast"), "2_fast");
    assert_eq!(snake_key("2fast"), "2fast");
}

#[test]
fn digit_runs_stay_together() {
    assert_eq!(snake_key("Test42"), "test_42");
}
