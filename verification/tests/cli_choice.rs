use pastureen::cli::{parse_choice, parse_u32, CliError};

#[test]
fn numbers_parse_exactly() {
    assert_eq!(parse_u32("0"), Some(0));
    assert_eq!(parse_u32("42"), Some(42));
    assert_eq!(parse_u32("+7"), Some(7));
    assert_eq!(parse_u32("007"), Some(7));
    assert_eq!(parse_u32("4294967295"), Some(u32::MAX));
}

#[test]
fn non_numbers_are_rejected()  {
    assert_eq!(parse_u32(""), None);
    assert_eq!(parse_u32("+"), None);
    assert_eq!(parse_u32("-1"), None);
    assert_eq!(parse_u32("12a"), None);
    assert_eq!(parse_u32("1 2"), None);
    assert_eq!(parse_u32("4294967296"), None);
    assert_eq!(parse_u32("99999999999999999999"), None);
}

#[test]
fn choices_are_confined_to_the_menu() {
    assert_eq!(parse_choice("1", 3), Some(1));
    assert_eq!(parse_choice("3", 3), Some(3));
    assert_eq!(parse_choice("0", 3), None);
    assert_eq!(parse_choice("4", 3), None);
    assert_eq!(parse_choice("nope", 3), None);
    assert_eq!(parse_choice("2", 0), None);
}

#[test]
fn io_errors_carry_their_description() {
    let err = CliError::Io("broken pipe".to_string());
    match err {
        CliError::Io(msg) => assert_eq!(msg, "broken pipe"),
    }
}
