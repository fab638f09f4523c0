use qapp_meta::parse::parse_i32;
use qapp_meta::parse::parse_u32;
use qapp_meta::version::verify_version;
use qapp_meta::writer::menu_choice;
use qapp_meta::writer::MenuChoice;

#[test]
fn version_three_segments_accepted() {
    assert!(verify_version("1.2.3"));
    assert!(verify_version("0.0.0"));
    assert!(verify_version("01.002.3"));
    assert!(verify_version("4294967295.0.0"));
}

#[test]
fn version_extra_segments_ignored() {
    assert!(verify_version("1.2.3.4"));
    assert!(verify_version("1.2.3.beta"));
    assert!(verify_version("1.2.3."));
}

#[test]
fn version_plus_sign_accepted_as_std_parse_does() {
    assert!(verify_version("+1.+2.+3"));
}

#[test]
fn version_too_few_segments_rejected() {
    assert!(!verify_version(""));
    assert!(!verify_version("1"));
    assert!(!verify_version("1.2"));
}

#[test]
fn version_non_numeric_segment_rejected() {
    assert!(!verify_version("a.2.3"));
    assert!(!verify_version("1.b.3"));
    assert!(!verify_version("1.2.c"));
    assert!(!verify_version("1..3"));
    assert!(!verify_version("1. 2.3"));
    assert!(!verify_version("-1.2.3"));
}

#[test]
fn version_segment_over_u32_max_rejected() {
    assert!(!verify_version("4294967296.0.0"));
    assert!(!verify_version("0.99999999999.0"));
}

#[test]
fn parse_u32_matches_std() {
    for s in ["0", "42", "007", "+5", "4294967295", "4294967296", "", "+", "-1", "1x", " 1"] {
        assert_eq!(parse_u32(s), s.parse::<u32>().ok(), "input {s:?}");
    }
}

#[test]
fn parse_i32_matches_std() {
    for s in [
        "0",
        "42",
        "-42",
        "+17",
        "2147483647",
        "2147483648",
        "-2147483648",
        "-2147483649",
        "",
        "-",
        "+",
        "12a",
    ] {
        assert_eq!(parse_i32(s), s.parse::<i32>().ok(), "input {s:?}");
    }
}

#[test]
fn menu_options_select_actions() {
    assert_eq!(menu_choice("1"), MenuChoice::Overwrite);
    assert_eq!(menu_choice("2"), MenuChoice::Abort);
    assert_eq!(menu_choice("3"), MenuChoice::NewName);
}

#[test]
fn menu_line_is_trimmed_before_parsing() {
    assert_eq!(menu_choice(" 1 \n"), MenuChoice::Overwrite);
    assert_eq!(menu_choice("\t2\n"), MenuChoice::Abort);
}

#[test]
fn menu_other_integers_reprompt() {
    assert_eq!(menu_choice("0"), MenuChoice::Retry);
    assert_eq!(menu_choice("4"), MenuChoice::Retry);
    assert_eq!(menu_choice("-5"), MenuChoice::Retry);
    assert_eq!(menu_choice("2147483647"), MenuChoice::Retry);
    assert_eq!(menu_choice("-2147483648"), MenuChoice::Retry);
}

#[test]
fn menu_non_numeric_is_fatal() {
    assert_eq!(menu_choice(""), MenuChoice::Fatal);
    assert_eq!(menu_choice("x"), MenuChoice::Fatal);
    assert_eq!(menu_choice("1.5"), MenuChoice::Fatal);
    assert_eq!(menu_choice("2147483648"), MenuChoice::Fatal);
    assert_eq!(menu_choice("-2147483649"), MenuChoice::Fatal);
}
