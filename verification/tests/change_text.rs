use rusted::commands::change_text::cmd;
use rusted::errors::EdError;
use rusted::parse::{Addr, LineRange, Mode};
use rusted::Config;

#[test]
fn default_line_empty_buffer_acts_like_append() {
    let text: Vec<String> = vec![
        "the quick brown fox".into(),
        "jumped over the lazy dog".into(),
    ];
    let mut buffer: Vec<String> = vec![];
    let mut config = Config::default();
    let res = cmd(&text, None, &mut buffer, &mut config);
    assert!(res.is_ok());
    assert_eq!(&buffer, &text);
    assert_eq!(config.current_index, Some(1));
}

#[test]
fn change_text_explicit_line_one_empty_buffer() {
    let text: Vec<String> = vec![
        "the quick brown fox".into(),
        "jumped over the lazy dog".into(),
    ];
    let mut buffer: Vec<String> = vec![];
    let mut config = Config::default();
    let addr = Some(LineRange::current_line());
    let res = cmd(&text, addr, &mut buffer, &mut config);
    assert!(res.is_ok());
    assert_eq!(&buffer, &text);
    assert_eq!(config.current_index, Some(1));
}

// Empty replacement text leaves the targeted range fully intact: the change
// is atomic, there is no partial delete.
#[test]
fn empty_replacement_leaves_range_intact() {
    let text: Vec<String> = vec![];
    let before: Vec<String> = vec!["a".into(), "b".into(), "c".into()];
    let mut buffer = before.clone();
    let mut config = Config::default();
    config.current_index = Some(0);
    let range = Some(LineRange(
        Some(Addr::number(1)),
        Mode::Comma,
        Some(Addr::number(3)),
    ));
    let res = cmd(&text, range, &mut buffer, &mut config);
    assert_eq!(res, Err(EdError::Unknown));
    assert_eq!(buffer, before);
    assert_eq!(config.current_index, Some(0));
    assert!(!config.dirty);
}

// Replacing the middle line of three: the replacement stands in its place.
#[test]
fn change_replaces_resolved_range_in_place() {
    let text: Vec<String> = vec!["x".into(), "y".into()];
    let mut buffer: Vec<String> = vec!["a".into(), "b".into(), "c".into()];
    let mut config = Config::default();
    config.current_index = Some(1);
    let res = cmd(&text, None, &mut buffer, &mut config);
    assert!(res.is_ok());
    let expected: Vec<String> = vec!["a".into(), "x".into(), "y".into(), "c".into()];
    assert_eq!(buffer, expected);
    assert_eq!(config.current_index, Some(2));
    assert!(config.dirty);
}
