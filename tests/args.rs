use zenkit_cli::args::{
    parse_key_val, parse_setval, parse_try_text_format, split_at_char, FieldValue, TextFormat,
};

#[test]
fn key_val_splits_at_first_equals() {
    let (k, v) = parse_key_val("Status=a=b").unwrap();
    assert_eq!(k, "Status");
    assert_eq!(v, "a=b");
    let (k, v) = parse_key_val("=").unwrap();
    assert_eq!(k, "");
    assert_eq!(v, "");
}

#[test]
fn key_val_without_equals_is_an_error() {
    assert_eq!(
        parse_key_val("Status").unwrap_err(),
        "invalid KEY=value: no `=` found in `Status`"
    );
}

#[test]
fn setval_list() {
    match parse_setval("[a,b,,c]".to_string()) {
        FieldValue::ArrStr(v) => assert_eq!(v, vec!["a", "b", "", "c"]),
        other => panic!("unexpected {:?}", other),
    }
    match parse_setval("[]".to_string()) {
        FieldValue::ArrStr(v) => assert_eq!(v, vec![""]),
        other => panic!("unexpected {:?}", other),
    }
}

#[test]
fn setval_formats() {
    match parse_setval("plain::hi".to_string()) {
        FieldValue::Formatted(t, f) => {
            assert_eq!(t, "hi");
            assert_eq!(f, TextFormat::Plain);
        }
        other => panic!("unexpected {:?}", other),
    }
    match parse_setval("html::<b>x</b>".to_string()) {
        FieldValue::Formatted(t, f) => {
            assert_eq!(t, "<b>x</b>");
            assert_eq!(f, TextFormat::Html);
        }
        other => panic!("unexpected {:?}", other),
    }
    match parse_setval("markdown::*y*".to_string()) {
        FieldValue::Formatted(t, f) => {
            assert_eq!(t, "*y*");
            assert_eq!(f, TextFormat::Markdown);
        }
        other => panic!("unexpected {:?}", other),
    }
}

#[test]
fn setval_plain_string() {
    match parse_setval("[open".to_string()) {
        FieldValue::Str(t) => assert_eq!(t, "[open"),
        other => panic!("unexpected {:?}", other),
    }
    match parse_setval("]".to_string()) {
        FieldValue::Str(t) => assert_eq!(t, "]"),
        other => panic!("unexpected {:?}", other),
    }
}

#[test]
fn text_format_names() {
    assert_eq!(parse_try_text_format("plain"), Ok(TextFormat::Plain));
    assert_eq!(parse_try_text_format("markdown"), Ok(TextFormat::Markdown));
    assert_eq!(parse_try_text_format("html"), Ok(TextFormat::Html));
    assert_eq!(
        parse_try_text_format("HTML"),
        Err("Invalid text format: should be plain, markdown, or html")
    );
}

#[test]
fn split_keeps_empty_parts() {
    assert_eq!(split_at_char("", ','), vec![""]);
    assert_eq!(split_at_char(",x,", ','), vec!["", "x", ""]);
}
