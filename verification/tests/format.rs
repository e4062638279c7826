use tztail::format::Format;
use tztail::token::expand;
use tztail::token::format_has_timezone;

#[test]
fn format_test_new() {
    let fmt = Format::new("%Y-%m-%d %H:%M:%S").unwrap();

    assert!(!fmt.is_timezone_aware());

    match fmt.find("2019-08-08 10:20:24") {
        Some(found) => {
            assert_eq!(found.1, "2019-08-08 10:20:24");
            assert_eq!(found.0.len(), 0);
            assert_eq!(found.2.len(), 0);
        }
        None => assert!(false),
    }

    match fmt.find("20190-08-08 10:20:24") {
        Some(found) => {
            assert_eq!(found.0.len(), 1);
        }
        None => assert!(false),
    }

    match fmt.find("some random string") {
        Some(_) => assert!(false),
        None => assert!(true),
    }
}

#[test]
fn test_new_with_timezone() {
    let fmt = Format::new("%Y-%m-%d %H:%M:%S %z").unwrap();

    assert!(fmt.is_timezone_aware());
    let valid_str = "2019-08-08 10:20:24 +0000";
    match fmt.find(valid_str) {
        Some(found) => {
            assert_eq!(found.1, valid_str);
            assert_eq!(found.0.len(), 0);
            assert_eq!(found.2.len(), 0);
        }
        None => assert!(false),
    }

    let fmt = Format::new("%Y-%m-%d %H:%M:%S %Z").unwrap();
    assert!(fmt.is_timezone_aware());
    match fmt.find("2019-08-08 10:20:24 IST") {
        Some(found) => {
            assert_eq!(found.1, "2019-08-08 10:20:24 IST");
        }
        None => assert!(false),
    }
}

#[test]
fn test_create_re() {
    let fmt = Format::new("%Y-%m-%d").unwrap();
    let valid_input = "2004-08-08";
    let invalid_input = "204-08-08";
    let invalid_input_with_match = "20004-08-08";

    match fmt.find(valid_input) {
        Some(m) => {
            assert_eq!(m.0.len(), 0);
            assert_eq!(m.1, valid_input);
            assert_eq!(m.2.len(), 0);
        }
        None => {
            assert!(false);
        }
    }

    match fmt.find(invalid_input) {
        Some(_) => assert!(false),
        None => assert!(true),
    }

    match fmt.find(invalid_input_with_match) {
        Some(m) => assert_ne!(m.0.len(), 0),
        None => assert!(false),
    }
}

#[test]
fn test_timezone_token_spellings() {
    assert!(Format::new("%Y %z").unwrap().is_timezone_aware());
    assert!(Format::new("%Y %:z").unwrap().is_timezone_aware());
    assert!(Format::new("%Y %#z").unwrap().is_timezone_aware());
    assert!(Format::new("%Y %Z").unwrap().is_timezone_aware());
    assert!(!Format::new("%Y-%m-%d").unwrap().is_timezone_aware());
}

#[test]
fn test_expand() {
    assert_eq!(expand("%Y-%m-%d"), "\\d{4}-\\d{2}-\\d{2}");
    assert_eq!(
        expand("%Y-%m-%d %H:%M:%S %z"),
        "\\d{4}-\\d{2}-\\d{2} \\d{2}:\\d{2}:\\d{2} [\\+\\-]\\d{4}"
    );
    assert_eq!(expand("%d/%b/%Y:%H:%M:%S%.3f"), "\\d{2}/\\w{3}/\\d{4}:\\d{2}:\\d{2}:\\d{2}\\.\\d{3}");
    // Literal characters pass through untouched.
    assert_eq!(expand("plain text"), "plain text");
}

#[test]
fn test_format_has_timezone() {
    assert!(format_has_timezone("%Y-%m-%d %H:%M:%S %z"));
    assert!(format_has_timezone("%Y%:z"));
    assert!(format_has_timezone("%Y%#z"));
    assert!(format_has_timezone("%Z"));
    assert!(!format_has_timezone("%Y-%m-%d %H:%M:%S"));
    assert!(!format_has_timezone(""));
}

#[test]
fn test_invalid_expansion_is_refused() {
    // The fragments for the meridiem tokens hold an unbalanced bracket, so
    // a specifier using them cannot compile into a recognizer.
    assert!(Format::new("%H:%M %p").is_none());
    assert!(Format::new("%H:%M %P").is_none());
}
