use chrono::DateTime;
use chrono::TimeZone;
use tztail::converter::Converter;

#[allow(deprecated)]
fn convert_utc_to_localtimezone(input: &str, format: &str) -> String {
    let local_timezone = chrono::Local::now().timezone();
    return chrono::Utc
        .datetime_from_str(input, format)
        .unwrap()
        .with_timezone(&local_timezone)
        .format(format)
        .to_string();
}

fn convert_to_localtimezone(input: &str, format: &str) -> String {
    let local_timezone = chrono::Local::now().timezone();
    return DateTime::parse_from_str(input, format)
        .unwrap()
        .with_timezone(&local_timezone)
        .format(format)
        .to_string();
}

#[test]
fn converter_test_new() {
    match Converter::new(Some("Random/str"), None) {
        Ok(_) => assert!(true),
        Err(_) => assert!(false),
    };

    match Converter::new(Some("Asia/Kolkata"), None) {
        Ok(c) => {
            assert!(true);
            assert_eq!(c.num_formats(), 11);
        }
        Err(_) => assert!(false),
    };

    match Converter::new(Some("Asia/Kolkata"), Some("%Y-%m-%d %H:%M:%S %z")) {
        Ok(c) => {
            assert!(true);
            assert_eq!(c.num_formats(), 1);
        }
        Err(_) => assert!(false),
    };
}

struct TestCase<'a> {
    timezone: Option<&'a str>,
    format: Option<&'a str>,
    inputs: Vec<&'a str>,
    outputs: Vec<String>,
}

#[test]
fn test_convert() {
    let local_timezone_case_1 =
        convert_utc_to_localtimezone("2002-10-02 15:00:00", "%Y-%m-%d %H:%M:%S");
    let local_timezone_case_2 =
        convert_to_localtimezone("2012-07-24T23:14:29-0700", "%Y-%m-%dT%H:%M:%S%z");

    let testcases = vec![
        TestCase {
            timezone: Some("Asia/Kolkata"),
            format: Some("%Y-%m-%d %H:%M:%S %z"),
            inputs: vec![
                "2018-08-08 10:32:15 +0000",
                "2018-03-03 10:32:15 +0700",
                "2018-08-08 10:32:15 -0200",
            ],
            outputs: vec![
                "2018-08-08 16:02:15 +0530".to_string(),
                "2018-03-03 09:02:15 +0530".to_string(),
                "2018-08-08 18:02:15 +0530".to_string(),
            ],
        },
        TestCase {
            timezone: Some("Asia/Kolkata"),
            format: Some("%Y-%m-%d %H:%M:%S"),
            inputs: vec!["2018-11-03 22:39:33 Some random log"],
            outputs: vec!["2018-11-04 04:09:33 Some random log".to_string()],
        },
        TestCase {
            timezone: Some("Europe/Paris"),
            format: None,
            inputs: vec![
                "Fri, 28 Nov 2014 12:00:09 +0000",
                "Thu, 27 Nov 2014 01:00:09 +0530",
                "14/Nov/2018:22:14:27 -0800",
                "2014-11-28T12:00:09+0500",
                "2014-11-28 12:00:09+0500",
                "2014-11-28T12:00:09 +0500",
                "2014-11-28 12:00:09 +0500",
                "04/Nov/2018:12:13:49 +0500 Nginx",
                "04/Nov/2018:12:13:49.334 +0500 Nginx",
                "04/Nov/2018:12:13:49 HAProxy",
            ],
            outputs: vec![
                "Fri, 28 Nov 2014 13:00:09 +0100".to_string(),
                "Wed, 26 Nov 2014 20:30:09 +0100".to_string(),
                "15/Nov/2018:07:14:27 +0100".to_string(),
                "2014-11-28T08:00:09+0100".to_string(),
                "2014-11-28 08:00:09+0100".to_string(),
                "2014-11-28T08:00:09 +0100".to_string(),
                "2014-11-28 08:00:09 +0100".to_string(),
                "04/Nov/2018:08:13:49 +0100 Nginx".to_string(),
                "04/Nov/2018:08:13:49.334 +0100 Nginx".to_string(),
                "04/Nov/2018:13:13:49 HAProxy".to_string(),
            ],
        },
        TestCase {
            timezone: None,
            format: None,
            inputs: vec!["2002-10-02 15:00:00", "2012-07-24T23:14:29-0700"],
            outputs: vec![local_timezone_case_1, local_timezone_case_2],
        },
    ];

    for test in testcases {
        let converter = match Converter::new(test.timezone, test.format) {
            Ok(c) => c,
            Err(_) => {
                assert!(false);
                return;
            }
        };

        for i in 0..test.inputs.len() {
            let input = test.inputs[i];
            let expected_output = &test.outputs[i];

            let output = converter.convert(input);

            assert_eq!(&output, expected_output);
        }
    }
}

#[test]
fn test_invalid_custom_format_is_fatal() {
    // The meridiem fragments make an invalid pattern: the one configuration
    // error, surfaced at startup.
    match Converter::new(Some("Asia/Kolkata"), Some("%H:%M %p")) {
        Ok(_) => assert!(false),
        Err(_) => assert!(true),
    }
}

#[test]
fn scenario_explicit_offset_default_formats() {
    let c = Converter::new(Some("Asia/Kolkata"), None).unwrap();
    assert_eq!(
        c.convert("2018-08-08 10:32:15 +0000"),
        "2018-08-08 16:02:15 +0530"
    );
}

#[test]
fn scenario_naive_utc_assumption() {
    let c = Converter::new(Some("Asia/Kolkata"), None).unwrap();
    assert_eq!(
        c.convert("2018-11-03 22:39:33 Some random log"),
        "2018-11-04 04:09:33 Some random log"
    );
}

#[test]
fn scenario_no_match() {
    let c = Converter::new(Some("Asia/Kolkata"), None).unwrap();
    assert_eq!(
        c.convert("hello world, no timestamp here"),
        "hello world, no timestamp here"
    );
}

#[test]
fn scenario_custom_format_local_timezone() {
    let local = convert_to_localtimezone("2018/11/21 22:48:14 +03:00", "%Y/%m/%d %H:%M:%S %:z");
    let c = Converter::new(None, Some("%Y/%m/%d %H:%M:%S %:z")).unwrap();
    assert_eq!(
        c.convert("2018/11/21 22:48:14 +03:00: msg"),
        format!("{}: msg", local)
    );
}

#[test]
fn test_round_trip_identity_timezone() {
    // A timezone-aware timestamp converted into the timezone it is already
    // expressed in comes back byte-identical.
    let c = Converter::new(Some("Asia/Kolkata"), Some("%Y-%m-%d %H:%M:%S %z")).unwrap();
    let line = "log 2018-08-08 10:32:15 +0530 more";
    assert_eq!(c.convert(line), line);
}

#[test]
fn test_shape_preservation() {
    // Two-digit fields stay two digits, zero-padded, and the rendered
    // replacement keeps the specifier's width.
    let c = Converter::new(Some("Asia/Kolkata"), Some("%Y-%m-%d %H:%M:%S %z")).unwrap();
    let input = "2018-08-08 01:02:15 +0000";
    let output = c.convert(input);
    assert_eq!(output, "2018-08-08 06:32:15 +0530");
    assert_eq!(output.len(), input.len());
}

#[test]
fn test_priority_of_default_order() {
    // "2014-11-28 12:00:09 +0500" is structurally matched both by the
    // offset-bearing default and by the bare local-time default listed
    // later; the earlier, offset-bearing one decides, so the embedded
    // offset is honored rather than the value being re-read as UTC.
    let c = Converter::new(Some("Asia/Kolkata"), None).unwrap();
    assert_eq!(
        c.convert("2014-11-28 12:00:09 +0500"),
        "2014-11-28 12:30:09 +0530"
    );
}

#[test]
fn test_surrounding_text_invariance() {
    let c = Converter::new(Some("Asia/Kolkata"), None).unwrap();
    let output = c.convert("AAA 2018-08-08 10:32:15 +0000 BBB");
    assert_eq!(output, "AAA 2018-08-08 16:02:15 +0530 BBB");
    assert!(output.starts_with("AAA "));
    assert!(output.ends_with(" BBB"));
}

#[test]
fn test_stdin() {
    let remote_time = "19/Nov/2018:15:59:47 +0000";
    let local_time = convert_to_localtimezone(remote_time, "%d/%b/%Y:%H:%M:%S %z");
    let c = Converter::new(None, None).unwrap();
    assert_eq!(
        c.convert(&format!("[{}] PUT /some/nginxurl", remote_time)),
        format!("[{}] PUT /some/nginxurl", local_time)
    );
}

#[test]
fn test_target_timezone() {
    let c = Converter::new(Some("US/Pacific"), None).unwrap();
    assert_eq!(
        c.convert("2018-11-21T22:48:14+0100: This is a log"),
        "2018-11-21T13:48:14-0800: This is a log"
    );
}

#[test]
fn test_custom_format() {
    let remote_time = "2018/11/21 22:48:14 +03:00";
    let local_time = convert_to_localtimezone(remote_time, "%Y/%m/%d %H:%M:%S %:z");
    let c = Converter::new(None, Some("%Y/%m/%d %H:%M:%S %:z")).unwrap();
    assert_eq!(
        c.convert("2018/11/21 22:48:14 +03:00: This is a custom formatted log"),
        format!("{}: This is a custom formatted log", local_time)
    );
}

#[test]
fn test_default_utc() {
    let c = Converter::new(Some("Asia/Kolkata"), Some("%Y/%m/%dT%H:%M:%S")).unwrap();
    assert_eq!(
        c.convert("2018/11/21T22:48:14: This is a log in UTC"),
        "2018/11/22T04:18:14: This is a log in UTC"
    );
}

#[test]
fn test_trailing_newline_kept() {
    let c = Converter::new(Some("Asia/Kolkata"), None).unwrap();
    assert_eq!(
        c.convert("2018-08-08 10:32:15 +0000\n"),
        "2018-08-08 16:02:15 +0530\n"
    );
    assert_eq!(c.convert(""), "");
    assert_eq!(c.convert("\n"), "\n");
}

#[test]
fn test_unparsable_match_passes_through() {
    // The shape matches the naive default format, but month 13 is out of
    // range: the line passes through unchanged.
    let c = Converter::new(Some("Asia/Kolkata"), None).unwrap();
    let line = "2018-13-40 25:61:61 impossible";
    assert_eq!(c.convert(line), line);
}
