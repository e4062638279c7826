use tztail::args::ColorChoice;
use tztail::reader::Input;
use tztail::reader::InputReader;

#[test]
fn test_input_selection() {
    assert!(matches!(Input::from_filename(None), Input::Stdin));
    assert!(matches!(Input::from_filename(Some("-")), Input::Stdin));
    assert!(matches!(
        Input::from_filename(Some("app.log")),
        Input::File(name) if name == "app.log"
    ));
}

#[test]
fn test_first_line() {
    let reader = InputReader::new(String::from("first line\n"));
    assert_eq!(reader.first_line(), "first line\n");
}

#[test]
fn test_read_line() {
    let mut reader = InputReader::new(String::from("head\n"));
    let mut buf = String::new();

    assert_eq!(reader.read_line(&mut buf), 0);
    assert_eq!(buf, "");

    reader.feed("abc");
    assert_eq!(reader.read_line(&mut buf), 0);

    reader.feed("def\nxy");
    assert_eq!(reader.read_line(&mut buf), 7);
    assert_eq!(buf, "abcdef\n");

    assert_eq!(reader.read_line(&mut buf), 0);
    assert_eq!(buf, "abcdef\n");

    buf.clear();
    reader.feed("z\n\n");
    assert_eq!(reader.read_line(&mut buf), 4);
    assert_eq!(buf, "xyz\n");
    buf.clear();
    assert_eq!(reader.read_line(&mut buf), 1);
    assert_eq!(buf, "\n");
}

#[test]
fn test_remainder() {
    let mut reader = InputReader::new(String::new());
    let mut buf = String::new();
    reader.feed("tail without newline");
    assert_eq!(reader.read_line(&mut buf), 0);
    assert_eq!(reader.remainder(&mut buf), 20);
    assert_eq!(buf, "tail without newline");
    assert_eq!(reader.remainder(&mut buf), 0);
    assert_eq!(buf, "tail without newline");
}

#[test]
fn test_color_choice() {
    assert_eq!(ColorChoice::new(Some("always")), ColorChoice::Always);
    assert_eq!(ColorChoice::new(Some("never")), ColorChoice::Never);
    assert_eq!(ColorChoice::new(Some("sometimes")), ColorChoice::Auto);
    assert_eq!(ColorChoice::new(None), ColorChoice::Auto);
}
