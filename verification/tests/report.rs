use squalo::report::{error_line, CONNECT_FAILURE};
use squalo::session::Fatal;

#[test]
fn error_line_is_an_object_with_the_error_text() {
    assert_eq!(error_line("Connection reset"), "{\"error\":\"Connection reset\"}");
    assert_eq!(error_line(""), "{\"error\":\"\"}");
}

#[test]
fn error_line_takes_the_text_as_it_is() {
    assert_eq!(error_line("a \"quoted\" word"), "{\"error\":\"a \"quoted\" word\"}");
}

#[test]
fn connect_failure_message_names_the_error() {
    assert_eq!(CONNECT_FAILURE, "{{\"error\":\"unable to connect\"}}");
    assert_eq!(
        Fatal::Connect("refused".to_string()).message(),
        "{{\"error\":\"unable to connect\"}}: refused"
    );
}

#[test]
fn write_and_read_failure_messages_are_the_error_alone() {
    assert_eq!(Fatal::Write("broken pipe".to_string()).message(), "broken pipe");
    assert_eq!(Fatal::Read("bad frame".to_string()).message(), "bad frame");
}
