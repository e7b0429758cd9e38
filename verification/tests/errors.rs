use rfastspeech::error::Error;

fn text_of(e: &Error) -> Option<&str> {
    match e {
        Error::Message(m) => Some(m),
        Error::WithBacktrace { inner, .. } => text_of(inner),
        _ => None,
    }
}

#[test]
fn message_wraps_text() {
    let e = Error::message("decode exploded".to_string());
    assert!(matches!(e, Error::Message(m) if m == "decode exploded"));
}

#[test]
fn add_path_annotates() {
    let e = Error::message("boom".to_string()).add_path("models/a.bin".to_string());
    match e {
        Error::WithPath { inner, path } => {
            assert_eq!(path, "models/a.bin");
            assert!(matches!(*inner, Error::Message(m) if m == "boom"));
        }
        _ => panic!("expected a path annotation"),
    }
}

#[test]
fn add_backtrace_keeps_inner_error() {
    let e = Error::message("boom".to_string()).add_backtrace();
    assert_eq!(text_of(&e), Some("boom"));
}

#[test]
fn bail_builds_a_message() {
    let e = Error::bail("nothing to import");
    assert_eq!(text_of(&e), Some("nothing to import"));
}
