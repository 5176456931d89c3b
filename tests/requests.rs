use photo_calendar::export::payload_or_empty;
use photo_calendar::field::{sanitize, UploadField};
use photo_calendar::pipeline::{Action, Event, Phase, Request};
use photo_calendar::reply::{
    compile_failure_reply, receive_failure_reply, redact_path, response, Reply,
};
use photo_calendar::staging::{new_staging_prefix, staging_prefix_for};
use typst::foundations::{Str, Value};

fn field(name: &str, file_name: Option<&str>, content: Option<&[u8]>) -> UploadField {
    UploadField {
        name: Some(name.to_string()),
        file_name: file_name.map(|s| s.to_string()),
        content: content.map(|c| c.to_vec()),
    }
}

fn staging_request() -> Request {
    let mut r = Request::new();
    assert!(matches!(r.step(Event::DirectoryCreated), Action::NextField));
    r
}

fn expect_failure(a: Action, status: u16, message: &str, release: bool) {
    match a {
        Action::Finish { reply: Reply::Failure { status: s, message: m }, release: r } => {
            assert_eq!(s, status);
            assert_eq!(m, message);
            assert_eq!(r, release);
        }
        _ => panic!("expected a failure reply"),
    }
}

#[test]
fn empty_file_name_is_skipped() {
    let mut r = staging_request();
    let a = r.step(Event::Field(field("jan", Some(""), Some(b"photo"))));
    assert!(matches!(a, Action::NextField));
    assert_eq!(r.inputs().len(), 0);
    assert_eq!(r.phase(), Phase::Staging);
}

#[test]
fn empty_content_is_skipped() {
    let mut r = staging_request();
    let a = r.step(Event::Field(field("jan", Some("jan.png"), Some(b""))));
    assert!(matches!(a, Action::NextField));
    assert_eq!(r.inputs().len(), 0);
}

#[test]
fn unreadable_content_is_skipped() {
    let mut r = staging_request();
    let a = r.step(Event::Field(field("jan", Some("jan.png"), None)));
    assert!(matches!(a, Action::NextField));
    assert_eq!(r.inputs().len(), 0);
}

#[test]
fn accepted_field_is_written_and_labelled() {
    let mut r = staging_request();
    match r.step(Event::Field(field("jan", None, Some(b"abc")))) {
        Action::WriteFile { name, content } => {
            assert_eq!(name, "jan");
            assert_eq!(content, b"abc".to_vec());
        }
        _ => panic!("expected a write"),
    }
    assert_eq!(r.inputs().len(), 0);
    assert!(matches!(r.step(Event::FieldWritten), Action::NextField));
    assert_eq!(r.inputs().len(), 1);
    assert_eq!(r.inputs().get("jan").unwrap(), &Value::Str(Str::from("jan")));
}

#[test]
fn duplicate_name_keeps_last_content() {
    let mut r = staging_request();
    r.step(Event::Field(field("feb", None, Some(b"first"))));
    r.step(Event::FieldWritten);
    match r.step(Event::Field(field("feb", None, Some(b"second")))) {
        Action::WriteFile { name, content } => {
            assert_eq!(name, "feb");
            assert_eq!(content, b"second".to_vec());
        }
        _ => panic!("expected a write"),
    }
    r.step(Event::FieldWritten);
    assert_eq!(r.inputs().len(), 1);
    assert_eq!(r.inputs().get("feb").unwrap(), &Value::Str(Str::from("feb")));
}

#[test]
fn write_failure_ends_with_500_and_release() {
    let mut r = staging_request();
    r.step(Event::Field(field("jan", None, Some(b"abc"))));
    expect_failure(r.step(Event::WriteFailed), 500, "Failed to receive file", true);
    assert_eq!(r.phase(), Phase::Failed);
    assert!(matches!(r.step(Event::FieldsExhausted), Action::Ignore));
}

fn written_name(a: Action) -> String {
    match a {
        Action::WriteFile { name, .. } => name,
        _ => panic!("expected a write"),
    }
}

#[test]
fn unsafe_name_is_sanitized() {
    let mut r = staging_request();
    assert_eq!(written_name(r.step(Event::Field(field("../jan", None, Some(b"abc"))))), ".._jan");
    r.step(Event::FieldWritten);
    assert_eq!(r.inputs().get(".._jan").unwrap(), &Value::Str(Str::from(".._jan")));
    assert_eq!(written_name(r.step(Event::Field(field("..", None, Some(b"abc"))))), "_..");
    r.step(Event::FieldWritten);
    assert_eq!(written_name(r.step(Event::Field(field("a/b", None, Some(b"abc"))))), "a_b");
    r.step(Event::FieldWritten);
    let a = r.step(Event::Field(UploadField {
        name: None,
        file_name: Some("x.png".to_string()),
        content: Some(b"abc".to_vec()),
    }));
    assert_eq!(written_name(a), "");
    expect_failure(r.step(Event::WriteFailed), 500, "Failed to receive file", true);
}

#[test]
fn sanitized_names() {
    assert_eq!(sanitize("jan"), "jan");
    assert_eq!(sanitize("a\\b"), "a\\b");
    assert_eq!(sanitize("/"), "_");
    assert_eq!(sanitize("."), "_.");
    assert_eq!(sanitize("./"), "._");
    assert_eq!(sanitize(""), "");
}

#[test]
fn staging_path_is_kept_out_of_diagnostics() {
    assert_eq!(redact_path("file /tmp/p-1/jan not found", "/tmp/p-1"), "file <upload>/jan not found");
    assert_eq!(redact_path("/tmp/a and /tmp/a", "/tmp/a"), "<upload> and <upload>");
    assert_eq!(redact_path("no path", ""), "no path");
    assert_eq!(redact_path("", "/tmp"), "");
}

#[test]
fn directory_failure_releases_nothing() {
    let mut r = Request::new();
    expect_failure(r.step(Event::DirectoryFailed), 500, "Failed to receive file", false);
    assert_eq!(r.phase(), Phase::Failed);
}

#[test]
fn compile_failure_carries_diagnostic() {
    let mut r = staging_request();
    assert!(matches!(r.step(Event::FieldsExhausted), Action::Compile));
    let a = r.step(Event::CompileFailed("missing file".to_string()));
    expect_failure(a, 500, "Failed to compile document: missing file", true);
}

#[test]
fn full_run_sends_document_once() {
    let mut r = staging_request();
    r.step(Event::Field(field("jan", Some("jan.png"), Some(b"abc"))));
    r.step(Event::FieldWritten);
    assert!(matches!(r.step(Event::FieldsExhausted), Action::Compile));
    assert!(matches!(r.step(Event::Compiled), Action::Export));
    match r.step(Event::Exported(b"%PDF-1.7".to_vec())) {
        Action::Finish { reply: Reply::Document(b), release } => {
            assert_eq!(b, b"%PDF-1.7".to_vec());
            assert!(release);
        }
        _ => panic!("expected the document"),
    }
    assert_eq!(r.phase(), Phase::Done);
    assert!(matches!(r.step(Event::Exported(Vec::new())), Action::Ignore));
}

#[test]
fn unexpected_events_end_the_request() {
    let mut r = Request::new();
    expect_failure(r.step(Event::FieldWritten), 500, "Failed to receive file", false);
    assert_eq!(r.phase(), Phase::Failed);
    assert!(matches!(r.step(Event::Compiled), Action::Ignore));
    let mut r = staging_request();
    expect_failure(r.step(Event::WriteFailed), 500, "Failed to receive file", true);
    assert_eq!(r.phase(), Phase::Failed);
}

#[test]
fn export_failure_gives_empty_payload() {
    assert_eq!(payload_or_empty(None), Vec::<u8>::new());
    assert_eq!(payload_or_empty(Some(vec![1, 2, 3])), vec![1, 2, 3]);
}

#[test]
fn replies_carry_status_and_message() {
    match response(503, "busy".to_string()) {
        Reply::Failure { status, message } => {
            assert_eq!(status, 503);
            assert_eq!(message, "busy");
        }
        _ => panic!("expected a failure"),
    }
    assert!(matches!(receive_failure_reply(),
        Reply::Failure { status: 500, ref message } if message == "Failed to receive file"));
    assert!(matches!(compile_failure_reply("x"),
        Reply::Failure { status: 500, ref message } if message == "Failed to compile document: x"));
}

#[test]
fn staging_prefixes_are_unique() {
    assert_eq!(staging_prefix_for("abc"), "photos-abc");
    let a = new_staging_prefix();
    let b = new_staging_prefix();
    assert_eq!(a.len(), 43);
    assert!(a.starts_with("photos-"));
    assert!(!a.contains('/'));
    assert_ne!(a, b);
}

#[test]
fn concurrent_requests_keep_their_own_inputs() {
    let mut a = staging_request();
    let mut b = staging_request();
    a.step(Event::Field(field("jan", None, Some(b"from a"))));
    match b.step(Event::Field(field("jan", None, Some(b"from b")))) {
        Action::WriteFile { content, .. } => assert_eq!(content, b"from b".to_vec()),
        _ => panic!("expected a write"),
    }
    a.step(Event::FieldWritten);
    expect_failure(b.step(Event::WriteFailed), 500, "Failed to receive file", true);
    assert_eq!(a.inputs().len(), 1);
    assert_eq!(b.inputs().len(), 0);
    assert_eq!(a.phase(), Phase::Staging);
}
