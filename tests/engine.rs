use photo_calendar::export::export_document;
use photo_calendar::field::UploadField;
use photo_calendar::pipeline::{Action, Event, Request};
use typst::text::Font;
use typst_as_lib::TypstTemplate;

const PIXEL_PNG: [u8; 69] = [
    137, 80, 78, 71, 13, 10, 26, 10, 0, 0, 0, 13, 73, 72, 68, 82, 0, 0, 0, 1, 0, 0, 0, 1, 8, 2, 0,
    0, 0, 144, 119, 83, 222, 0, 0, 0, 12, 73, 68, 65, 84, 120, 156, 99, 248, 207, 192, 0, 0, 3, 1,
    1, 0, 201, 254, 146, 239, 0, 0, 0, 0, 73, 69, 78, 68, 174, 66, 96, 130,
];

const PHOTO_PAGES: &str = "#for (key, value) in sys.inputs { image(value, width: 1cm) }";

fn staged_request(names: &[&str]) -> Request {
    let mut r = Request::new();
    r.step(Event::DirectoryCreated);
    for name in names {
        let a = r.step(Event::Field(UploadField {
            name: Some(name.to_string()),
            file_name: Some(format!("{}.png", name)),
            content: Some(PIXEL_PNG.to_vec()),
        }));
        assert!(matches!(a, Action::WriteFile { .. }));
        r.step(Event::FieldWritten);
    }
    assert!(matches!(r.step(Event::FieldsExhausted), Action::Compile));
    r
}

#[test]
fn two_months_compile_to_a_pdf() {
    let r = staged_request(&["jan", "feb"]);
    let template = TypstTemplate::new(Vec::<Font>::new(), PHOTO_PAGES).with_static_file_resolver(
        vec![("jan", PIXEL_PNG.to_vec()), ("feb", PIXEL_PNG.to_vec())],
    );
    let doc = template.compile_with_input(r.inputs().clone()).output.expect("compiles");
    let pdf = export_document(&doc);
    assert!(!pdf.is_empty());
    assert!(pdf.starts_with(b"%PDF-"));
}

#[test]
fn unused_input_is_not_an_error() {
    let r = staged_request(&["unused"]);
    let template = TypstTemplate::new(Vec::<Font>::new(), "#rect(width: 1cm)");
    let doc = template.compile_with_input(r.inputs().clone()).output.expect("compiles");
    assert!(export_document(&doc).starts_with(b"%PDF-"));
}

#[test]
fn missing_photo_fails_to_compile() {
    let mut r = staged_request(&["jan"]);
    let template = TypstTemplate::new(Vec::<Font>::new(), PHOTO_PAGES);
    let err = template.compile_with_input(r.inputs().clone()).output.err().expect("fails");
    let a = r.step(Event::CompileFailed(format!("{:?}", err)));
    match a {
        Action::Finish { reply: photo_calendar::reply::Reply::Failure { status, message }, release } => {
            assert_eq!(status, 500);
            assert!(message.starts_with("Failed to compile document: "));
            assert!(release);
        }
        _ => panic!("expected a failure"),
    }
}

#[test]
fn bytes_that_are_no_font_are_refused() {
    assert!(photo_calendar::fonts::load_fonts(&[], &[]).is_none());
    assert!(photo_calendar::fonts::load_fonts(&PIXEL_PNG, b"not a font").is_none());
}
