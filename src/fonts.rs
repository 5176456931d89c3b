//! The two font faces that every document is typeset with.

use vstd::prelude::*;
use typst::foundations::Bytes;
use typst::text::Font;

verus! {

#[verifier::external_type_specification]
#[verifier::external_body]
pub struct ExFont(Font);

/// Whether `data` holds a font face at collection index 0 that the engine can use.
pub uninterp spec fn is_font_face(data: Seq<u8>) -> bool;

/// The bytes a font face was parsed from, as `Font::data` gives them.
pub uninterp spec fn font_data(f: Font) -> Seq<u8>;

/// Relies on `typst::text::Font::new` at index 0: a font where the bytes
/// parse as one, `None` otherwise; which of the two depends on the bytes
/// alone. The font keeps the bytes it was parsed from (`Font::data`).
#[verifier::external_body]
fn parse_font(data: &[u8]) -> (r: Option<Font>)
    ensures
        r is Some <==> is_font_face(data@),
        r matches Some(f) ==> font_data(f) == data@,
{
    Font::new(Bytes::from(data), 0)
}

/// The bold and the medium face, in that order; `None` unless both parse.
pub fn load_fonts(bold: &[u8], medium: &[u8]) -> (r: Option<Vec<Font>>)
    ensures
        r is Some <==> is_font_face(bold@) && is_font_face(medium@),
        r matches Some(v) ==> v@.len() == 2 && font_data(v@[0]) == bold@ && font_data(v@[1])
            == medium@,
{
    let b = match parse_font(bold) {
        Some(f) => f,
        None => return None,
    };
    let m = match parse_font(medium) {
        Some(f) => f,
        None => return None,
    };
    let mut fonts: Vec<Font> = Vec::new();
    fonts.push(b);
    fonts.push(m);
    Some(fonts)
}

} // verus!
