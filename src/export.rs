//! Export of a compiled document to PDF bytes.
//!
//! An encoder failure is not reported: the document is then sent as an empty
//! payload with a success status.

use vstd::prelude::*;
use typst::model::Document;

verus! {

#[verifier::external_type_specification]
#[verifier::external_body]
pub struct ExDocument(Document);

/// What the PDF encoder makes of a document with default options: its bytes,
/// or `None` where it reports diagnostics.
pub uninterp spec fn pdf_of(d: Document) -> Option<Seq<u8>>;

/// Relies on `typst_pdf::pdf` with default `PdfOptions`: the encoded bytes,
/// or `None` where the encoder reports diagnostics. With no timestamp and no
/// identifier given, the outcome depends on the document alone.
#[verifier::external_body]
fn encode_pdf(document: &Document) -> (r: Option<Vec<u8>>)
    ensures
        match r {
            Some(b) => pdf_of(*document) == Some(b@),
            None => pdf_of(*document) is None,
        },
{
    typst_pdf::pdf(document, &typst_pdf::PdfOptions::default()).ok()
}

/// The payload sent for an encoder outcome: the bytes it produced, or no
/// bytes at all where it failed.
pub fn payload_or_empty(encoded: Option<Vec<u8>>) -> (r: Vec<u8>)
    ensures
        r@ == match encoded {
            Some(b) => b@,
            None => Seq::<u8>::empty(),
        },
{
    match encoded {
        Some(b) => b,
        None => Vec::new(),
    }
}

/// Exports a compiled document to PDF bytes; empty where the encoder failed.
pub fn export_document(document: &Document) -> (r: Vec<u8>)
    ensures
        r@ == match pdf_of(*document) {
            Some(b) => b,
            None => Seq::<u8>::empty(),
        },
{
    payload_or_empty(encode_pdf(document))
}

} // verus!
