//! What a request answers: the document, or a status with a short diagnostic.

use vstd::prelude::*;

verus! {

/// The answer to one request.
pub enum Reply {
    /// The exported PDF bytes, sent with a PDF content type and status 200.
    Document(Vec<u8>),
    /// A failure status with a plain-text diagnostic and no document.
    Failure { status: u16, message: String },
}

/// A reply as values.
pub enum ReplyView {
    Document(Seq<u8>),
    Failure { status: u16, message: Seq<char> },
}

impl View for Reply {
    type V = ReplyView;

    open spec fn view(&self) -> ReplyView {
        match self {
            Reply::Document(b) => ReplyView::Document(b@),
            Reply::Failure { status, message } => ReplyView::Failure {
                status: *status,
                message: message@,
            },
        }
    }
}

/// The diagnostic sent when the upload cannot be staged.
pub open spec fn receive_failure_text() -> Seq<char> {
    "Failed to receive file"@
}

/// The lead of the diagnostic sent when the template does not compile.
pub open spec fn compile_failure_lead() -> Seq<char> {
    "Failed to compile document: "@
}

/// The reply when the upload cannot be staged.
pub open spec fn receive_failure() -> ReplyView {
    ReplyView::Failure { status: 500, message: receive_failure_text() }
}

/// The reply when the template does not compile, carrying the engine's diagnostic.
pub open spec fn compile_failure(diagnostic: Seq<char>) -> ReplyView {
    ReplyView::Failure { status: 500, message: compile_failure_lead() + diagnostic }
}

/// The text that stands for the staging directory in a diagnostic.
pub open spec fn upload_marker() -> Seq<char> {
    "<upload>"@
}

/// `t` with each occurrence of `p`, read from the left, replaced by the
/// upload marker; an empty `p` leaves `t` as it is.
pub open spec fn redacted(t: Seq<char>, p: Seq<char>) -> Seq<char>
    decreases t.len(),
{
    if t.len() == 0 {
        Seq::empty()
    } else if 0 < p.len() <= t.len() && t.subrange(0, p.len() as int) == p {
        upload_marker() + redacted(t.subrange(p.len() as int, t.len() as int), p)
    } else {
        seq![t[0]] + redacted(t.subrange(1, t.len() as int), p)
    }
}

/// Keeps the staging directory's path out of a diagnostic.
pub fn redact_path(text: &str, path: &str) -> (r: String)
    ensures
        r@ == redacted(text@, path@),
{
    let n = text.unicode_len();
    let m = path.unicode_len();
    let wanted = path.to_owned();
    let mut out = String::new();
    let mut i: usize = 0;
    assert(text@.subrange(0, n as int) =~= text@);
    assert(out@ + redacted(text@, path@) =~= redacted(text@, path@));
    while i < n
        invariant
            n == text@.len(),
            m == path@.len(),
            wanted@ == path@,
            i <= n,
            out@ + redacted(text@.subrange(i as int, n as int), path@) == redacted(text@, path@),
        decreases n - i,
    {
        let rest = Ghost(text@.subrange(i as int, n as int));
        let found = m > 0 && m <= n - i && text.substring_char(i, i + m).to_owned() == wanted;
        if found {
            assert(rest@.subrange(0, m as int) =~= text@.subrange(i as int, (i + m) as int));
            assert(rest@.subrange(m as int, rest@.len() as int) =~= text@.subrange((i + m) as int, n as int));
            out.append("<upload>");
            i = i + m;
        } else {
            assert(m > 0 && m <= n - i ==> rest@.subrange(0, m as int) =~= text@.subrange(i as int, (i + m) as int));
            assert(rest@.subrange(1, rest@.len() as int) =~= text@.subrange((i + 1) as int, n as int));
            out.append(text.substring_char(i, i + 1));
            i = i + 1;
        }
        assert(out@ + redacted(text@.subrange(i as int, n as int), path@) =~= redacted(text@, path@));
    }
    assert(text@.subrange(n as int, n as int) =~= Seq::<char>::empty());
    out
}

/// A failure reply with the given status code, a valid HTTP status, and message.
pub fn response(code: u16, message: String) -> (r: Reply)
    requires
        100 <= code <= 999,
    ensures
        r@ == (ReplyView::Failure { status: code, message: message@ }),
{
    Reply::Failure { status: code, message }
}

/// The reply when the upload cannot be staged.
pub fn receive_failure_reply() -> (r: Reply)
    ensures
        r@ == receive_failure(),
{
    response(500, "Failed to receive file".to_owned())
}

/// The reply when the template does not compile.
pub fn compile_failure_reply(diagnostic: &str) -> (r: Reply)
    ensures
        r@ == compile_failure(diagnostic@),
{
    let mut message = "Failed to compile document: ".to_owned();
    message.append(diagnostic);
    response(500, message)
}

} // verus!
