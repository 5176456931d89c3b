//! One part of a multipart upload and the rules that decide whether it is staged.

use vstd::prelude::*;

verus! {

/// One multipart part as it arrived.
pub struct UploadField {
    /// The part's field name, if it declared one.
    pub name: Option<String>,
    /// The part's declared file name, if any.
    pub file_name: Option<String>,
    /// The part's content, or `None` where reading it failed.
    pub content: Option<Vec<u8>>,
}

/// The label of a part: its field name, or the empty text when it has none.
pub open spec fn label_of(name: Option<String>) -> Seq<char> {
    match name {
        Some(s) => s@,
        None => Seq::empty(),
    }
}

/// A part declares an empty file name: it is present but carries no file.
pub open spec fn has_empty_file_name(f: UploadField) -> bool {
    match f.file_name {
        Some(s) => s@.len() == 0,
        None => false,
    }
}

/// A part is staged when it carries a file and its content was read and is not empty.
pub open spec fn is_accepted(f: UploadField) -> bool {
    &&& !has_empty_file_name(f)
    &&& f.content is Some
    &&& f.content->0@.len() > 0
}

/// Whether `s` is `.` or `..`, which name a directory rather than a file in it.
pub open spec fn is_dot_name(s: Seq<char>) -> bool {
    (s.len() == 1 && s[0] == '.') || (s.len() == 2 && s[0] == '.' && s[1] == '.')
}

/// Whether `s` holds no path separator.
pub open spec fn has_no_separator(s: Seq<char>) -> bool {
    forall|i: int| 0 <= i < s.len() ==> s[i] != '/'
}

/// A label can name a file directly inside the staging directory: it is one
/// non-empty path component, free of `/`, that is neither `.` nor `..`.
pub open spec fn is_safe_label(s: Seq<char>) -> bool {
    &&& s.len() > 0
    &&& !is_dot_name(s)
    &&& has_no_separator(s)
}

/// The label with each `/` turned into `_`.
pub open spec fn without_separators(s: Seq<char>) -> Seq<char> {
    s.map_values(|c: char| if c == '/' { '_' } else { c })
}

/// The name under which a label is staged: its separators turned into `_`,
/// and `_` put before a result that would be `.` or `..`.
pub open spec fn sanitized(s: Seq<char>) -> Seq<char> {
    let t = without_separators(s);
    if is_dot_name(t) {
        seq!['_'] + t
    } else {
        t
    }
}

/// A staged name never leaves the staging directory: it holds no separator
/// and is not `.` or `..`; it is safe unless the label was empty; and a label
/// that is already safe is kept as it is.
pub proof fn sanitized_stays_inside(s: Seq<char>)
    ensures
        has_no_separator(sanitized(s)),
        !is_dot_name(sanitized(s)),
        sanitized(s).len() == 0 <==> s.len() == 0,
        s.len() > 0 ==> is_safe_label(sanitized(s)),
        is_safe_label(s) ==> sanitized(s) == s,
{
    let t = without_separators(s);
    assert(has_no_separator(t));
    if is_dot_name(t) {
        let u = seq!['_'] + t;
        assert(u[0] == '_');
        assert forall|i: int| 0 <= i < u.len() implies u[i] != '/' by {
            if i > 0 {
                assert(u[i] == t[i - 1]);
            }
        }
    }
    if is_safe_label(s) {
        assert(t =~= s);
    }
}

impl UploadField {
    /// The field's label, the key under which it is staged.
    pub fn label(&self) -> (r: String)
        ensures
            r@ == label_of(self.name),
    {
        match &self.name {
            Some(s) => s.clone(),
            None => String::new(),
        }
    }

    /// Whether the field is staged (see [`is_accepted`]).
    pub fn accepted(&self) -> (r: bool)
        ensures
            r == is_accepted(*self),
    {
        let attached = match &self.file_name {
            Some(s) => s.as_str().unicode_len() > 0,
            None => true,
        };
        match &self.content {
            Some(c) => attached && c.len() > 0,
            None => false,
        }
    }
}

/// Whether `s` is `.` or `..`.
fn dot_name(s: &str) -> (r: bool)
    ensures
        r == is_dot_name(s@),
{
    let n = s.unicode_len();
    (n == 1 && s.get_char(0) == '.') || (n == 2 && s.get_char(0) == '.' && s.get_char(1) == '.')
}

/// The name under which a label is staged (see [`sanitized`]).
pub fn sanitize(s: &str) -> (r: String)
    ensures
        r@ == sanitized(s@),
{
    let n = s.unicode_len();
    let mut t = String::new();
    let mut i: usize = 0;
    while i < n
        invariant
            n == s@.len(),
            i <= n,
            t@ == without_separators(s@).subrange(0, i as int),
        decreases n - i,
    {
        if s.get_char(i) == '/' {
            t.append("_");
        } else {
            t.append(s.substring_char(i, i + 1));
        }
        proof {
            reveal_strlit("_");
            assert(t@ =~= without_separators(s@).subrange(0, i + 1));
        }
        i = i + 1;
    }
    assert(t@ =~= without_separators(s@));
    if dot_name(t.as_str()) {
        let mut r = "_".to_owned();
        r.append(t.as_str());
        proof {
            reveal_strlit("_");
        }
        assert(r@ =~= seq!['_'] + t@);
        r
    } else {
        t
    }
}

} // verus!
