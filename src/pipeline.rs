//! The per-request state machine: staging, compiling, exporting, replying.
//!
//! A [`Request`] takes the outcome of each piece of outside work as an
//! [`Event`] and answers with the next [`Action`] to perform. The staging
//! directory is created before the first event and released by the one
//! `Finish` action that ends a request which created it.

use vstd::prelude::*;
use typst::foundations::Dict;
use crate::field::{UploadField, is_accepted, label_of, sanitize, sanitized};
use crate::input_map::{dict_labels, empty_dict, insert_label};
use crate::reply::{
    Reply, ReplyView, compile_failure, compile_failure_reply, receive_failure,
    receive_failure_reply,
};

verus! {

/// Where a request stands.
#[derive(Clone, Copy, PartialEq, Eq, Structural, Debug)]
pub enum Phase {
    /// The staging directory has not been created yet.
    Init,
    /// Fields are being drained into the staging directory.
    Staging,
    /// The template is being compiled.
    Compiling,
    /// The compiled document is being exported.
    Exporting,
    /// The document has been sent.
    Done,
    /// A failure has been sent.
    Failed,
}

/// What became of the request's staging directory.
pub enum Directory {
    Absent,
    Held,
    Released,
}

/// The outcome of the outside work that the last action asked for.
pub enum Event {
    /// The staging directory was created.
    DirectoryCreated,
    /// The staging directory could not be created.
    DirectoryFailed,
    /// The next multipart field arrived.
    Field(UploadField),
    /// The field's bytes were written to the staging directory.
    FieldWritten,
    /// Writing the field's bytes failed.
    WriteFailed,
    /// The multipart body holds no more fields.
    FieldsExhausted,
    /// The template compiled.
    Compiled,
    /// The template did not compile; the engine's diagnostic.
    CompileFailed(String),
    /// The compiled document was exported to these bytes.
    Exported(Vec<u8>),
}

/// The next piece of work for the caller.
pub enum Action {
    /// Read the next multipart field.
    NextField,
    /// Write `content` to the file `name` inside the staging directory.
    WriteFile { name: String, content: Vec<u8> },
    /// Compile the template with the request's inputs.
    Compile,
    /// Export the compiled document.
    Export,
    /// Send `reply`, after removing the staging directory where `release` holds.
    Finish { reply: Reply, release: bool },
    /// The request has already replied; nothing changes.
    Ignore,
}

/// An action as values.
pub enum Effect {
    NextField,
    WriteFile { name: Seq<char>, content: Seq<u8> },
    Compile,
    Export,
    Finish { reply: ReplyView, release: bool },
    Ignore,
}

impl View for Action {
    type V = Effect;

    open spec fn view(&self) -> Effect {
        match self {
            Action::NextField => Effect::NextField,
            Action::WriteFile { name, content } => Effect::WriteFile {
                name: name@,
                content: content@,
            },
            Action::Compile => Effect::Compile,
            Action::Export => Effect::Export,
            Action::Finish { reply, release } => Effect::Finish {
                reply: reply@,
                release: *release,
            },
            Action::Ignore => Effect::Ignore,
        }
    }
}

/// A request as values.
pub struct RequestView {
    pub phase: Phase,
    pub directory: Directory,
    /// The template inputs: each staged label mapped to itself.
    pub labels: Map<Seq<char>, Seq<char>>,
    /// The files written to the staging directory, by name.
    pub files: Map<Seq<char>, Seq<u8>>,
    /// The write that has been asked for and not yet answered.
    pub pending: Option<(Seq<char>, Seq<u8>)>,
}

/// A fresh request.
pub open spec fn start() -> RequestView {
    RequestView {
        phase: Phase::Init,
        directory: Directory::Absent,
        labels: Map::empty(),
        files: Map::empty(),
        pending: None,
    }
}

/// The request after a failure during staging or compiling: the directory is released.
pub open spec fn failed(m: RequestView) -> RequestView {
    RequestView { phase: Phase::Failed, directory: Directory::Released, pending: None, ..m }
}

/// How a request answers an event it did not ask for: it ends with the
/// staging failure, removing the directory where it holds one.
pub open spec fn refused(m: RequestView) -> (RequestView, Effect) {
    if m.phase == Phase::Init {
        (
            RequestView { phase: Phase::Failed, ..m },
            Effect::Finish { reply: receive_failure(), release: false },
        )
    } else {
        (failed(m), Effect::Finish { reply: receive_failure(), release: true })
    }
}

/// How a request answers one event: its next state and the action asked for.
pub open spec fn transition(m: RequestView, e: Event) -> (RequestView, Effect) {
    match m.phase {
        Phase::Init => match e {
            Event::DirectoryCreated => (
                RequestView { phase: Phase::Staging, directory: Directory::Held, ..m },
                Effect::NextField,
            ),
            Event::DirectoryFailed => (
                RequestView { phase: Phase::Failed, ..m },
                Effect::Finish { reply: receive_failure(), release: false },
            ),
            _ => refused(m),
        },
        Phase::Staging => match m.pending {
            Some((name, content)) => match e {
                Event::FieldWritten => (
                    RequestView {
                        labels: m.labels.insert(name, name),
                        files: m.files.insert(name, content),
                        pending: None,
                        ..m
                    },
                    Effect::NextField,
                ),
                Event::WriteFailed => (
                    failed(m),
                    Effect::Finish { reply: receive_failure(), release: true },
                ),
                _ => refused(m),
            },
            None => match e {
                Event::Field(f) => if !is_accepted(f) {
                    (m, Effect::NextField)
                } else {
                    let name = sanitized(label_of(f.name));
                    (
                        RequestView { pending: Some((name, f.content->0@)), ..m },
                        Effect::WriteFile { name, content: f.content->0@ },
                    )
                },
                Event::FieldsExhausted => (
                    RequestView { phase: Phase::Compiling, ..m },
                    Effect::Compile,
                ),
                _ => refused(m),
            },
        },
        Phase::Compiling => match e {
            Event::Compiled => (RequestView { phase: Phase::Exporting, ..m }, Effect::Export),
            Event::CompileFailed(d) => (
                failed(m),
                Effect::Finish { reply: compile_failure(d@), release: true },
            ),
            _ => refused(m),
        },
        Phase::Exporting => match e {
            Event::Exported(b) => (
                RequestView { phase: Phase::Done, directory: Directory::Released, ..m },
                Effect::Finish { reply: ReplyView::Document(b@), release: true },
            ),
            _ => refused(m),
        },
        Phase::Done | Phase::Failed => (m, Effect::Ignore),
    }
}

/// One request in flight.
pub struct Request {
    phase: Phase,
    inputs: Dict,
    pending: Option<(String, Ghost<Seq<u8>>)>,
    directory: Ghost<Directory>,
    files: Ghost<Map<Seq<char>, Seq<u8>>>,
}

impl View for Request {
    type V = RequestView;

    closed spec fn view(&self) -> RequestView {
        RequestView {
            phase: self.phase,
            directory: self.directory@,
            labels: dict_labels(self.inputs),
            files: self.files@,
            pending: match self.pending {
                Some((name, content)) => Some((name@, content@)),
                None => None,
            },
        }
    }
}

impl Request {
    /// A request that has not created its staging directory yet.
    pub fn new() -> (r: Request)
        ensures
            r@ == start(),
    {
        let r = Request {
            phase: Phase::Init,
            inputs: empty_dict(),
            pending: None,
            directory: Ghost(Directory::Absent),
            files: Ghost(Map::empty()),
        };
        assert(r@.labels =~= Map::<Seq<char>, Seq<char>>::empty());
        r
    }

    /// Where the request stands.
    pub fn phase(&self) -> (r: Phase)
        ensures
            r == self@.phase,
    {
        self.phase
    }

    /// The template inputs gathered so far.
    pub fn inputs(&self) -> (r: &Dict)
        ensures
            dict_labels(*r) == self@.labels,
    {
        &self.inputs
    }

    fn fail(&mut self)
        ensures
            final(self)@ == failed(old(self)@),
    {
        self.phase = Phase::Failed;
        self.pending = None;
        self.directory = Ghost(Directory::Released);
    }

    fn refuse(&mut self) -> (act: Action)
        requires
            old(self).phase != Phase::Done,
            old(self).phase != Phase::Failed,
        ensures
            (final(self)@, act@) == refused(old(self)@),
    {
        if self.phase == Phase::Init {
            self.phase = Phase::Failed;
            Action::Finish { reply: receive_failure_reply(), release: false }
        } else {
            self.fail();
            Action::Finish { reply: receive_failure_reply(), release: true }
        }
    }

    /// Takes the outcome of the last piece of outside work and returns the next one.
    pub fn step(&mut self, event: Event) -> (act: Action)
        ensures
            (final(self)@, act@) == transition(old(self)@, event),
    {
        match self.phase {
            Phase::Init => match event {
                Event::DirectoryCreated => {
                    self.phase = Phase::Staging;
                    self.directory = Ghost(Directory::Held);
                    Action::NextField
                },
                Event::DirectoryFailed => {
                    self.phase = Phase::Failed;
                    Action::Finish { reply: receive_failure_reply(), release: false }
                },
                _ => self.refuse(),
            },
            Phase::Staging => {
                if self.pending.is_some() {
                    match event {
                        Event::FieldWritten => {
                            let (name, content) = self.pending.take().unwrap();
                            insert_label(&mut self.inputs, &name);
                            self.files = Ghost(self.files@.insert(name@, content@));
                            Action::NextField
                        },
                        Event::WriteFailed => {
                            self.fail();
                            Action::Finish { reply: receive_failure_reply(), release: true }
                        },
                        _ => self.refuse(),
                    }
                } else {
                    match event {
                        Event::Field(f) => {
                            if !f.accepted() {
                                Action::NextField
                            } else {
                                let name = sanitize(f.label().as_str());
                                let content = f.content.unwrap();
                                self.pending = Some((name.clone(), Ghost(content@)));
                                Action::WriteFile { name, content }
                            }
                        },
                        Event::FieldsExhausted => {
                            self.phase = Phase::Compiling;
                            Action::Compile
                        },
                        _ => self.refuse(),
                    }
                }
            },
            Phase::Compiling => match event {
                Event::Compiled => {
                    self.phase = Phase::Exporting;
                    Action::Export
                },
                Event::CompileFailed(d) => {
                    self.fail();
                    Action::Finish { reply: compile_failure_reply(d.as_str()), release: true }
                },
                _ => self.refuse(),
            },
            Phase::Exporting => match event {
                Event::Exported(b) => {
                    self.phase = Phase::Done;
                    self.directory = Ghost(Directory::Released);
                    Action::Finish { reply: Reply::Document(b), release: true }
                },
                _ => self.refuse(),
            },
            _ => Action::Ignore,
        }
    }
}

} // verus!
