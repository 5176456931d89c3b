//! What holds of every request, proved over [`transition`].

use vstd::prelude::*;
use crate::field::{UploadField, is_accepted, is_safe_label, label_of, sanitized, sanitized_stays_inside};
use crate::pipeline::{Directory, Effect, Event, Phase, RequestView, start, transition};
use crate::reply::receive_failure;

verus! {

/// The state and the actions after a sequence of events.
pub open spec fn run(m: RequestView, events: Seq<Event>) -> (RequestView, Seq<Effect>)
    decreases events.len(),
{
    if events.len() == 0 {
        (m, Seq::empty())
    } else {
        let (next, first) = transition(m, events[0]);
        let (last, rest) = run(next, events.subrange(1, events.len() as int));
        (last, seq![first] + rest)
    }
}

/// The number of actions that send a reply.
pub open spec fn finishes(effects: Seq<Effect>) -> nat
    decreases effects.len(),
{
    if effects.len() == 0 {
        0
    } else {
        (if effects[0] is Finish { 1nat } else { 0nat }) + finishes(
            effects.subrange(1, effects.len() as int),
        )
    }
}

/// The number of actions that remove the staging directory.
pub open spec fn releases(effects: Seq<Effect>) -> nat
    decreases effects.len(),
{
    if effects.len() == 0 {
        0
    } else {
        (if effects[0] matches Effect::Finish { release: true, .. } {
            1nat
        } else {
            0nat
        }) + releases(effects.subrange(1, effects.len() as int))
    }
}

/// A request that has sent its reply.
pub open spec fn is_finished(m: RequestView) -> bool {
    m.phase == Phase::Done || m.phase == Phase::Failed
}

/// How the phase and the staging directory go together.
pub open spec fn consistent(m: RequestView) -> bool {
    &&& m.phase == Phase::Init ==> m.directory is Absent
    &&& (m.phase == Phase::Staging || m.phase == Phase::Compiling || m.phase == Phase::Exporting)
        ==> m.directory is Held
    &&& m.phase == Phase::Done ==> m.directory is Released
    &&& m.phase == Phase::Failed ==> !(m.directory is Held)
    &&& m.pending is Some ==> m.phase == Phase::Staging
}

proof fn transition_keeps_consistent(m: RequestView, e: Event)
    requires
        consistent(m),
    ensures
        consistent(transition(m, e).0),
        transition(m, e).1 is Finish <==> (!is_finished(m) && is_finished(transition(m, e).0)),
        (transition(m, e).1 matches Effect::Finish { release: true, .. }) <==> (
            !(m.directory is Released) && transition(m, e).0.directory is Released),
{
}

proof fn run_counts(m: RequestView, events: Seq<Event>)
    requires
        consistent(m),
    ensures
        consistent(run(m, events).0),
        finishes(run(m, events).1) + (if is_finished(m) { 1nat } else { 0nat }) == (if is_finished(
            run(m, events).0,
        ) {
            1nat
        } else {
            0nat
        }),
        releases(run(m, events).1) + (if m.directory is Released { 1nat } else { 0nat }) == (
        if run(m, events).0.directory is Released {
            1nat
        } else {
            0nat
        }),
    decreases events.len(),
{
    if events.len() > 0 {
        let (next, first) = transition(m, events[0]);
        transition_keeps_consistent(m, events[0]);
        let rest_events = events.subrange(1, events.len() as int);
        run_counts(next, rest_events);
        let effects = run(m, events).1;
        let rest = run(next, rest_events).1;
        assert(effects == seq![first] + rest);
        assert(effects[0] == first);
        assert(effects.subrange(1, effects.len() as int) =~= rest);
    }
}

/// Whatever events a request goes through, it replies at most once; once it
/// has replied its staging directory no longer exists; and the directory is
/// removed exactly once if it was created, and never if it was not.
pub proof fn directory_released_exactly_once(events: Seq<Event>)
    ensures
        finishes(run(start(), events).1) <= 1,
        finishes(run(start(), events).1) == 1 <==> is_finished(run(start(), events).0),
        is_finished(run(start(), events).0) ==> !(run(start(), events).0.directory is Held),
        releases(run(start(), events).1) == (if run(start(), events).0.directory is Released {
            1nat
        } else {
            0nat
        }),
{
    run_counts(start(), events);
}

/// A request that is draining fields and waits for no write.
pub open spec fn draining(m: RequestView) -> bool {
    m.phase == Phase::Staging && m.pending is None
}

/// A field with an empty file name, or with content that is empty or could
/// not be read, leaves the inputs and the staging directory as they were:
/// the request just asks for the next field.
pub proof fn skipped_field_leaves_no_trace(m: RequestView, f: UploadField)
    requires
        draining(m),
        !is_accepted(f),
    ensures
        transition(m, Event::Field(f)) == (m, Effect::NextField),
{
}

/// A staged field, once its write succeeds, adds exactly one file, named
/// after the field and holding exactly its content, and exactly one input
/// mapping that name to itself; nothing else changes. The name is the
/// field's own where that is a plain file name, and its sanitized form
/// otherwise, which never leaves the staging directory.
pub proof fn accepted_field_staged_once(m: RequestView, f: UploadField)
    requires
        draining(m),
        is_accepted(f),
    ensures
        ({
            let name = sanitized(label_of(f.name));
            let content = f.content->0@;
            let (asked, write) = transition(m, Event::Field(f));
            let (written, next) = transition(asked, Event::FieldWritten);
            &&& write == (Effect::WriteFile { name, content })
            &&& next == Effect::NextField
            &&& written.files == m.files.insert(name, content)
            &&& written.labels == m.labels.insert(name, name)
            &&& draining(written)
            &&& written.directory == m.directory
        }),
        is_safe_label(label_of(f.name)) ==> sanitized(label_of(f.name)) == label_of(f.name),
{
    sanitized_stays_inside(label_of(f.name));
}

/// Of two staged fields with the same name, the later one's content is what
/// the file holds, and the name is one input mapped to itself.
pub proof fn duplicate_name_last_write_wins(m: RequestView, f: UploadField, g: UploadField)
    requires
        draining(m),
        is_accepted(f),
        is_accepted(g),
        label_of(f.name) == label_of(g.name),
    ensures
        ({
            let name = sanitized(label_of(g.name));
            let (a, _) = transition(m, Event::Field(f));
            let (b, _) = transition(a, Event::FieldWritten);
            let (c, _) = transition(b, Event::Field(g));
            let (d, _) = transition(c, Event::FieldWritten);
            &&& d.files == m.files.insert(name, g.content->0@)
            &&& d.labels == m.labels.insert(name, name)
            &&& d.files.dom() == m.files.dom().insert(name)
        }),
{
    let name = sanitized(label_of(g.name));
    let (a, _) = transition(m, Event::Field(f));
    let (b, _) = transition(a, Event::FieldWritten);
    let (c, _) = transition(b, Event::Field(g));
    let (d, _) = transition(c, Event::FieldWritten);
    assert(d.files =~= m.files.insert(name, g.content->0@));
    assert(d.labels =~= m.labels.insert(name, name));
}

/// The events of draining `fields` in order when every write succeeds.
pub open spec fn upload_events(fields: Seq<UploadField>) -> Seq<Event>
    decreases fields.len(),
{
    if fields.len() == 0 {
        Seq::empty()
    } else {
        let f = fields.last();
        upload_events(fields.drop_last()) + if is_accepted(f) {
            seq![Event::Field(f), Event::FieldWritten]
        } else {
            seq![Event::Field(f)]
        }
    }
}

/// The content of the last staged field in `fields` whose staged name is `name`.
pub open spec fn last_upload(fields: Seq<UploadField>, name: Seq<char>) -> Option<Seq<u8>>
    decreases fields.len(),
{
    if fields.len() == 0 {
        None
    } else {
        let f = fields.last();
        if is_accepted(f) && sanitized(label_of(f.name)) == name {
            Some(f.content->0@)
        } else {
            last_upload(fields.drop_last(), name)
        }
    }
}

proof fn run_split(m: RequestView, a: Seq<Event>, b: Seq<Event>)
    ensures
        run(m, a + b).0 == run(run(m, a).0, b).0,
    decreases a.len(),
{
    if a.len() == 0 {
        assert(a + b =~= b);
    } else {
        let (next, _) = transition(m, a[0]);
        assert((a + b)[0] == a[0]);
        assert((a + b).subrange(1, (a + b).len() as int) =~= a.subrange(1, a.len() as int) + b);
        run_split(next, a.subrange(1, a.len() as int), b);
    }
}

proof fn run_one(m: RequestView, e: Event)
    ensures
        run(m, seq![e]).0 == transition(m, e).0,
{
    let next = transition(m, e).0;
    assert(seq![e][0] == e);
    assert(seq![e].subrange(1, 1) =~= Seq::<Event>::empty());
    assert(run(next, Seq::<Event>::empty()).0 == next);
}

proof fn run_two(m: RequestView, e: Event, g: Event)
    ensures
        run(m, seq![e, g]).0 == transition(transition(m, e).0, g).0,
{
    assert(seq![e, g][0] == e);
    assert(seq![e, g].subrange(1, 2) =~= seq![g]);
    run_one(transition(m, e).0, g);
}

/// Draining a sequence of fields whose writes all succeed leaves, for each
/// name, exactly one file and one input mapping the name to itself where some
/// staged field has that name, the file holding the content of the last such
/// field; every other file and input is as it was. Skipped fields leave no
/// trace, and the request is still draining.
pub proof fn drained_fields_staged(m: RequestView, fields: Seq<UploadField>)
    requires
        draining(m),
    ensures
        ({
            let e = run(m, upload_events(fields)).0;
            &&& draining(e)
            &&& e.directory == m.directory
            &&& forall|name: Seq<char>|
                #![trigger e.files.contains_key(name)]
                #![trigger e.labels.contains_key(name)]
                #![trigger last_upload(fields, name)]
                match last_upload(fields, name) {
                    Some(content) => e.files.contains_key(name) && e.files[name] == content
                        && e.labels.contains_key(name) && e.labels[name] == name,
                    None => (e.files.contains_key(name) <==> m.files.contains_key(name))
                        && (e.files.contains_key(name) ==> e.files[name] == m.files[name])
                        && (e.labels.contains_key(name) <==> m.labels.contains_key(name))
                        && (e.labels.contains_key(name) ==> e.labels[name] == m.labels[name]),
                }
        }),
    decreases fields.len(),
{
    if fields.len() > 0 {
        let before = fields.drop_last();
        let f = fields.last();
        drained_fields_staged(m, before);
        let mid = run(m, upload_events(before)).0;
        let tail = if is_accepted(f) {
            seq![Event::Field(f), Event::FieldWritten]
        } else {
            seq![Event::Field(f)]
        };
        run_split(m, upload_events(before), tail);
        if is_accepted(f) {
            run_two(mid, Event::Field(f), Event::FieldWritten);
        } else {
            run_one(mid, Event::Field(f));
        }
        let e = run(m, upload_events(fields)).0;
        assert forall|name: Seq<char>|
            #![trigger last_upload(fields, name)]
            match last_upload(fields, name) {
                Some(content) => e.files.contains_key(name) && e.files[name] == content
                    && e.labels.contains_key(name) && e.labels[name] == name,
                None => (e.files.contains_key(name) <==> m.files.contains_key(name))
                    && (e.files.contains_key(name) ==> e.files[name] == m.files[name])
                    && (e.labels.contains_key(name) <==> m.labels.contains_key(name))
                    && (e.labels.contains_key(name) ==> e.labels[name] == m.labels[name]),
            } by {
            if mid.files.contains_key(name) || mid.labels.contains_key(name) {
            }
        }
    }
}

/// A failed write ends the request with the staging failure and removes the
/// directory; nothing is compiled.
pub proof fn write_failure_ends_request(m: RequestView)
    requires
        consistent(m),
        m.phase == Phase::Staging,
        m.pending is Some,
    ensures
        transition(m, Event::WriteFailed) == (
            RequestView { phase: Phase::Failed, directory: Directory::Released, pending: None, ..m },
            Effect::Finish { reply: receive_failure(), release: true },
        ),
{
}

} // verus!
