//! What an upload leaves behind when it is driven to its end over a stream
//! that does not fail, with a storage that does not fail.

use vstd::prelude::*;
use crate::sniff::{
    declared_outcome, determined, fallback, inferred, settled, sniffed_from, verdict, Sniffed,
};
use crate::upload::{
    advance, expects, fresh, resolved_extension, response_for, settle, started, stored_name, ActionView,
    EventView, PhaseView, UploadError, UploadView,
};

verus! {

/// What a run of an upload has done.
pub struct Trace {
    /// The names of the files created, in order.
    pub created: Seq<Seq<char>>,
    /// The bytes written, in order.
    pub written: Seq<u8>,
    /// The action that ended the run.
    pub last: ActionView,
}

/// How many kinds of step an upload in this phase may still take before it
/// has to take another chunk off the stream or end.
pub open spec fn rank(phase: PhaseView) -> nat {
    match phase {
        PhaseView::Sniffing(_) => 4,
        PhaseView::Creating(_) => 3,
        PhaseView::Writing => 2,
        PhaseView::Reading => 1,
        PhaseView::Finished | PhaseView::Failed => 0,
    }
}

/// The run of an upload from `state`, where `action` is to be done next and
/// `chunks` are still on the stream: each action is done and answered, a read
/// by the next chunk, or by the end of the stream once there is none, a
/// creation or a write by success. `created` and `written` say what was done
/// before.
pub open spec fn run(
    state: UploadView,
    action: ActionView,
    chunks: Seq<Seq<u8>>,
    created: Seq<Seq<char>>,
    written: Seq<u8>,
) -> Trace
    decreases chunks.len(), rank(state.phase),
{
    if state.phase is Finished || state.phase is Failed {
        Trace { created, written, last: action }
    } else {
        match action {
            ActionView::Read => if chunks.len() > 0 {
                let next = advance(state, EventView::Chunk(chunks[0]));
                run(next.0, next.1, chunks.drop_first(), created, written)
            } else {
                let next = advance(state, EventView::End);
                run(next.0, next.1, chunks, created, written)
            },
            ActionView::Create(name) => {
                let next = advance(state, EventView::Stored);
                run(next.0, next.1, chunks, created.push(name), written)
            },
            ActionView::Write(bytes) => {
                let next = advance(state, EventView::Stored);
                run(next.0, next.1, chunks, created, written + bytes)
            },
            _ => Trace { created, written, last: action },
        }
    }
}

/// A failure of the stream or of the storage ends the upload at once, with
/// the error that names it, and no event can follow: nothing more is read
/// or written, and what was written stays.
pub proof fn failure_ends_the_upload(state: UploadView, event: EventView)
    requires
        expects(state, event),
        event is StreamFailed || event is StorageFailed,
    ensures
        advance(state, event).0 == (UploadView { phase: PhaseView::Failed, ..state }),
        advance(state, event).1 == ActionView::Abort(
            if event is StreamFailed {
                UploadError::StreamFailure
            } else {
                UploadError::StorageFailure
            },
        ),
        forall|next: EventView| !expects(advance(state, event).0, next),
{
}

/// The answer to an upload that has come to be stored.
pub open spec fn answer(state: UploadView) -> ActionView {
    let links = response_for(state.domain, state.secret, state.hint, state.filename);
    ActionView::Respond(links.0, links.1)
}

/// Once the file is created, every chunk left on the stream is written, in
/// order, and the upload is answered.
proof fn reading_writes_the_rest(
    state: UploadView,
    chunks: Seq<Seq<u8>>,
    created: Seq<Seq<char>>,
    written: Seq<u8>,
)
    requires
        state.phase is Reading,
    ensures
        run(state, ActionView::Read, chunks, created, written) == (Trace {
            created,
            written: written + chunks.flatten(),
            last: answer(state),
        }),
    decreases chunks.len(),
{
    reveal_with_fuel(run, 3);
    if chunks.len() == 0 {
        assert(written + chunks.flatten() =~= written);
    } else {
        let writing = UploadView { phase: PhaseView::Writing, ..state };
        assert(advance(state, EventView::Chunk(chunks[0])) == (
            writing,
            ActionView::Write(chunks[0]),
        ));
        assert(advance(writing, EventView::Stored) == (state, ActionView::Read));
        reading_writes_the_rest(state, chunks.drop_first(), created, written + chunks[0]);
        assert((written + chunks[0]) + chunks.drop_first().flatten() =~= written
            + chunks.flatten());
    }
}

/// From the creation of the file on: the file is created, what was taken off
/// the stream before is written first, then every chunk left on the stream.
proof fn creating_writes_all(
    state: UploadView,
    chunks: Seq<Seq<u8>>,
    created: Seq<Seq<char>>,
    written: Seq<u8>,
)
    requires
        state.phase is Creating,
    ensures
        run(state, ActionView::Create(state.filename), chunks, created, written) == (Trace {
            created: created.push(state.filename),
            written: written + (match state.phase->Creating_0 {
                Some(prefix) => prefix,
                None => Seq::empty(),
            }) + chunks.flatten(),
            last: answer(state),
        }),
{
    reveal_with_fuel(run, 3);
    let reading = UploadView { phase: PhaseView::Reading, ..state };
    match state.phase->Creating_0 {
        Some(prefix) => {
            reading_writes_the_rest(reading, chunks, created.push(state.filename), written + prefix);
        },
        None => {
            reading_writes_the_rest(reading, chunks, created.push(state.filename), written);
            assert(written + Seq::<u8>::empty() =~= written);
        },
    }
}

/// What the upload in `state` comes to once sniffing has given `sniffed`.
pub open spec fn stored_as(state: UploadView, sniffed: Sniffed) -> UploadView {
    settle(state, Ok(sniffed)).0
}

/// While the stream is sniffed: what sniffing makes of the stream decides.
/// An error ends the run with nothing done; a result has the file created
/// and every byte of the stream written, those that sniffing buffered first.
proof fn sniffing_then_writes_all(
    state: UploadView,
    chunks: Seq<Seq<u8>>,
    created: Seq<Seq<char>>,
    written: Seq<u8>,
)
    requires
        state.phase is Sniffing,
    ensures
        run(state, ActionView::Read, chunks, created, written) == (match sniffed_from(
            state.phase->Sniffing_0,
            chunks,
        ) {
            Err(e) => Trace { created, written, last: ActionView::Abort(e) },
            Ok(sniffed) => Trace {
                created: created.push(stored_as(state, sniffed).filename),
                written: written + state.phase->Sniffing_0 + chunks.flatten(),
                last: answer(stored_as(state, sniffed)),
            },
        }),
    decreases chunks.len(),
{
    reveal_with_fuel(run, 2);
    let buffer = state.phase->Sniffing_0;
    if chunks.len() == 0 {
        match fallback(buffer) {
            Ok(sniffed) => {
                creating_writes_all(stored_as(state, sniffed), chunks, created, written);
            },
            Err(e) => {},
        }
    } else {
        let grown = buffer + chunks[0];
        let rest = chunks.drop_first();
        assert(written + grown + rest.flatten() =~= written + buffer + chunks.flatten());
        if settled(grown) {
            let outcome = verdict(grown, inferred(grown));
            assert(outcome is Ok);
            let sniffed = outcome->Ok_0;
            creating_writes_all(stored_as(state, sniffed), rest, created, written);
        } else {
            let next = UploadView { phase: PhaseView::Sniffing(grown), ..state };
            sniffing_then_writes_all(next, rest, created, written);
            match sniffed_from(grown, rest) {
                Ok(sniffed) => {
                    assert(stored_as(next, sniffed) == stored_as(state, sniffed));
                },
                Err(e) => {},
            }
        }
    }
}

/// An upload driven to its end does what finding out its type decides. Where
/// that fails, the upload is given up with that error, and no file is
/// created. Else exactly one file is created, named by the stem and the
/// extension, the declared one going before the one found; every byte of the
/// stream is written to it, in order, none lost and none doubled; and the
/// answer links to the file by the kind found, and holds its deletion key.
pub proof fn upload_stores_the_stream(
    domain: Seq<char>,
    secret: Seq<u8>,
    stem: Seq<char>,
    declared: Option<Seq<char>>,
    declared_type: Option<(Seq<char>, Seq<char>)>,
    chunks: Seq<Seq<u8>>,
)
    ensures
        ({
            let first = started(fresh(domain, secret, stem, declared), declared_type);
            let trace = run(first.0, first.1, chunks, Seq::empty(), Seq::empty());
            match determined(declared_type, chunks) {
                Err(e) => trace == (Trace {
                    created: Seq::empty(),
                    written: Seq::empty(),
                    last: ActionView::Abort(e),
                }),
                Ok(sniffed) => {
                    let filename = stored_name(stem, resolved_extension(declared, sniffed.extension));
                    let links = response_for(domain, secret, sniffed.hint, filename);
                    trace == (Trace {
                        created: seq![filename],
                        written: chunks.flatten(),
                        last: ActionView::Respond(links.0, links.1),
                    })
                },
            }
        }),
{
    let state = fresh(domain, secret, stem, declared);
    let empty_names = Seq::<Seq<char>>::empty();
    let empty = Seq::<u8>::empty();
    match declared_outcome(declared_type) {
        Some(sniffed) => {
            creating_writes_all(stored_as(state, sniffed), chunks, empty_names, empty);
            assert(empty + empty + chunks.flatten() =~= chunks.flatten());
        },
        None => {
            sniffing_then_writes_all(state, chunks, empty_names, empty);
            assert(empty + empty + chunks.flatten() =~= chunks.flatten());
        },
    }
}

} // verus!
