//! One upload, from the first chunk to the links that answer it.

use std::path::Path;
use vstd::prelude::*;
use vstd::string::StringExecFns;
use crate::config::Config;
use crate::alphabet::is_symbol;
use crate::deletion::{is_hidden, key_for, make_key, Secret};
use crate::media::MediaType;
use crate::names::{generate_name, is_name};
use crate::sniff::{
    declared_outcome, declared_view, fallback, inferred, outcome_view, settled, sniff_declared,
    verdict, SniffResult, Sniffed, Sniffer, Step, TypeHint,
};

verus! {

/// Why an upload was given up.
#[derive(Debug, Clone, Copy, PartialEq, Eq, Structural)]
pub enum UploadError {
    /// The stream ended before it gave a single byte.
    InputExhausted,
    /// The stream failed while it was read.
    StreamFailure,
    /// The file could not be created or written.
    StorageFailure,
}

/// The links that answer an upload.
#[derive(Debug, Clone, PartialEq, Eq)]
pub struct UploadResponse {
    /// Where the upload can be fetched or viewed.
    pub link: String,
    /// Where it can be deleted.
    pub deletion_link: String,
}

/// `std::path::Path::extension` on `filename`, where it is valid Unicode:
/// the part of the file name after its last dot, if the name has one that is
/// not its first character. Trusted: that what is found holds no dot.
#[verifier::external_body]
fn path_extension(filename: &str) -> (found: Option<&str>)
    ensures
        found matches Some(extension) ==> !extension@.contains('.'),
{
    match Path::new(filename).extension() {
        Some(extension) => extension.to_str(),
        None => None,
    }
}

/// The extension under which an upload is stored: the one of the file name
/// that its sender declared, as it stands, where there is one and it is not
/// empty; else the one that sniffing gave.
pub open spec fn resolved_extension(declared: Option<Seq<char>>, sniffed: Seq<char>) -> Seq<char> {
    match declared {
        Some(extension) => if extension.len() > 0 {
            extension
        } else {
            sniffed
        },
        None => sniffed,
    }
}

/// The name of the stored file: stem, dot, extension.
pub open spec fn stored_name(stem: Seq<char>, extension: Seq<char>) -> Seq<char> {
    stem + seq!['.'] + extension
}

/// A stored file is never a hidden one: its name begins with the symbols of
/// its stem, whatever extension follows the dot.
pub proof fn stored_name_is_never_hidden(stem: Seq<char>, extension: Seq<char>)
    requires
        is_name(stem),
    ensures
        !is_hidden(stored_name(stem, extension)),
        stored_name(stem, extension).len() == stem.len() + 1 + extension.len(),
        stored_name(stem, extension).subrange(0, stem.len() as int) == stem,
        stored_name(stem, extension)[stem.len() as int] == '.',
{
    let name = stored_name(stem, extension);
    assert(name[0] == stem[0]);
    assert(is_symbol(stem[0]));
    assert(name.subrange(0, stem.len() as int) =~= stem);
}

/// What comes between the domain and the file's name in the link to an
/// upload of the given kind.
pub open spec fn route(hint: TypeHint) -> Seq<char> {
    match hint {
        TypeHint::Generic => "/"@,
        TypeHint::Audio => "/a/"@,
        TypeHint::Text => "/t/"@,
    }
}

/// The link to an upload.
pub open spec fn link_to(domain: Seq<char>, hint: TypeHint, filename: Seq<char>) -> Seq<char> {
    domain + route(hint) + filename
}

/// The link that deletes an upload, given its deletion key.
pub open spec fn deletion_link_to(domain: Seq<char>, filename: Seq<char>, key: Seq<char>) -> Seq<
    char,
> {
    domain + "/d/"@ + filename + "/"@ + key
}

/// The extension under which an upload is stored.
pub fn resolve_extension(declared: Option<&str>, sniffed: &str) -> (extension: String)
    ensures
        extension@ == resolved_extension(
            match declared {
                Some(text) => Some(text@),
                None => None,
            },
            sniffed@,
        ),
{
    match declared {
        Some(text) => if !text.is_empty() {
            String::from_str(text)
        } else {
            String::from_str(sniffed)
        },
        None => String::from_str(sniffed),
    }
}

/// The name of the stored file: stem, dot, extension.
pub fn name_file(stem: &str, extension: &str) -> (filename: String)
    ensures
        filename@ == stored_name(stem@, extension@),
{
    proof {
        reveal_strlit(".");
    }
    let mut filename = String::from_str(stem);
    filename.append(".");
    filename.append(extension);
    assert("."@ =~= seq!['.']);
    filename
}

/// The link to an upload of the given kind.
pub fn retrieval_link(domain: &str, hint: TypeHint, filename: &str) -> (link: String)
    ensures
        link@ == link_to(domain@, hint, filename@),
{
    let mut link = String::from_str(domain);
    match hint {
        TypeHint::Generic => link.append("/"),
        TypeHint::Audio => link.append("/a/"),
        TypeHint::Text => link.append("/t/"),
    }
    link.append(filename);
    link
}

/// The link that deletes an upload, given its deletion key.
pub fn deletion_link(domain: &str, filename: &str, key: &str) -> (link: String)
    ensures
        link@ == deletion_link_to(domain@, filename@, key@),
{
    let mut link = String::from_str(domain);
    link.append("/d/");
    link.append(filename);
    link.append("/");
    link.append(key);
    link
}

/// What answers the upload stored as `filename`.
pub open spec fn response_for(
    domain: Seq<char>,
    secret: Seq<u8>,
    hint: TypeHint,
    filename: Seq<char>,
) -> (Seq<char>, Seq<char>) {
    (link_to(domain, hint, filename), deletion_link_to(domain, filename, key_for(secret, filename)))
}

/// Builds the answer to the upload stored as `filename`: the link to it, by
/// its kind, and the link that deletes it, with its deletion key.
pub fn respond(domain: &str, secret: &Secret, hint: TypeHint, filename: &str) -> (response:
    UploadResponse)
    ensures
        (response.link@, response.deletion_link@) == response_for(
            domain@,
            secret@,
            hint,
            filename@,
        ),
{
    let key = make_key(secret, filename);
    UploadResponse {
        link: retrieval_link(domain, hint, filename),
        deletion_link: deletion_link(domain, filename, key.as_str()),
    }
}

/// What happened since the last action was asked for.
#[derive(Debug, Clone, PartialEq, Eq)]
pub enum Event {
    /// The stream gave its next chunk.
    Chunk(Vec<u8>),
    /// The stream has ended.
    End,
    /// The stream failed.
    StreamFailed,
    /// The storage did what was asked: the file is created, or the bytes are
    /// written.
    Stored,
    /// The storage failed.
    StorageFailed,
}

/// What is to be done next for an upload.
#[derive(Debug, Clone, PartialEq, Eq)]
pub enum Action {
    /// Wait for the next chunk of the stream.
    Read,
    /// Create the file of this name in the storage directory.
    Create(String),
    /// Write these bytes at the end of the file.
    Write(Vec<u8>),
    /// The upload is stored: answer with these links.
    Respond(UploadResponse),
    /// The upload is given up: answer with this error. What was written
    /// stays where it is.
    Abort(UploadError),
}

/// An event as plain values.
pub enum EventView {
    Chunk(Seq<u8>),
    End,
    StreamFailed,
    Stored,
    StorageFailed,
}

/// An action as plain values.
pub enum ActionView {
    Read,
    Create(Seq<char>),
    Write(Seq<u8>),
    Respond(Seq<char>, Seq<char>),
    Abort(UploadError),
}

impl View for Event {
    type V = EventView;

    open spec fn view(&self) -> EventView {
        match *self {
            Event::Chunk(bytes) => EventView::Chunk(bytes@),
            Event::End => EventView::End,
            Event::StreamFailed => EventView::StreamFailed,
            Event::Stored => EventView::Stored,
            Event::StorageFailed => EventView::StorageFailed,
        }
    }
}

impl View for Action {
    type V = ActionView;

    open spec fn view(&self) -> ActionView {
        match *self {
            Action::Read => ActionView::Read,
            Action::Create(name) => ActionView::Create(name@),
            Action::Write(bytes) => ActionView::Write(bytes@),
            Action::Respond(response) => ActionView::Respond(
                response.link@,
                response.deletion_link@,
            ),
            Action::Abort(e) => ActionView::Abort(e),
        }
    }
}

/// How far an upload has come, as plain values.
pub enum PhaseView {
    /// The stream is read to find out what it holds; these bytes are
    /// buffered.
    Sniffing(Seq<u8>),
    /// The file is being created; these bytes, if any, were taken off the
    /// stream before and are written first.
    Creating(Option<Seq<u8>>),
    /// Bytes are being written.
    Writing,
    /// The stream is read for more bytes to write.
    Reading,
    /// The upload is stored and answered.
    Finished,
    /// The upload was given up.
    Failed,
}

/// An upload in progress, as plain values.
pub struct UploadView {
    pub domain: Seq<char>,
    pub secret: Seq<u8>,
    pub stem: Seq<char>,
    pub declared: Option<Seq<char>>,
    pub phase: PhaseView,
    pub hint: TypeHint,
    pub filename: Seq<char>,
}

/// An upload as it begins: what it holds before anything is known of its
/// content.
pub open spec fn fresh(
    domain: Seq<char>,
    secret: Seq<u8>,
    stem: Seq<char>,
    declared: Option<Seq<char>>,
) -> UploadView {
    UploadView {
        domain,
        secret,
        stem,
        declared,
        phase: PhaseView::Sniffing(Seq::empty()),
        hint: TypeHint::Generic,
        filename: Seq::empty(),
    }
}

/// The step that follows once sniffing is over: with a result, the file is
/// named, by the declared extension where there is one, and is to be
/// created; with an error the upload is given up.
pub open spec fn settle(state: UploadView, outcome: Result<Sniffed, UploadError>) -> (
    UploadView,
    ActionView,
) {
    match outcome {
        Ok(sniffed) => {
            let filename = stored_name(
                state.stem,
                resolved_extension(state.declared, sniffed.extension),
            );
            (
                UploadView {
                    phase: PhaseView::Creating(sniffed.consumed),
                    hint: sniffed.hint,
                    filename,
                    ..state
                },
                ActionView::Create(filename),
            )
        },
        Err(e) => (UploadView { phase: PhaseView::Failed, ..state }, ActionView::Abort(e)),
    }
}

/// The first step of an upload: where the declared type settles extension and
/// kind, the file is created at once and the stream is left untouched; else
/// the stream is read.
pub open spec fn started(state: UploadView, declared_type: Option<(Seq<char>, Seq<char>)>) -> (
    UploadView,
    ActionView,
) {
    match declared_outcome(declared_type) {
        Some(sniffed) => settle(state, Ok(sniffed)),
        None => (state, ActionView::Read),
    }
}

/// Whether `event` can follow the last action of an upload in this state:
/// the stream answers while it is read, the storage while it is written to,
/// and nothing follows the end.
pub open spec fn expects(state: UploadView, event: EventView) -> bool {
    match state.phase {
        PhaseView::Sniffing(_) | PhaseView::Reading => event is Chunk || event is End
            || event is StreamFailed,
        PhaseView::Creating(_) | PhaseView::Writing => event is Stored || event is StorageFailed,
        PhaseView::Finished | PhaseView::Failed => false,
    }
}

/// The state that an upload goes to on an event, and what is to be done
/// next.
pub open spec fn advance(state: UploadView, event: EventView) -> (UploadView, ActionView) {
    match (state.phase, event) {
        (PhaseView::Sniffing(buffer), EventView::Chunk(chunk)) => if settled(buffer + chunk) {
            settle(state, verdict(buffer + chunk, inferred(buffer + chunk)))
        } else {
            (
                UploadView { phase: PhaseView::Sniffing(buffer + chunk), ..state },
                ActionView::Read,
            )
        },
        (PhaseView::Sniffing(buffer), EventView::End) => settle(state, fallback(buffer)),
        (PhaseView::Creating(Some(prefix)), EventView::Stored) => (
            UploadView { phase: PhaseView::Writing, ..state },
            ActionView::Write(prefix),
        ),
        (PhaseView::Creating(None), EventView::Stored) => (
            UploadView { phase: PhaseView::Reading, ..state },
            ActionView::Read,
        ),
        (PhaseView::Writing, EventView::Stored) => (
            UploadView { phase: PhaseView::Reading, ..state },
            ActionView::Read,
        ),
        (PhaseView::Reading, EventView::Chunk(chunk)) => (
            UploadView { phase: PhaseView::Writing, ..state },
            ActionView::Write(chunk),
        ),
        (PhaseView::Reading, EventView::End) => {
            let (link, deletion_link) = response_for(
                state.domain,
                state.secret,
                state.hint,
                state.filename,
            );
            (
                UploadView { phase: PhaseView::Finished, ..state },
                ActionView::Respond(link, deletion_link),
            )
        },
        (_, EventView::StreamFailed) => (
            UploadView { phase: PhaseView::Failed, ..state },
            ActionView::Abort(UploadError::StreamFailure),
        ),
        (_, EventView::StorageFailed) => (
            UploadView { phase: PhaseView::Failed, ..state },
            ActionView::Abort(UploadError::StorageFailure),
        ),
        _ => (UploadView { phase: PhaseView::Failed, ..state }, ActionView::Abort(
            UploadError::StreamFailure,
        )),
    }
}

/// How far an upload has come.
enum Phase {
    Sniffing(Sniffer),
    Creating(Option<Vec<u8>>),
    Writing,
    Reading,
    Finished,
    Failed,
}

/// An upload in progress. It is told what happened, event by event, and
/// says each time what is to be done next; reading the stream and writing
/// the file are left to whoever drives it.
pub struct Upload<'a> {
    domain: &'a str,
    secret: &'a Secret,
    stem: String,
    declared: Option<String>,
    phase: Phase,
    hint: TypeHint,
    filename: String,
}

/// A text that may be missing, as plain values.
pub open spec fn text_view(text: Option<String>) -> Option<Seq<char>> {
    match text {
        Some(t) => Some(t@),
        None => None,
    }
}

impl<'a> View for Upload<'a> {
    type V = UploadView;

    closed spec fn view(&self) -> UploadView {
        UploadView {
            domain: self.domain@,
            secret: self.secret@,
            stem: self.stem@,
            declared: text_view(self.declared),
            phase: match self.phase {
                Phase::Sniffing(sniffer) => PhaseView::Sniffing(sniffer@),
                Phase::Creating(Some(prefix)) => PhaseView::Creating(Some(prefix@)),
                Phase::Creating(None) => PhaseView::Creating(None),
                Phase::Writing => PhaseView::Writing,
                Phase::Reading => PhaseView::Reading,
                Phase::Finished => PhaseView::Finished,
                Phase::Failed => PhaseView::Failed,
            },
            hint: self.hint,
            filename: self.filename@,
        }
    }
}

impl<'a> Upload<'a> {
    /// Goes on once sniffing is over.
    fn settle_with(self, outcome: Result<SniffResult, UploadError>) -> (next: (Upload<'a>, Action))
        ensures
            (next.0@, next.1@) == settle(self@, outcome_view(outcome)),
    {
        match outcome {
            Ok(result) => {
                let extension = match &self.declared {
                    Some(text) => resolve_extension(Some(text.as_str()), result.extension),
                    None => resolve_extension(None, result.extension),
                };
                let filename = name_file(self.stem.as_str(), extension.as_str());
                let action = Action::Create(filename.clone());
                (
                    Upload {
                        domain: self.domain,
                        secret: self.secret,
                        stem: self.stem,
                        declared: self.declared,
                        phase: Phase::Creating(result.consumed),
                        hint: result.hint,
                        filename,
                    },
                    action,
                )
            },
            Err(e) => (
                Upload {
                    domain: self.domain,
                    secret: self.secret,
                    stem: self.stem,
                    declared: self.declared,
                    phase: Phase::Failed,
                    hint: self.hint,
                    filename: self.filename,
                },
                Action::Abort(e),
            ),
        }
    }

    /// Starts an upload that is to be stored under the stem `stem`, with the
    /// extension `declared` where its sender declared one, and whose links
    /// begin with `domain`.
    pub fn start(
        domain: &'a str,
        secret: &'a Secret,
        stem: String,
        declared: Option<String>,
        content_type: Option<&MediaType>,
    ) -> (first: (Upload<'a>, Action))
        ensures
            (first.0@, first.1@) == started(
                fresh(domain@, secret@, stem@, text_view(declared)),
                declared_view(content_type),
            ),
    {
        let upload = Upload {
            domain,
            secret,
            stem,
            declared,
            phase: Phase::Sniffing(Sniffer::new()),
            hint: TypeHint::Generic,
            filename: String::new(),
        };
        match sniff_declared(content_type) {
            Some(result) => upload.settle_with(Ok(result)),
            None => (upload, Action::Read),
        }
    }

    /// Starts an upload under the server's settings: it gets a fresh random
    /// stem, and the extension of the file name that its sender declared, if
    /// that name has one.
    pub fn begin(
        config: &'a Config,
        content_type: Option<&MediaType>,
        upload_filename: Option<&str>,
    ) -> (first: (Upload<'a>, Action))
        ensures
            exists|stem: Seq<char>, declared: Option<Seq<char>>|
                {
                    &&& is_name(stem)
                    &&& upload_filename.is_none() ==> declared.is_none()
                    &&& declared matches Some(extension) ==> !extension.contains('.')
                    &&& (first.0@, first.1@) == started(
                        fresh(config.domain@, config.secret@, stem, declared),
                        declared_view(content_type),
                    )
                },
    {
        let stem = generate_name();
        let declared = match upload_filename {
            Some(filename) => match path_extension(filename) {
                Some(extension) => Some(String::from_str(extension)),
                None => None,
            },
            None => None,
        };
        let ghost stem_view = stem@;
        let ghost declared_text = text_view(declared);
        let first = Upload::start(
            config.domain.as_str(),
            &config.secret,
            stem,
            declared,
            content_type,
        );
        assert((first.0@, first.1@) == started(
            fresh(config.domain@, config.secret@, stem_view, declared_text),
            declared_view(content_type),
        ));
        first
    }

    /// Whether `event` can follow the last action.
    pub fn accepts(&self, event: &Event) -> (fits: bool)
        ensures
            fits == expects(self@, event@),
    {
        match self.phase {
            Phase::Sniffing(_) | Phase::Reading => match event {
                Event::Chunk(_) | Event::End | Event::StreamFailed => true,
                _ => false,
            },
            Phase::Creating(_) | Phase::Writing => match event {
                Event::Stored | Event::StorageFailed => true,
                _ => false,
            },
            Phase::Finished | Phase::Failed => false,
        }
    }

    /// Whether the upload has come to its end, stored or given up.
    pub fn is_over(&self) -> (over: bool)
        ensures
            over == (self@.phase is Finished || self@.phase is Failed),
    {
        match self.phase {
            Phase::Finished | Phase::Failed => true,
            _ => false,
        }
    }

    /// The kind of the upload, once sniffing is over.
    pub fn hint(&self) -> (hint: TypeHint)
        ensures
            hint == self@.hint,
    {
        self.hint
    }

    /// The name of the stored file, once sniffing is over.
    pub fn filename(&self) -> (filename: &str)
        ensures
            filename@ == self@.filename,
    {
        self.filename.as_str()
    }

    /// Takes the event that followed the last action, and says what is to be
    /// done next.
    pub fn step(self, event: Event) -> (next: (Upload<'a>, Action))
        requires
            expects(self@, event@),
        ensures
            (next.0@, next.1@) == advance(self@, event@),
    {
        let Upload { domain, secret, stem, declared, phase, hint, filename } = self;
        match event {
            Event::StreamFailed => (
                Upload { domain, secret, stem, declared, phase: Phase::Failed, hint, filename },
                Action::Abort(UploadError::StreamFailure),
            ),
            Event::StorageFailed => (
                Upload { domain, secret, stem, declared, phase: Phase::Failed, hint, filename },
                Action::Abort(UploadError::StorageFailure),
            ),
            Event::Chunk(chunk) => match phase {
                Phase::Sniffing(sniffer) => match sniffer.feed(chunk.as_slice()) {
                    Step::More(next) => (
                        Upload {
                            domain,
                            secret,
                            stem,
                            declared,
                            phase: Phase::Sniffing(next),
                            hint,
                            filename,
                        },
                        Action::Read,
                    ),
                    Step::Done(result) => {
                        let upload = Upload {
                            domain,
                            secret,
                            stem,
                            declared,
                            phase: Phase::Sniffing(Sniffer::new()),
                            hint,
                            filename,
                        };
                        upload.settle_with(Ok(result))
                    },
                },
                _ => (
                    Upload { domain, secret, stem, declared, phase: Phase::Writing, hint, filename },
                    Action::Write(chunk),
                ),
            },
            Event::End => match phase {
                Phase::Sniffing(sniffer) => {
                    let outcome = sniffer.finish();
                    let upload = Upload {
                        domain,
                        secret,
                        stem,
                        declared,
                        phase: Phase::Sniffing(Sniffer::new()),
                        hint,
                        filename,
                    };
                    upload.settle_with(outcome)
                },
                _ => {
                    let response = respond(domain, secret, hint, filename.as_str());
                    (
                        Upload {
                            domain,
                            secret,
                            stem,
                            declared,
                            phase: Phase::Finished,
                            hint,
                            filename,
                        },
                        Action::Respond(response),
                    )
                },
            },
            Event::Stored => match phase {
                Phase::Creating(Some(prefix)) => (
                    Upload { domain, secret, stem, declared, phase: Phase::Writing, hint, filename },
                    Action::Write(prefix),
                ),
                _ => (
                    Upload { domain, secret, stem, declared, phase: Phase::Reading, hint, filename },
                    Action::Read,
                ),
            },
        }
    }
}

} // verus!
