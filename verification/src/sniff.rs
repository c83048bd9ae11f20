//! Finding out what an upload is: from the type its sender declares, from
//! the magic numbers at its start, or, failing both, from whether it reads
//! as text.

use vstd::prelude::*;
use vstd::string::StrSliceExecFns;
use vstd::utf8::valid_utf8;
use crate::media::MediaType;
use crate::text::same_text;
use crate::upload::UploadError;

verus! {

/// The coarse kind of an upload, which picks the page its link points at.
#[derive(Debug, Clone, Copy, PartialEq, Eq, Structural)]
pub enum TypeHint {
    /// Nothing special: the link points at the file itself.
    Generic,
    /// Sound: the link points at a player.
    Audio,
    /// Text: the link points at a viewer.
    Text,
}

/// Most extensions that a declared type may stand for before it counts as
/// ambiguous.
pub const MAX_CANDIDATES: usize = 10;

/// The kind that the top-level part of a declared type gives.
pub open spec fn hint_of_top(top: Seq<char>) -> TypeHint {
    if top == "audio"@ {
        TypeHint::Audio
    } else if top == "text"@ {
        TypeHint::Text
    } else {
        TypeHint::Generic
    }
}

/// The kind that a full media type, such as `audio/mpeg`, gives.
pub open spec fn hint_of_mime_type(mime_type: Seq<char>) -> TypeHint {
    if "audio"@.is_prefix_of(mime_type) {
        TypeHint::Audio
    } else if "text"@.is_prefix_of(mime_type) {
        TypeHint::Text
    } else {
        TypeHint::Generic
    }
}

/// The kind that the top-level part of a declared type gives.
pub fn type_hint_from_mime(top: &str) -> (hint: TypeHint)
    ensures
        hint == hint_of_top(top@),
{
    if same_text(top, "audio") {
        TypeHint::Audio
    } else if same_text(top, "text") {
        TypeHint::Text
    } else {
        TypeHint::Generic
    }
}

/// Whether `text` begins with `prefix`.
pub fn starts_with(text: &str, prefix: &str) -> (found: bool)
    ensures
        found == prefix@.is_prefix_of(text@),
{
    let n = prefix.unicode_len();
    if text.unicode_len() < n {
        return false;
    }
    let mut i: usize = 0;
    while i < n
        invariant
            i <= n,
            n == prefix@.len(),
            n <= text@.len(),
            forall|j: int| 0 <= j < i ==> text@[j] == prefix@[j],
        decreases n - i,
    {
        if text.get_char(i) != prefix.get_char(i) {
            return false;
        }
        i += 1;
    }
    assert(prefix@ =~= text@.subrange(0, n as int));
    true
}

/// The kind that a full media type gives.
pub fn type_hint_from_infer(mime_type: &str) -> (hint: TypeHint)
    ensures
        hint == hint_of_mime_type(mime_type@),
{
    if starts_with(mime_type, "audio") {
        TypeHint::Audio
    } else if starts_with(mime_type, "text") {
        TypeHint::Text
    } else {
        TypeHint::Generic
    }
}

/// The extensions that are on record for the media type `top/sub`, if it is
/// a known one.
pub uninterp spec fn known_extensions(top: Seq<char>, sub: Seq<char>) -> Option<Seq<Seq<char>>>;

/// The texts of a list of extensions.
pub open spec fn texts(list: Seq<&'static str>) -> Seq<Seq<char>> {
    list.map_values(|e: &'static str| e@)
}

/// `mime_guess::get_extensions` looks a media type up in the crate's table
/// and gives the extensions recorded for it, or nothing for a type that the
/// table does not hold.
pub assume_specification[ mime_guess::get_extensions ](toplevel: &str, sublevel: &str) -> (found:
    Option<&'static [&'static str]>)
    ensures
        found.is_some() == known_extensions(toplevel@, sublevel@).is_some(),
        found.is_some() ==> known_extensions(toplevel@, sublevel@) == Some(texts(found.unwrap()@)),
;

/// What a declared type `top/sub` settles, given the extensions on record
/// for it: nothing where either part is a wildcard, where the type is
/// unknown, or where it stands for no extension or for more than
/// `MAX_CANDIDATES`; else the last extension on record, and the kind that
/// `top` gives.
pub open spec fn declared_choice(
    top: Seq<char>,
    sub: Seq<char>,
    known: Option<Seq<Seq<char>>>,
) -> Option<(Seq<char>, TypeHint)> {
    if top == "*"@ || sub == "*"@ {
        None
    } else {
        match known {
            Some(list) => if 0 < list.len() <= MAX_CANDIDATES {
                Some((list.last(), hint_of_top(top)))
            } else {
                None
            },
            None => None,
        }
    }
}

/// Whether either part of a declared type is the wildcard.
pub fn is_wildcard(declared: &MediaType) -> (wild: bool)
    ensures
        wild == (declared.top@ == "*"@ || declared.sub@ == "*"@),
{
    same_text(declared.top.as_str(), "*") || same_text(declared.sub.as_str(), "*")
}

/// Settles extension and kind from a declared type and the extensions found
/// on record for it.
pub fn choose_extension(declared: &MediaType, known: Option<&'static [&'static str]>) -> (choice:
    Option<(&'static str, TypeHint)>)
    ensures
        choice.is_some() == declared_choice(
            declared.top@,
            declared.sub@,
            match known {
                Some(list) => Some(texts(list@)),
                None => None,
            },
        ).is_some(),
        choice.is_some() ==> declared_choice(
            declared.top@,
            declared.sub@,
            match known {
                Some(list) => Some(texts(list@)),
                None => None,
            },
        ) == Some((choice.unwrap().0@, choice.unwrap().1)),
{
    if is_wildcard(declared) {
        return None;
    }
    match known {
        Some(list) => {
            if list.len() == 0 || list.len() > MAX_CANDIDATES {
                None
            } else {
                let last = list[list.len() - 1];
                Some((last, type_hint_from_mime(declared.top.as_str())))
            }
        },
        None => None,
    }
}

/// Settles extension and kind from a declared type alone, where it can: the
/// type must hold no wildcard and stand for at least one and at most
/// `MAX_CANDIDATES` extensions, of which the last is taken.
pub fn extension_from_mime(declared: &MediaType) -> (choice: Option<(&'static str, TypeHint)>)
    ensures
        choice.is_some() == declared_choice(
            declared.top@,
            declared.sub@,
            known_extensions(declared.top@, declared.sub@),
        ).is_some(),
        choice.is_some() ==> declared_choice(
            declared.top@,
            declared.sub@,
            known_extensions(declared.top@, declared.sub@),
        ) == Some((choice.unwrap().0@, choice.unwrap().1)),
{
    if is_wildcard(declared) {
        return None;
    }
    let known = mime_guess::get_extensions(declared.top.as_str(), declared.sub.as_str());
    choose_extension(declared, known)
}

/// Once more than this many bytes are buffered and no magic number has shown,
/// the content is no longer searched for one.
pub const SNIFF_LIMIT: usize = 256;

/// The extension of content that reads as text and shows no magic number.
pub const TEXT_EXTENSION: &'static str = "txt";

/// The extension of content that is neither recognised nor text.
pub const BINARY_EXTENSION: &'static str = "bin";

/// The extension and the media type of the format whose magic number the
/// buffer begins with, if there is one.
pub uninterp spec fn inferred(buffer: Seq<u8>) -> Option<(Seq<char>, Seq<char>)>;

/// Asks `infer::get` for the format of `buffer`, and takes the extension and
/// the media type of what it finds by `infer::Type::extension` and
/// `infer::Type::mime_type`. Trusted: that the answer depends on the bytes
/// alone.
#[verifier::external_body]
fn infer_type(buffer: &[u8]) -> (found: Option<(&'static str, &'static str)>)
    ensures
        found.is_some() == inferred(buffer@).is_some(),
        found.is_some() ==> inferred(buffer@) == Some((found.unwrap().0@, found.unwrap().1@)),
{
    match infer::get(buffer) {
        Some(kind) => Some((kind.extension(), kind.mime_type())),
        None => None,
    }
}

/// `std::str::from_utf8` succeeds exactly on valid UTF-8.
#[verifier::external_body]
fn is_utf8(bytes: &[u8]) -> (valid: bool)
    ensures
        valid == valid_utf8(bytes@),
{
    std::str::from_utf8(bytes).is_ok()
}

/// What sniffing found out.
#[derive(Debug, Clone)]
pub struct SniffResult {
    /// The extension to store the upload under, unless its sender names one.
    pub extension: &'static str,
    /// The kind of the upload.
    pub hint: TypeHint,
    /// The bytes that were taken off the stream to find out. They come before
    /// the rest of the stream in the stored file.
    pub consumed: Option<Vec<u8>>,
}

/// A `SniffResult` as plain values.
pub struct Sniffed {
    pub extension: Seq<char>,
    pub hint: TypeHint,
    pub consumed: Option<Seq<u8>>,
}

impl View for SniffResult {
    type V = Sniffed;

    open spec fn view(&self) -> Sniffed {
        Sniffed {
            extension: self.extension@,
            hint: self.hint,
            consumed: match self.consumed {
                Some(bytes) => Some(bytes@),
                None => None,
            },
        }
    }
}

/// The outcome of sniffing as plain values.
pub open spec fn outcome_view(outcome: Result<SniffResult, UploadError>) -> Result<
    Sniffed,
    UploadError,
> {
    match outcome {
        Ok(result) => Ok(result@),
        Err(e) => Err(e),
    }
}

/// What is made of a buffer in which no magic number was found: nothing of
/// an empty one; text if it is valid UTF-8 as a whole; else binary data.
pub open spec fn fallback(buffer: Seq<u8>) -> Result<Sniffed, UploadError> {
    if buffer.len() == 0 {
        Err(UploadError::InputExhausted)
    } else if valid_utf8(buffer) {
        Ok(Sniffed { extension: TEXT_EXTENSION@, hint: TypeHint::Text, consumed: Some(buffer) })
    } else {
        Ok(Sniffed { extension: BINARY_EXTENSION@, hint: TypeHint::Generic, consumed: Some(buffer) })
    }
}

/// What is made of a buffer, given what was found at its start: the format
/// found, if any, with the kind that its media type gives; else the
/// fallback.
pub open spec fn verdict(buffer: Seq<u8>, found: Option<(Seq<char>, Seq<char>)>) -> Result<
    Sniffed,
    UploadError,
> {
    match found {
        Some((extension, mime_type)) => Ok(
            Sniffed { extension, hint: hint_of_mime_type(mime_type), consumed: Some(buffer) },
        ),
        None => fallback(buffer),
    }
}

/// Whether sniffing stops at this buffer: a magic number was found, or the
/// buffer has outgrown the limit.
pub open spec fn settled(buffer: Seq<u8>) -> bool {
    inferred(buffer).is_some() || buffer.len() > SNIFF_LIMIT
}

/// Tells text from binary data, for a buffer in which no magic number was
/// found.
pub fn text_or_binary(buffer: Vec<u8>) -> (result: SniffResult)
    ensures
        result@ == (if valid_utf8(buffer@) {
            Sniffed { extension: TEXT_EXTENSION@, hint: TypeHint::Text, consumed: Some(buffer@) }
        } else {
            Sniffed {
                extension: BINARY_EXTENSION@,
                hint: TypeHint::Generic,
                consumed: Some(buffer@),
            }
        }),
{
    if is_utf8(buffer.as_slice()) {
        SniffResult { extension: TEXT_EXTENSION, hint: TypeHint::Text, consumed: Some(buffer) }
    } else {
        SniffResult { extension: BINARY_EXTENSION, hint: TypeHint::Generic, consumed: Some(buffer) }
    }
}

/// Decides on a buffer in which no magic number was found.
pub fn classify_unknown(buffer: Vec<u8>) -> (outcome: Result<SniffResult, UploadError>)
    ensures
        outcome_view(outcome) == fallback(buffer@),
{
    if buffer.len() == 0 {
        Err(UploadError::InputExhausted)
    } else {
        Ok(text_or_binary(buffer))
    }
}

/// The bytes taken off a stream so far, while nothing is settled.
pub struct Sniffer {
    buffer: Vec<u8>,
}

/// Where sniffing stands after a chunk.
pub enum Step {
    /// Nothing is settled: the next chunk is needed.
    More(Sniffer),
    /// Sniffing is over.
    Done(SniffResult),
}

impl View for Sniffer {
    type V = Seq<u8>;

    closed spec fn view(&self) -> Seq<u8> {
        self.buffer@
    }
}

impl Sniffer {
    /// A sniffer that has seen nothing yet.
    pub fn new() -> (sniffer: Sniffer)
        ensures
            sniffer@ == Seq::<u8>::empty(),
    {
        Sniffer { buffer: Vec::new() }
    }

    /// Takes the next chunk of the stream: it is appended to the buffer, and
    /// the buffer is searched for a magic number. Sniffing ends where one is
    /// found, or where the buffer has outgrown `SNIFF_LIMIT`; else the buffer
    /// is kept for the next chunk.
    pub fn feed(self, chunk: &[u8]) -> (step: Step)
        ensures
            match step {
                Step::More(next) => !settled(self@ + chunk@) && next@ == self@ + chunk@,
                Step::Done(result) => settled(self@ + chunk@) && Ok::<Sniffed, UploadError>(
                    result@,
                ) == verdict(self@ + chunk@, inferred(self@ + chunk@)),
            },
    {
        let mut buffer = self.buffer;
        buffer.extend_from_slice(chunk);
        assert(buffer@ == self@ + chunk@);
        match infer_type(buffer.as_slice()) {
            Some((extension, mime_type)) => Step::Done(
                SniffResult {
                    extension,
                    hint: type_hint_from_infer(mime_type),
                    consumed: Some(buffer),
                },
            ),
            None => if buffer.len() > SNIFF_LIMIT {
                Step::Done(text_or_binary(buffer))
            } else {
                Step::More(Sniffer { buffer })
            },
        }
    }

    /// Ends sniffing where the stream has ended first: the fallback decides
    /// on what was buffered.
    pub fn finish(self) -> (outcome: Result<SniffResult, UploadError>)
        ensures
            outcome_view(outcome) == fallback(self@),
    {
        classify_unknown(self.buffer)
    }
}

/// The bytes of each chunk of a stream.
pub open spec fn chunk_bytes(chunks: Seq<Vec<u8>>) -> Seq<Seq<u8>> {
    chunks.map_values(|chunk: Vec<u8>| chunk@)
}

/// A declared type as plain values.
pub open spec fn declared_view(content_type: Option<&MediaType>) -> Option<(Seq<char>, Seq<char>)> {
    match content_type {
        Some(declared) => Some((declared.top@, declared.sub@)),
        None => None,
    }
}

/// How many chunks sniffing takes off a stream whose chunks are `chunks`,
/// with `buffer` taken off it before: chunk after chunk, up to and with the
/// first at which the buffer is settled, or all of them.
pub open spec fn taken_from(buffer: Seq<u8>, chunks: Seq<Seq<u8>>) -> nat
    decreases chunks.len(),
{
    if chunks.len() == 0 {
        0
    } else if settled(buffer + chunks[0]) {
        1
    } else {
        1 + taken_from(buffer + chunks[0], chunks.drop_first())
    }
}

/// What sniffing makes of a stream whose chunks are `chunks`, with `buffer`
/// taken off it before.
pub open spec fn sniffed_from(buffer: Seq<u8>, chunks: Seq<Seq<u8>>) -> Result<Sniffed, UploadError>
    decreases chunks.len(),
{
    if chunks.len() == 0 {
        fallback(buffer)
    } else if settled(buffer + chunks[0]) {
        verdict(buffer + chunks[0], inferred(buffer + chunks[0]))
    } else {
        sniffed_from(buffer + chunks[0], chunks.drop_first())
    }
}

/// What a declared type settles by itself, if anything.
pub open spec fn declared_outcome(declared: Option<(Seq<char>, Seq<char>)>) -> Option<Sniffed> {
    match declared {
        Some((top, sub)) => match declared_choice(top, sub, known_extensions(top, sub)) {
            Some((extension, hint)) => Some(Sniffed { extension, hint, consumed: None }),
            None => None,
        },
        None => None,
    }
}

/// What is found out about an upload: what its declared type settles, with no
/// byte taken off the stream; else what sniffing makes of the stream.
pub open spec fn determined(
    declared: Option<(Seq<char>, Seq<char>)>,
    chunks: Seq<Seq<u8>>,
) -> Result<Sniffed, UploadError> {
    match declared_outcome(declared) {
        Some(sniffed) => Ok(sniffed),
        None => sniffed_from(Seq::empty(), chunks),
    }
}

/// How many chunks are taken off the stream to find that out.
pub open spec fn chunks_taken(
    declared: Option<(Seq<char>, Seq<char>)>,
    chunks: Seq<Seq<u8>>,
) -> nat {
    match declared_outcome(declared) {
        Some(_) => 0,
        None => taken_from(Seq::empty(), chunks),
    }
}

/// What a declared type settles by itself, as a result that holds no bytes.
pub fn sniff_declared(content_type: Option<&MediaType>) -> (settled: Option<SniffResult>)
    ensures
        settled.is_some() == declared_outcome(declared_view(content_type)).is_some(),
        settled.is_some() ==> declared_outcome(declared_view(content_type)) == Some(
            settled.unwrap()@,
        ),
{
    match content_type {
        Some(declared) => match extension_from_mime(declared) {
            Some((extension, hint)) => Some(SniffResult { extension, hint, consumed: None }),
            None => None,
        },
        None => None,
    }
}

/// Finds out extension and kind of an upload whose stream gives `chunks`,
/// and says how many of them it took off the stream to do so. The bytes of
/// those chunks are in the result; the chunks after them are untouched.
pub fn determine_extension(chunks: &[Vec<u8>], content_type: Option<&MediaType>) -> (found: (
    Result<SniffResult, UploadError>,
    usize,
))
    ensures
        outcome_view(found.0) == determined(declared_view(content_type), chunk_bytes(chunks@)),
        found.1 == chunks_taken(declared_view(content_type), chunk_bytes(chunks@)),
        found.1 <= chunks@.len(),
{
    if let Some(result) = sniff_declared(content_type) {
        return (Ok(result), 0);
    }
    let ghost all = chunk_bytes(chunks@);
    let mut sniffer = Sniffer::new();
    let mut i: usize = 0;
    proof {
        assert(all.skip(0) =~= all);
    }
    while i < chunks.len()
        invariant
            i <= chunks@.len(),
            all == chunk_bytes(chunks@),
            declared_outcome(declared_view(content_type)).is_none(),
            sniffed_from(sniffer@, all.skip(i as int)) == sniffed_from(Seq::empty(), all),
            taken_from(sniffer@, all.skip(i as int)) + i == taken_from(Seq::empty(), all),
        decreases chunks@.len() - i,
    {
        proof {
            assert(all.skip(i as int)[0] == chunks@[i as int]@);
            assert(all.skip(i as int).drop_first() =~= all.skip(i as int + 1));
        }
        match sniffer.feed(chunks[i].as_slice()) {
            Step::Done(result) => {
                return (Ok(result), i + 1);
            },
            Step::More(next) => {
                sniffer = next;
            },
        }
        i += 1;
    }
    (sniffer.finish(), i)
}

/// The bytes that sniffing has looked at when it stops: what was buffered
/// before, and the chunks it took.
pub open spec fn examined(buffer: Seq<u8>, chunks: Seq<Seq<u8>>) -> Seq<u8> {
    buffer + chunks.take(taken_from(buffer, chunks) as int).flatten()
}

/// Taking one chunk more into the buffer is taking one chunk more off the
/// stream.
proof fn buffered_first_chunk(buffer: Seq<u8>, chunks: Seq<Seq<u8>>, i: int)
    requires
        0 <= i < chunks.len(),
    ensures
        (buffer + chunks[0]) + chunks.drop_first().take(i).flatten() == buffer + chunks.take(
            i + 1,
        ).flatten(),
{
    assert(chunks.take(i + 1).drop_first() =~= chunks.drop_first().take(i));
    assert(chunks.take(i + 1).first() == chunks[0]);
    assert((buffer + chunks[0]) + chunks.drop_first().take(i).flatten() =~= buffer + (chunks[0]
        + chunks.drop_first().take(i).flatten()));
}

/// Sniffing takes whole chunks, and only as many as it needs: it stops at the
/// first chunk with which the buffer is settled. Its result is the verdict on
/// exactly the bytes it has then looked at; of a stream without chunks it is
/// the fallback on what was buffered before.
pub proof fn sniffing_stops_when_settled(buffer: Seq<u8>, chunks: Seq<Seq<u8>>)
    ensures
        taken_from(buffer, chunks) <= chunks.len(),
        chunks.len() > 0 ==> taken_from(buffer, chunks) > 0,
        chunks.len() > 0 ==> sniffed_from(buffer, chunks) == verdict(
            examined(buffer, chunks),
            inferred(examined(buffer, chunks)),
        ),
        chunks.len() == 0 ==> sniffed_from(buffer, chunks) == fallback(buffer),
        forall|i: int|
            0 < i < taken_from(buffer, chunks) ==> !settled(
                buffer + #[trigger] chunks.take(i).flatten(),
            ),
        taken_from(buffer, chunks) < chunks.len() ==> settled(examined(buffer, chunks)),
    decreases chunks.len(),
{
    if chunks.len() > 0 {
        let first = buffer + chunks[0];
        let rest = chunks.drop_first();
        buffered_first_chunk(buffer, chunks, 0);
        assert(rest.take(0).flatten() =~= Seq::<u8>::empty());
        assert(first + Seq::<u8>::empty() =~= first);
        if settled(first) {
            assert(examined(buffer, chunks) == first);
        } else {
            sniffing_stops_when_settled(first, rest);
            let k = taken_from(first, rest) as int;
            if k < rest.len() {
                buffered_first_chunk(buffer, chunks, k);
            } else {
                assert(chunks.take(k + 1) =~= chunks);
                assert(rest.take(k) =~= rest);
                assert(first + rest.flatten() =~= buffer + chunks.flatten());
            }
            assert(examined(first, rest) == examined(buffer, chunks));
            assert forall|i: int| 0 < i < taken_from(buffer, chunks) implies !settled(
                buffer + #[trigger] chunks.take(i).flatten(),
            ) by {
                buffered_first_chunk(buffer, chunks, i - 1);
                if i > 1 {
                    assert(!settled(first + rest.take(i - 1).flatten()));
                }
            }
        }
    }
}

/// No byte is lost or doubled: the bytes that sniffing looked at, followed by
/// the chunks it left on the stream, are the stream as it was.
pub proof fn nothing_is_lost(buffer: Seq<u8>, chunks: Seq<Seq<u8>>)
    ensures
        taken_from(buffer, chunks) <= chunks.len(),
        examined(buffer, chunks) + chunks.skip(taken_from(buffer, chunks) as int).flatten()
            == buffer + chunks.flatten(),
        sniffed_from(buffer, chunks) matches Ok(sniffed) ==> sniffed.consumed == Some(
            examined(buffer, chunks),
        ),
{
    sniffing_stops_when_settled(buffer, chunks);
    let k = taken_from(buffer, chunks) as int;
    vstd::seq_lib::lemma_flatten_concat(chunks.take(k), chunks.skip(k));
    assert(chunks.take(k) + chunks.skip(k) =~= chunks);
    assert(examined(buffer, chunks) + chunks.skip(k).flatten() =~= buffer + chunks.flatten());
    if chunks.len() == 0 {
        assert(chunks.take(0).flatten() =~= Seq::<u8>::empty());
        assert(buffer + Seq::<u8>::empty() =~= buffer);
    }
}

/// Where the first `j` chunks of a stream begin with a known magic number,
/// and no fewer settle anything, sniffing takes exactly those chunks and
/// gives the extension of that format, the kind that its media type gives,
/// and the bytes of those chunks.
pub proof fn magic_number_settles(chunks: Seq<Seq<u8>>, j: int)
    requires
        0 < j <= chunks.len(),
        inferred(chunks.take(j).flatten()).is_some(),
        forall|i: int| 0 < i < j ==> !settled(#[trigger] chunks.take(i).flatten()),
    ensures
        taken_from(Seq::empty(), chunks) == j,
        sniffed_from(Seq::empty(), chunks) == Ok::<Sniffed, UploadError>(
            Sniffed {
                extension: inferred(chunks.take(j).flatten()).unwrap().0,
                hint: hint_of_mime_type(inferred(chunks.take(j).flatten()).unwrap().1),
                consumed: Some(chunks.take(j).flatten()),
            },
        ),
{
    let empty = Seq::<u8>::empty();
    sniffing_stops_when_settled(empty, chunks);
    let k = taken_from(empty, chunks) as int;
    assert forall|i: int| 0 <= i <= chunks.len() implies empty + #[trigger] chunks.take(i).flatten()
        == chunks.take(i).flatten() by {
        assert(empty + chunks.take(i).flatten() =~= chunks.take(i).flatten());
    }
    if k < j {
        assert(!settled(chunks.take(k).flatten()));
    } else if k > j {
        assert(!settled(empty + chunks.take(j).flatten()));
    }
}

/// Where no magic number shows in a stream, however many of its chunks are
/// put together, the bytes that sniffing looked at decide: none at all is an
/// error; valid UTF-8 is text; anything else is binary data.
pub proof fn unrecognised_stream_falls_back(chunks: Seq<Seq<u8>>)
    requires
        forall|i: int| 0 < i <= chunks.len() ==> inferred(#[trigger] chunks.take(i).flatten()).is_none(),
    ensures
        sniffed_from(Seq::empty(), chunks) == fallback(examined(Seq::empty(), chunks)),
        examined(Seq::empty(), chunks).len() == 0 ==> sniffed_from(Seq::empty(), chunks) == Err::<
            Sniffed,
            UploadError,
        >(UploadError::InputExhausted),
        examined(Seq::empty(), chunks).len() > 0 && valid_utf8(examined(Seq::empty(), chunks))
            ==> (sniffed_from(Seq::empty(), chunks) matches Ok(sniffed) && sniffed.hint
            == TypeHint::Text && sniffed.extension == TEXT_EXTENSION@),
        examined(Seq::empty(), chunks).len() > 0 && !valid_utf8(examined(Seq::empty(), chunks))
            ==> (sniffed_from(Seq::empty(), chunks) matches Ok(sniffed) && sniffed.hint
            == TypeHint::Generic && sniffed.extension == BINARY_EXTENSION@),
{
    let empty = Seq::<u8>::empty();
    sniffing_stops_when_settled(empty, chunks);
    let k = taken_from(empty, chunks) as int;
    assert(empty + chunks.take(k).flatten() =~= chunks.take(k).flatten());
    if chunks.len() == 0 {
        assert(chunks.take(0).flatten() =~= empty);
    }
}

} // verus!
