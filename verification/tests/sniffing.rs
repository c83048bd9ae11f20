use filedrop::media::MediaType;
use filedrop::sniff::{
    choose_extension, classify_unknown, determine_extension, extension_from_mime, is_wildcard,
    sniff_declared, starts_with, text_or_binary, type_hint_from_infer, type_hint_from_mime,
    Sniffer, Step, TypeHint, MAX_CANDIDATES, SNIFF_LIMIT,
};
use filedrop::upload::UploadError;

const PNG: [u8; 12] = [0x89, 0x50, 0x4E, 0x47, 0x0D, 0x0A, 0x1A, 0x0A, 0, 0, 0, 13];

fn media(top: &str, sub: &str) -> MediaType {
    MediaType { top: top.to_string(), sub: sub.to_string() }
}

#[test]
fn declared_type_with_few_extensions_settles() {
    assert_eq!(extension_from_mime(&media("image", "png")), Some(("pnz", TypeHint::Generic)));
    assert_eq!(extension_from_mime(&media("audio", "mpeg")), Some(("mpga", TypeHint::Audio)));
    assert_eq!(extension_from_mime(&media("text", "css")), Some(("css", TypeHint::Text)));
    assert_eq!(extension_from_mime(&media("application", "pdf")), Some(("pdf", TypeHint::Generic)));
}

#[test]
fn declared_type_with_many_extensions_is_ambiguous() {
    assert_eq!(extension_from_mime(&media("text", "plain")), None);
    assert_eq!(extension_from_mime(&media("application", "octet-stream")), None);
}

#[test]
fn declared_wildcard_counts_as_absent() {
    assert_eq!(extension_from_mime(&media("*", "*")), None);
    assert_eq!(extension_from_mime(&media("text", "*")), None);
    assert_eq!(extension_from_mime(&media("*", "png")), None);
}

#[test]
fn declared_unknown_type_settles_nothing() {
    assert_eq!(extension_from_mime(&media("nonsense", "nothing")), None);
    assert_eq!(extension_from_mime(&media("image", "no-such-format")), None);
}

#[test]
fn last_of_up_to_ten_candidates_is_taken() {
    static ELEVEN: [&str; 11] = ["a", "b", "c", "d", "e", "f", "g", "h", "i", "j", "k"];
    let declared = media("text", "x-made-up");
    assert_eq!(MAX_CANDIDATES, 10);
    assert_eq!(choose_extension(&declared, Some(&ELEVEN[..1])), Some(("a", TypeHint::Text)));
    assert_eq!(choose_extension(&declared, Some(&ELEVEN[..3])), Some(("c", TypeHint::Text)));
    assert_eq!(choose_extension(&declared, Some(&ELEVEN[..10])), Some(("j", TypeHint::Text)));
    assert_eq!(choose_extension(&declared, Some(&ELEVEN[..])), None);
    assert_eq!(choose_extension(&declared, Some(&ELEVEN[..0])), None);
    assert_eq!(choose_extension(&declared, None), None);
    assert_eq!(choose_extension(&media("text", "*"), Some(&ELEVEN[..1])), None);
    assert_eq!(choose_extension(&media("*", "x"), Some(&ELEVEN[..1])), None);
}

#[test]
fn wildcards_are_told() {
    assert!(is_wildcard(&media("*", "*")));
    assert!(is_wildcard(&media("image", "*")));
    assert!(is_wildcard(&media("*", "png")));
    assert!(!is_wildcard(&media("image", "png")));
    assert!(!is_wildcard(&media("**", "png")));
}

#[test]
fn declared_type_gives_a_result_without_bytes() {
    let result = sniff_declared(Some(&media("audio", "flac"))).unwrap();
    assert_eq!(result.extension, "flac");
    assert_eq!(result.hint, TypeHint::Audio);
    assert_eq!(result.consumed, None);
    assert!(sniff_declared(Some(&media("text", "plain"))).is_none());
    assert!(sniff_declared(None).is_none());
}

#[test]
fn unknown_content_is_text_or_binary() {
    let text = text_or_binary(b"abc".to_vec());
    assert_eq!((text.extension, text.hint), ("txt", TypeHint::Text));
    assert_eq!(text.consumed, Some(b"abc".to_vec()));
    let binary = text_or_binary(vec![0x80]);
    assert_eq!((binary.extension, binary.hint), ("bin", TypeHint::Generic));
    assert_eq!(binary.consumed, Some(vec![0x80]));
    assert_eq!(classify_unknown(Vec::new()).err(), Some(UploadError::InputExhausted));
    assert_eq!(classify_unknown(vec![0x80]).unwrap().extension, "bin");
    assert_eq!(SNIFF_LIMIT, 256);
}

#[test]
fn hint_follows_top_level_type() {
    assert_eq!(type_hint_from_mime("audio"), TypeHint::Audio);
    assert_eq!(type_hint_from_mime("text"), TypeHint::Text);
    assert_eq!(type_hint_from_mime("image"), TypeHint::Generic);
    assert_eq!(type_hint_from_mime("audiobook"), TypeHint::Generic);
    assert_eq!(type_hint_from_mime(""), TypeHint::Generic);
}

#[test]
fn hint_follows_media_type_prefix() {
    assert_eq!(type_hint_from_infer("audio/mpeg"), TypeHint::Audio);
    assert_eq!(type_hint_from_infer("text/html"), TypeHint::Text);
    assert_eq!(type_hint_from_infer("image/png"), TypeHint::Generic);
    assert_eq!(type_hint_from_infer("application/text"), TypeHint::Generic);
    assert_eq!(type_hint_from_infer("tex"), TypeHint::Generic);
}

#[test]
fn prefixes_are_told() {
    assert!(starts_with("audio/mpeg", "audio"));
    assert!(starts_with("audio", "audio"));
    assert!(starts_with("anything", ""));
    assert!(!starts_with("audi", "audio"));
    assert!(!starts_with("video/mp4", "audio"));
    assert!(starts_with("héllo", "hé"));
    assert!(!starts_with("hello", "hé"));
}

#[test]
fn declared_type_takes_nothing_off_the_stream() {
    let chunks = vec![PNG.to_vec(), b"more".to_vec()];
    let (outcome, taken) = determine_extension(&chunks, Some(&media("audio", "flac")));
    let result = outcome.unwrap();
    assert_eq!(result.extension, "flac");
    assert_eq!(result.hint, TypeHint::Audio);
    assert_eq!(result.consumed, None);
    assert_eq!(taken, 0);
}

#[test]
fn magic_number_in_first_chunk_settles_at_once() {
    let chunks = vec![PNG.to_vec(), b"rest of the picture".to_vec()];
    let (outcome, taken) = determine_extension(&chunks, None);
    let result = outcome.unwrap();
    assert_eq!(result.extension, "png");
    assert_eq!(result.hint, TypeHint::Generic);
    assert_eq!(result.consumed, Some(PNG.to_vec()));
    assert_eq!(taken, 1);
}

#[test]
fn magic_number_across_chunks_is_found() {
    let chunks = vec![PNG[..2].to_vec(), PNG[2..].to_vec(), b"tail".to_vec()];
    let (outcome, taken) = determine_extension(&chunks, None);
    let result = outcome.unwrap();
    assert_eq!(result.extension, "png");
    assert_eq!(result.consumed, Some(PNG.to_vec()));
    assert_eq!(taken, 2);
}

#[test]
fn consumed_bytes_and_rest_give_the_stream_back() {
    let chunks = vec![vec![0x89], vec![0x50, 0x4E], vec![0x47, 0x0D, 0x0A], b"abc".to_vec(), b"def".to_vec()];
    let (outcome, taken) = determine_extension(&chunks, None);
    let mut written = outcome.unwrap().consumed.unwrap();
    for chunk in &chunks[taken..] {
        written.extend_from_slice(chunk);
    }
    assert_eq!(written, chunks.concat());
    assert_eq!(taken, 3);
}

#[test]
fn sound_is_recognised() {
    let mut bytes = b"ID3".to_vec();
    bytes.extend_from_slice(&[3, 0, 0, 0, 0, 0, 0]);
    let (outcome, taken) = determine_extension(&[bytes.clone()], None);
    let result = outcome.unwrap();
    assert_eq!(result.extension, "mp3");
    assert_eq!(result.hint, TypeHint::Audio);
    assert_eq!(result.consumed, Some(bytes));
    assert_eq!(taken, 1);
}

#[test]
fn ambiguous_declared_type_falls_back_to_content() {
    let chunks = vec![PNG.to_vec()];
    let (outcome, taken) = determine_extension(&chunks, Some(&media("text", "plain")));
    let result = outcome.unwrap();
    assert_eq!(result.extension, "png");
    assert_eq!(result.hint, TypeHint::Generic);
    assert_eq!(taken, 1);
}

#[test]
fn plain_text_is_text() {
    let chunks = vec![b"hello, ".to_vec(), b"world\n".to_vec()];
    let (outcome, taken) = determine_extension(&chunks, None);
    let result = outcome.unwrap();
    assert_eq!(result.extension, "txt");
    assert_eq!(result.hint, TypeHint::Text);
    assert_eq!(result.consumed, Some(b"hello, world\n".to_vec()));
    assert_eq!(taken, 2);
}

#[test]
fn unicode_text_is_text() {
    let (outcome, _) = determine_extension(&["grüße, мир".as_bytes().to_vec()], None);
    let result = outcome.unwrap();
    assert_eq!(result.extension, "txt");
    assert_eq!(result.hint, TypeHint::Text);
}

#[test]
fn invalid_utf8_is_binary() {
    let bytes = vec![b'a', 0xC3, 0x28, b'z'];
    let (outcome, taken) = determine_extension(&[bytes.clone()], None);
    let result = outcome.unwrap();
    assert_eq!(result.extension, "bin");
    assert_eq!(result.hint, TypeHint::Generic);
    assert_eq!(result.consumed, Some(bytes));
    assert_eq!(taken, 1);
}

#[test]
fn text_cut_inside_a_character_is_binary() {
    // 257 bytes: 255 letters and the first byte of a two-byte character, twice.
    let mut first = vec![b'a'; 256];
    first.push(0xC3);
    let chunks = vec![first.clone(), vec![0xA9]];
    let (outcome, taken) = determine_extension(&chunks, None);
    let result = outcome.unwrap();
    assert_eq!(result.extension, "bin");
    assert_eq!(result.consumed, Some(first));
    assert_eq!(taken, 1);
}

#[test]
fn sniffing_stops_beyond_the_limit() {
    let chunks = vec![vec![b'a'; 200], vec![b'b'; 57], vec![b'c'; 10]];
    let (outcome, taken) = determine_extension(&chunks, None);
    let result = outcome.unwrap();
    assert_eq!(result.extension, "txt");
    assert_eq!(result.consumed.map(|bytes| bytes.len()), Some(257));
    assert_eq!(taken, 2);
}

#[test]
fn sniffing_goes_on_at_the_limit() {
    let chunks = vec![vec![b'a'; 256], vec![b'b'; 1], vec![b'c'; 10]];
    let (outcome, taken) = determine_extension(&chunks, None);
    assert_eq!(outcome.unwrap().consumed.map(|bytes| bytes.len()), Some(257));
    assert_eq!(taken, 2);
}

#[test]
fn large_first_chunk_is_enough() {
    let chunks = vec![vec![b'a'; 1000], vec![b'b'; 10]];
    let (outcome, taken) = determine_extension(&chunks, None);
    assert_eq!(outcome.unwrap().consumed.map(|bytes| bytes.len()), Some(1000));
    assert_eq!(taken, 1);
}

#[test]
fn empty_stream_is_an_error() {
    let (outcome, taken) = determine_extension(&[], None);
    assert_eq!(outcome.err(), Some(UploadError::InputExhausted));
    assert_eq!(taken, 0);
}

#[test]
fn stream_of_empty_chunks_is_an_error() {
    let (outcome, taken) = determine_extension(&[vec![], vec![]], None);
    assert_eq!(outcome.err(), Some(UploadError::InputExhausted));
    assert_eq!(taken, 2);
}

#[test]
fn sniffer_asks_for_more_until_settled() {
    let sniffer = Sniffer::new();
    let sniffer = match sniffer.feed(&PNG[..1]) {
        Step::More(next) => next,
        Step::Done(_) => panic!("one byte settles nothing"),
    };
    let sniffer = match sniffer.feed(&[]) {
        Step::More(next) => next,
        Step::Done(_) => panic!("no byte settles nothing"),
    };
    match sniffer.feed(&PNG[1..]) {
        Step::More(_) => panic!("the magic number is complete"),
        Step::Done(result) => {
            assert_eq!(result.extension, "png");
            assert_eq!(result.consumed, Some(PNG.to_vec()));
        }
    }
}

#[test]
fn sniffer_finishes_with_fallback() {
    assert_eq!(Sniffer::new().finish().err(), Some(UploadError::InputExhausted));
    let sniffer = match Sniffer::new().feed(b"abc") {
        Step::More(next) => next,
        Step::Done(_) => panic!("three letters settle nothing"),
    };
    let result = sniffer.finish().unwrap();
    assert_eq!(result.extension, "txt");
    assert_eq!(result.hint, TypeHint::Text);
    assert_eq!(result.consumed, Some(b"abc".to_vec()));
}
