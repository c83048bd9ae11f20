use filedrop::config::Config;
use filedrop::deletion::{check_key, make_key, Secret};
use filedrop::media::MediaType;
use filedrop::sniff::TypeHint;
use filedrop::upload::{
    deletion_link, name_file, resolve_extension, respond, retrieval_link, Action, Event, Upload,
    UploadError, UploadResponse,
};

const PNG: [u8; 12] = [0x89, 0x50, 0x4E, 0x47, 0x0D, 0x0A, 0x1A, 0x0A, 0, 0, 0, 13];
const DOMAIN: &str = "https://drop.example";

fn counting_secret() -> Secret {
    let mut bytes = [0u8; 64];
    for (i, b) in bytes.iter_mut().enumerate() {
        *b = i as u8;
    }
    Secret::new(bytes)
}

fn config() -> Config {
    Config {
        bind: "127.0.0.1:8080".to_string(),
        file_dir: "files".to_string(),
        domain: DOMAIN.to_string(),
        authorization: "let me in".to_string(),
        secret: counting_secret(),
    }
}

/// What a run of an upload left behind.
struct Run {
    created: Vec<String>,
    written: Vec<u8>,
    reads: usize,
    last: Action,
}

/// Drives an upload over a stream that gives `chunks` and then ends, with a
/// storage that fails at the step numbered `storage_fails_at`, if any.
fn drive(first: (Upload<'_>, Action), chunks: &[&[u8]], storage_fails_at: Option<usize>) -> Run {
    let (mut upload, mut action) = first;
    let mut run = Run { created: Vec::new(), written: Vec::new(), reads: 0, last: Action::Read };
    let mut storage_steps = 0;
    loop {
        let event = match &action {
            Action::Read => {
                run.reads += 1;
                match chunks.get(run.reads - 1) {
                    Some(chunk) => Event::Chunk(chunk.to_vec()),
                    None => Event::End,
                }
            }
            Action::Create(name) => {
                storage_steps += 1;
                if storage_fails_at == Some(storage_steps) {
                    Event::StorageFailed
                } else {
                    run.created.push(name.clone());
                    Event::Stored
                }
            }
            Action::Write(bytes) => {
                storage_steps += 1;
                if storage_fails_at == Some(storage_steps) {
                    Event::StorageFailed
                } else {
                    run.written.extend_from_slice(bytes);
                    Event::Stored
                }
            }
            Action::Respond(_) | Action::Abort(_) => {
                assert!(upload.is_over());
                run.last = action;
                return run;
            }
        };
        assert!(!upload.is_over());
        assert!(upload.accepts(&event));
        let next = upload.step(event);
        upload = next.0;
        action = next.1;
    }
}

#[test]
fn extension_of_declared_name_wins() {
    assert_eq!(resolve_extension(Some("md"), "txt"), "md");
    assert_eq!(resolve_extension(Some("TAR"), "bin"), "TAR");
    assert_eq!(resolve_extension(Some(""), "txt"), "txt");
    assert_eq!(resolve_extension(None, "png"), "png");
}

#[test]
fn stored_name_is_stem_dot_extension() {
    assert_eq!(name_file("AbCd_-9", "png"), "AbCd_-9.png");
    assert_eq!(name_file("AbCd_-9", ""), "AbCd_-9.");
}

#[test]
fn links_follow_the_kind() {
    assert_eq!(
        retrieval_link(DOMAIN, TypeHint::Generic, "AbCd_-9.png"),
        "https://drop.example/AbCd_-9.png"
    );
    assert_eq!(
        retrieval_link(DOMAIN, TypeHint::Audio, "AbCd_-9.mp3"),
        "https://drop.example/a/AbCd_-9.mp3"
    );
    assert_eq!(
        retrieval_link(DOMAIN, TypeHint::Text, "AbCd_-9.txt"),
        "https://drop.example/t/AbCd_-9.txt"
    );
    assert_eq!(
        deletion_link(DOMAIN, "AbCd_-9.png", "KEY"),
        "https://drop.example/d/AbCd_-9.png/KEY"
    );
}

#[test]
fn response_holds_both_links() {
    let response = respond(DOMAIN, &counting_secret(), TypeHint::Audio, "AbCd_-9.mp3");
    assert_eq!(
        response,
        UploadResponse {
            link: "https://drop.example/a/AbCd_-9.mp3".to_string(),
            deletion_link:
                "https://drop.example/d/AbCd_-9.mp3/VScM2KSXKLWvfHwW2DS34EY8LXoUxqPNtoYFCA"
                    .to_string(),
        }
    );
}

#[test]
fn picture_without_declarations_is_stored_as_png() {
    let secret = counting_secret();
    let first = Upload::start(DOMAIN, &secret, "AbCd_-9".to_string(), None, None);
    assert_eq!(first.1, Action::Read);
    let run = drive(first, &[&PNG, b"pixels", b"more pixels"], None);
    assert_eq!(run.created, vec!["AbCd_-9.png".to_string()]);
    assert_eq!(run.written, [&PNG[..], b"pixels", b"more pixels"].concat());
    match run.last {
        Action::Respond(response) => {
            assert_eq!(response.link, "https://drop.example/AbCd_-9.png");
            assert!(!response.link.contains("/a/") && !response.link.contains("/t/"));
            assert_eq!(
                response.deletion_link,
                "https://drop.example/d/AbCd_-9.png/3b8QCupsM2ssu27WfLGc_pCr1jQWsvyRSIyiUQ"
            );
        }
        other => panic!("the upload should be answered, not {other:?}"),
    }
}

#[test]
fn text_with_declared_name_keeps_its_extension() {
    let secret = counting_secret();
    let first = Upload::start(DOMAIN, &secret, "AbCd_-9".to_string(), Some("md".to_string()), None);
    let run = drive(first, &[b"# Notes\n", b"plain ASCII text\n"], None);
    assert_eq!(run.created, vec!["AbCd_-9.md".to_string()]);
    assert_eq!(run.written, b"# Notes\nplain ASCII text\n");
    match run.last {
        Action::Respond(response) => {
            assert_eq!(response.link, "https://drop.example/t/AbCd_-9.md");
            assert_eq!(
                response.deletion_link,
                "https://drop.example/d/AbCd_-9.md/ZDcUHdS0NtJFxQ1XpiOvdSz0UGccm2F-Mh6xlQ"
            );
        }
        other => panic!("the upload should be answered, not {other:?}"),
    }
}

#[test]
fn declared_file_name_gives_the_extension() {
    let config = config();
    let first = Upload::begin(&config, None, Some("notes.md"));
    let run = drive(first, &[b"plain ASCII text"], None);
    assert_eq!(run.created.len(), 1);
    let name = &run.created[0];
    assert_eq!(name.len(), 10);
    assert!(name.ends_with(".md"));
    assert!(!name.starts_with('.'));
    match run.last {
        Action::Respond(response) => {
            assert_eq!(response.link, format!("https://drop.example/t/{name}"));
            let key = make_key(&config.secret, name);
            assert_eq!(response.deletion_link, format!("https://drop.example/d/{name}/{key}"));
            assert!(check_key(&config.secret, name, &key));
        }
        other => panic!("the upload should be answered, not {other:?}"),
    }
}

#[test]
fn declared_file_name_without_extension_changes_nothing() {
    let config = config();
    for filename in ["notes", ".hidden", "dir.d/notes", "notes."] {
        let first = Upload::begin(&config, None, Some(filename));
        let run = drive(first, &[b"plain ASCII text"], None);
        assert!(run.created[0].ends_with(".txt"), "{filename} gave {}", run.created[0]);
    }
}

#[test]
fn undeclared_upload_gets_a_random_name() {
    let config = config();
    let first = Upload::begin(&config, None, None);
    let run = drive(first, &[&PNG], None);
    let name = &run.created[0];
    assert_eq!(name.len(), 11);
    assert!(name.ends_with(".png"));
    assert!(name[..7].chars().all(|c| c.is_ascii_alphanumeric() || c == '-' || c == '_'));
}

#[test]
fn empty_stream_creates_nothing() {
    let secret = counting_secret();
    let first = Upload::start(DOMAIN, &secret, "AbCd_-9".to_string(), None, None);
    let run = drive(first, &[], None);
    assert_eq!(run.last, Action::Abort(UploadError::InputExhausted));
    assert!(run.created.is_empty());
    assert!(run.written.is_empty());
    assert_eq!(run.reads, 1);
}

#[test]
fn declared_type_leaves_the_stream_untouched() {
    let secret = counting_secret();
    let audio = MediaType { top: "audio".to_string(), sub: "mpeg".to_string() };
    let (upload, action) =
        Upload::start(DOMAIN, &secret, "AbCd_-9".to_string(), None, Some(&audio));
    assert_eq!(action, Action::Create("AbCd_-9.mpga".to_string()));
    assert_eq!(upload.filename(), "AbCd_-9.mpga");
    assert_eq!(upload.hint(), TypeHint::Audio);
    let run = drive((upload, action), &[b"not really ", b"sound"], None);
    assert_eq!(run.written, b"not really sound");
    match run.last {
        Action::Respond(response) => {
            assert_eq!(response.link, "https://drop.example/a/AbCd_-9.mpga");
            assert_eq!(
                response.deletion_link,
                "https://drop.example/d/AbCd_-9.mpga/9KR_C_n_7KhTKlkcjuV9TSxuECkornbeBbm54A"
            );
        }
        other => panic!("the upload should be answered, not {other:?}"),
    }
}

#[test]
fn declared_type_with_empty_stream_stores_an_empty_file() {
    let secret = counting_secret();
    let css = MediaType { top: "text".to_string(), sub: "css".to_string() };
    let first = Upload::start(DOMAIN, &secret, "AbCd_-9".to_string(), None, Some(&css));
    let run = drive(first, &[], None);
    assert_eq!(run.created, vec!["AbCd_-9.css".to_string()]);
    assert!(run.written.is_empty());
    assert!(matches!(run.last, Action::Respond(_)));
}

#[test]
fn failing_stream_aborts_while_sniffing() {
    let secret = counting_secret();
    let (upload, _) = Upload::start(DOMAIN, &secret, "AbCd_-9".to_string(), None, None);
    let (upload, action) = upload.step(Event::Chunk(b"abc".to_vec()));
    assert_eq!(action, Action::Read);
    let (upload, action) = upload.step(Event::StreamFailed);
    assert_eq!(action, Action::Abort(UploadError::StreamFailure));
    assert!(upload.is_over());
    assert!(!upload.accepts(&Event::End));
}

#[test]
fn failing_stream_aborts_while_writing() {
    let secret = counting_secret();
    let (upload, _) = Upload::start(DOMAIN, &secret, "AbCd_-9".to_string(), None, None);
    let (upload, action) = upload.step(Event::Chunk(PNG.to_vec()));
    assert_eq!(action, Action::Create("AbCd_-9.png".to_string()));
    let (upload, action) = upload.step(Event::Stored);
    assert_eq!(action, Action::Write(PNG.to_vec()));
    let (upload, action) = upload.step(Event::Stored);
    assert_eq!(action, Action::Read);
    let (upload, action) = upload.step(Event::StreamFailed);
    assert_eq!(action, Action::Abort(UploadError::StreamFailure));
    assert!(upload.is_over());
}

#[test]
fn failing_storage_aborts() {
    let secret = counting_secret();
    for step in 1..=3 {
        let first = Upload::start(DOMAIN, &secret, "AbCd_-9".to_string(), None, None);
        let run = drive(first, &[&PNG, b"pixels"], Some(step));
        assert_eq!(run.last, Action::Abort(UploadError::StorageFailure));
    }
    let first = Upload::start(DOMAIN, &secret, "AbCd_-9".to_string(), None, None);
    let run = drive(first, &[&PNG, b"pixels"], Some(1));
    assert!(run.created.is_empty());
    assert!(run.written.is_empty());
}

#[test]
fn events_must_follow_actions() {
    let secret = counting_secret();
    let (upload, _) = Upload::start(DOMAIN, &secret, "AbCd_-9".to_string(), None, None);
    assert!(upload.accepts(&Event::Chunk(vec![1])));
    assert!(upload.accepts(&Event::End));
    assert!(upload.accepts(&Event::StreamFailed));
    assert!(!upload.accepts(&Event::Stored));
    assert!(!upload.accepts(&Event::StorageFailed));
    let (upload, _) = upload.step(Event::Chunk(PNG.to_vec()));
    assert!(upload.accepts(&Event::Stored));
    assert!(upload.accepts(&Event::StorageFailed));
    assert!(!upload.accepts(&Event::Chunk(vec![1])));
    assert!(!upload.accepts(&Event::End));
}
