use std::collections::HashMap;

use mveng::response::{Body, ErrorResponse, Reply, UploadResponse};
use mveng::upload::{begin, path_for, step, UploadAction, UploadEvent, UploadState};

/// One field of a form as a test writes it: the declared file name, if any,
/// and the content.
struct Part {
    file_name: Option<&'static str>,
    data: &'static [u8],
}

/// Plays a caller that never fails: answers each action of the machine from
/// `form` and `disk`, and returns the reply with every action given.
fn upload(form: &[Part], disk: &mut HashMap<String, Vec<u8>>) -> (Reply, Vec<UploadAction>) {
    let (mut state, mut action) = begin();
    let mut trace = vec![action.clone()];
    let mut cursor = 0;
    loop {
        let event = match action {
            UploadAction::NextField => {
                if cursor < form.len() {
                    cursor += 1;
                    UploadEvent::Field {
                        file_name: form[cursor - 1].file_name.map(|name| name.to_string()),
                    }
                } else {
                    UploadEvent::EndOfForm
                }
            }
            UploadAction::ReadBytes => UploadEvent::Bytes { data: form[cursor - 1].data.to_vec() },
            UploadAction::CreateDirectory { .. } => UploadEvent::DirectoryReady,
            UploadAction::WriteFile { path, data } => {
                disk.insert(path, data);
                UploadEvent::FileWritten
            }
            UploadAction::Respond(reply) => {
                assert!(state.is_done());
                return (reply, trace);
            }
            UploadAction::Nothing => panic!("the machine stopped without a reply"),
        };
        let next = step(state, event);
        state = next.0;
        action = next.1;
        trace.push(action.clone());
    }
}

fn saved(text: &str) -> Reply {
    Reply { status: 200, body: Body::Upload(UploadResponse { saved: text.to_string() }) }
}

fn failure() -> Reply {
    Reply {
        status: 500,
        body: Body::Error(ErrorResponse { error: "Internal server error".to_string() }),
    }
}

fn failed() -> (UploadState, UploadAction) {
    (UploadState::Done, UploadAction::Respond(failure()))
}

#[test]
fn begin_asks_for_the_first_field() {
    assert_eq!(begin(), (UploadState::Scanning, UploadAction::NextField));
}

#[test]
fn path_is_directory_slash_name() {
    assert_eq!(path_for("a.txt"), "./data/a.txt");
    assert_eq!(path_for(""), "./data/");
}

#[test]
fn path_keeps_the_name_verbatim() {
    assert_eq!(path_for("../etc/passwd"), "./data/../etc/passwd");
    assert_eq!(path_for("sub dir/ünï.wav"), "./data/sub dir/ünï.wav");
}

#[test]
fn one_file_field_is_saved() {
    let mut disk = HashMap::new();
    let form = [Part { file_name: Some("a.txt"), data: b"hi" }];
    let (reply, trace) = upload(&form, &mut disk);
    assert_eq!(reply, saved("./data/a.txt"));
    assert_eq!(disk.get("./data/a.txt"), Some(&b"hi".to_vec()));
    assert_eq!(disk.len(), 1);
    assert_eq!(
        trace,
        vec![
            UploadAction::NextField,
            UploadAction::ReadBytes,
            UploadAction::CreateDirectory { path: "./data".to_string() },
            UploadAction::WriteFile { path: "./data/a.txt".to_string(), data: b"hi".to_vec() },
            UploadAction::Respond(saved("./data/a.txt")),
        ]
    );
}

#[test]
fn empty_form_reports_no_file() {
    let mut disk = HashMap::new();
    let (reply, trace) = upload(&[], &mut disk);
    assert_eq!(reply, saved("No file uploaded"));
    assert!(disk.is_empty());
    assert_eq!(
        trace,
        vec![UploadAction::NextField, UploadAction::Respond(saved("No file uploaded"))]
    );
}

#[test]
fn text_fields_alone_report_no_file() {
    let mut disk = HashMap::new();
    let form = [
        Part { file_name: None, data: b"title" },
        Part { file_name: None, data: b"comment" },
    ];
    let (reply, trace) = upload(&form, &mut disk);
    assert_eq!(reply, saved("No file uploaded"));
    assert!(disk.is_empty());
    assert_eq!(trace.len(), 4);
    assert!(trace.iter().all(|action| !matches!(
        action,
        UploadAction::WriteFile { .. } | UploadAction::CreateDirectory { .. } | UploadAction::ReadBytes
    )));
}

#[test]
fn second_upload_overwrites_the_first() {
    let mut disk = HashMap::new();
    let (first, _) = upload(&[Part { file_name: Some("a.txt"), data: b"one" }], &mut disk);
    assert_eq!(disk.get("./data/a.txt"), Some(&b"one".to_vec()));
    let (second, _) = upload(&[Part { file_name: Some("a.txt"), data: b"second" }], &mut disk);
    assert_eq!(first, saved("./data/a.txt"));
    assert_eq!(second, saved("./data/a.txt"));
    assert_eq!(disk.get("./data/a.txt"), Some(&b"second".to_vec()));
    assert_eq!(disk.len(), 1);
}

#[test]
fn first_file_field_wins() {
    let mut disk = HashMap::new();
    let form = [
        Part { file_name: None, data: b"note" },
        Part { file_name: Some("x.wav"), data: b"xx" },
        Part { file_name: Some("y.wav"), data: b"yy" },
    ];
    let (reply, trace) = upload(&form, &mut disk);
    assert_eq!(reply, saved("./data/x.wav"));
    assert_eq!(disk.get("./data/x.wav"), Some(&b"xx".to_vec()));
    assert_eq!(disk.get("./data/y.wav"), None);
    let asked = trace.iter().filter(|action| matches!(action, UploadAction::NextField)).count();
    assert_eq!(asked, 2);
}

#[test]
fn empty_file_is_saved_empty() {
    let mut disk = HashMap::new();
    let (reply, _) = upload(&[Part { file_name: Some("empty.bin"), data: b"" }], &mut disk);
    assert_eq!(reply, saved("./data/empty.bin"));
    assert_eq!(disk.get("./data/empty.bin"), Some(&Vec::new()));
}

#[test]
fn scanning_steps() {
    assert_eq!(
        step(UploadState::Scanning, UploadEvent::Field { file_name: None }),
        (UploadState::Scanning, UploadAction::NextField)
    );
    assert_eq!(
        step(UploadState::Scanning, UploadEvent::Field { file_name: Some("a".to_string()) }),
        (UploadState::Reading { file_name: "a".to_string() }, UploadAction::ReadBytes)
    );
    assert_eq!(
        step(UploadState::Scanning, UploadEvent::EndOfForm),
        (UploadState::Done, UploadAction::Respond(saved("No file uploaded")))
    );
}

#[test]
fn reading_to_writing_steps() {
    assert_eq!(
        step(
            UploadState::Reading { file_name: "a.txt".to_string() },
            UploadEvent::Bytes { data: vec![1, 2, 3] }
        ),
        (
            UploadState::Preparing { path: "./data/a.txt".to_string(), data: vec![1, 2, 3] },
            UploadAction::CreateDirectory { path: "./data".to_string() }
        )
    );
    assert_eq!(
        step(
            UploadState::Preparing { path: "./data/a.txt".to_string(), data: vec![1, 2, 3] },
            UploadEvent::DirectoryReady
        ),
        (
            UploadState::Writing { path: "./data/a.txt".to_string() },
            UploadAction::WriteFile { path: "./data/a.txt".to_string(), data: vec![1, 2, 3] }
        )
    );
    assert_eq!(
        step(UploadState::Writing { path: "./data/a.txt".to_string() }, UploadEvent::FileWritten),
        (UploadState::Done, UploadAction::Respond(saved("./data/a.txt")))
    );
}

#[test]
fn fault_ends_every_open_state() {
    let open = vec![
        UploadState::Scanning,
        UploadState::Reading { file_name: "a".to_string() },
        UploadState::Preparing { path: "./data/a".to_string(), data: vec![7] },
        UploadState::Writing { path: "./data/a".to_string() },
    ];
    for state in open {
        assert_eq!(step(state, UploadEvent::Fault), failed());
    }
}

#[test]
fn misplaced_event_is_a_fault() {
    assert_eq!(step(UploadState::Scanning, UploadEvent::Bytes { data: vec![] }), failed());
    assert_eq!(step(UploadState::Scanning, UploadEvent::FileWritten), failed());
    assert_eq!(
        step(UploadState::Reading { file_name: "a".to_string() }, UploadEvent::EndOfForm),
        failed()
    );
    assert_eq!(
        step(
            UploadState::Preparing { path: "./data/a".to_string(), data: vec![] },
            UploadEvent::FileWritten
        ),
        failed()
    );
    assert_eq!(
        step(UploadState::Writing { path: "./data/a".to_string() }, UploadEvent::DirectoryReady),
        failed()
    );
}

#[test]
fn done_stays_done() {
    let events = vec![
        UploadEvent::Field { file_name: Some("a".to_string()) },
        UploadEvent::EndOfForm,
        UploadEvent::Bytes { data: vec![1] },
        UploadEvent::DirectoryReady,
        UploadEvent::FileWritten,
        UploadEvent::Fault,
    ];
    for event in events {
        assert_eq!(step(UploadState::Done, event), (UploadState::Done, UploadAction::Nothing));
    }
}

#[test]
fn any_report_gives_one_write_and_one_reply_at_most() {
    let events = vec![
        UploadEvent::Field { file_name: Some("a".to_string()) },
        UploadEvent::Bytes { data: vec![1] },
        UploadEvent::DirectoryReady,
        UploadEvent::DirectoryReady,
        UploadEvent::FileWritten,
        UploadEvent::Field { file_name: Some("b".to_string()) },
        UploadEvent::Bytes { data: vec![2] },
        UploadEvent::DirectoryReady,
        UploadEvent::FileWritten,
    ];
    let (mut state, _) = begin();
    let mut writes = 0;
    let mut replies = 0;
    for event in events {
        let (next, action) = step(state, event);
        state = next;
        match action {
            UploadAction::WriteFile { .. } => writes += 1,
            UploadAction::Respond(_) => replies += 1,
            _ => {}
        }
    }
    assert_eq!(writes, 1);
    assert_eq!(replies, 1);
    assert!(state.is_done());
}

#[test]
fn failure_reply_is_generic() {
    let reply = Reply::failure();
    assert_eq!(reply, failure());
    assert!(!reply.is_success());
    assert!(Reply::upload("x".to_string()).is_success());
    assert_eq!(Reply::upload("x".to_string()), saved("x"));
}

#[test]
fn is_done_only_in_done() {
    assert!(UploadState::Done.is_done());
    assert!(!UploadState::Scanning.is_done());
    assert!(!UploadState::Writing { path: "p".to_string() }.is_done());
}
