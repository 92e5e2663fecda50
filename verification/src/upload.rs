//! The upload endpoint as a machine. The caller owns the multipart form and
//! the disk; the machine tells it what to do next and is told what came of
//! it. The policy is named and fixed: scan the form's fields in order, take
//! the first one that declares a file name, ignore what follows it.

use vstd::prelude::*;
use crate::response::{failure_reply, upload_reply, Reply, ReplyView};

verus! {

/// Where the machine stands between two steps.
#[derive(Debug, Clone, PartialEq, Eq)]
pub enum UploadState {
    /// Waiting for the form's next field.
    Scanning,
    /// A field with a file name was found; waiting for its content.
    Reading { file_name: String },
    /// The content is in memory; waiting for the target directory.
    Preparing { path: String, data: Vec<u8> },
    /// Waiting for the write to `path` to finish.
    Writing { path: String },
    /// The reply has been given.
    Done,
}

/// What the caller reports back after performing an action.
#[derive(Debug, Clone, PartialEq, Eq)]
pub enum UploadEvent {
    /// The form yielded a field; `file_name` is the name it declares, if any.
    Field { file_name: Option<String> },
    /// The form has no further field.
    EndOfForm,
    /// The content of the current field, read in full.
    Bytes { data: Vec<u8> },
    /// The target directory exists now.
    DirectoryReady,
    /// The file was written.
    FileWritten,
    /// The form could not be parsed, or the disk refused.
    Fault,
}

/// What the caller is to do next.
#[derive(Debug, Clone, PartialEq, Eq)]
pub enum UploadAction {
    /// Ask the form for its next field.
    NextField,
    /// Read the current field's content in full.
    ReadBytes,
    /// Create the directory at `path` unless it exists.
    CreateDirectory { path: String },
    /// Write `data` to the file at `path`, replacing what is there.
    WriteFile { path: String, data: Vec<u8> },
    /// Send the reply; the exchange ends with it.
    Respond(Reply),
    /// The exchange is over: there is nothing left to do.
    Nothing,
}

/// Mathematical value of an [`UploadState`].
pub enum StateView {
    Scanning,
    Reading { file_name: Seq<char> },
    Preparing { path: Seq<char>, data: Seq<u8> },
    Writing { path: Seq<char> },
    Done,
}

/// Mathematical value of an [`UploadEvent`].
pub enum EventView {
    Field { file_name: Option<Seq<char>> },
    EndOfForm,
    Bytes { data: Seq<u8> },
    DirectoryReady,
    FileWritten,
    Fault,
}

/// Mathematical value of an [`UploadAction`].
pub enum ActionView {
    NextField,
    ReadBytes,
    CreateDirectory { path: Seq<char> },
    WriteFile { path: Seq<char>, data: Seq<u8> },
    Respond(ReplyView),
    Nothing,
}

impl View for UploadState {
    type V = StateView;

    open spec fn view(&self) -> StateView {
        match self {
            UploadState::Scanning => StateView::Scanning,
            UploadState::Reading { file_name } => StateView::Reading { file_name: file_name@ },
            UploadState::Preparing { path, data } => StateView::Preparing {
                path: path@,
                data: data@,
            },
            UploadState::Writing { path } => StateView::Writing { path: path@ },
            UploadState::Done => StateView::Done,
        }
    }
}

impl View for UploadEvent {
    type V = EventView;

    open spec fn view(&self) -> EventView {
        match self {
            UploadEvent::Field { file_name } => EventView::Field {
                file_name: match file_name {
                    Some(name) => Some(name@),
                    None => None,
                },
            },
            UploadEvent::EndOfForm => EventView::EndOfForm,
            UploadEvent::Bytes { data } => EventView::Bytes { data: data@ },
            UploadEvent::DirectoryReady => EventView::DirectoryReady,
            UploadEvent::FileWritten => EventView::FileWritten,
            UploadEvent::Fault => EventView::Fault,
        }
    }
}

impl View for UploadAction {
    type V = ActionView;

    open spec fn view(&self) -> ActionView {
        match self {
            UploadAction::NextField => ActionView::NextField,
            UploadAction::ReadBytes => ActionView::ReadBytes,
            UploadAction::CreateDirectory { path } => ActionView::CreateDirectory { path: path@ },
            UploadAction::WriteFile { path, data } => ActionView::WriteFile {
                path: path@,
                data: data@,
            },
            UploadAction::Respond(reply) => ActionView::Respond(reply@),
            UploadAction::Nothing => ActionView::Nothing,
        }
    }
}

/// The directory that uploads go to, relative to the working directory.
pub open spec fn upload_directory() -> Seq<char> {
    "./data"@
}

/// What the reply says was saved when the form held no file.
pub open spec fn no_file_notice() -> Seq<char> {
    "No file uploaded"@
}

/// The path that a file declared as `file_name` is written to: the
/// directory, a slash, and the name exactly as the client gave it.
pub open spec fn saved_path(file_name: Seq<char>) -> Seq<char> {
    upload_directory() + seq!['/'] + file_name
}

/// The machine's transition: the state after `event` arrived in `state`,
/// and the action that the caller performs next.
///
/// Each waiting state has the one or two events that answer its action. A
/// fault, or an event that answers some other action, ends the exchange with
/// the failure reply. Once the reply is given nothing moves any more.
pub open spec fn transition(state: StateView, event: EventView) -> (StateView, ActionView) {
    match (state, event) {
        (StateView::Done, _) => (StateView::Done, ActionView::Nothing),
        (StateView::Scanning, EventView::Field { file_name: None }) => (
            StateView::Scanning,
            ActionView::NextField,
        ),
        (StateView::Scanning, EventView::Field { file_name: Some(name) }) => (
            StateView::Reading { file_name: name },
            ActionView::ReadBytes,
        ),
        (StateView::Scanning, EventView::EndOfForm) => (
            StateView::Done,
            ActionView::Respond(upload_reply(no_file_notice())),
        ),
        (StateView::Reading { file_name }, EventView::Bytes { data }) => (
            StateView::Preparing { path: saved_path(file_name), data },
            ActionView::CreateDirectory { path: upload_directory() },
        ),
        (StateView::Preparing { path, data }, EventView::DirectoryReady) => (
            StateView::Writing { path },
            ActionView::WriteFile { path, data },
        ),
        (StateView::Writing { path }, EventView::FileWritten) => (
            StateView::Done,
            ActionView::Respond(upload_reply(path)),
        ),
        _ => (StateView::Done, ActionView::Respond(failure_reply())),
    }
}

/// The state in which every exchange starts, with the first action.
pub open spec fn initial() -> (StateView, ActionView) {
    (StateView::Scanning, ActionView::NextField)
}

/// Builds the path for a file declared as `file_name`.
pub fn path_for(file_name: &str) -> (path: String)
    ensures
        path@ == saved_path(file_name@),
{
    let mut path = "./data".to_owned();
    path.append("/");
    path.append(file_name);
    proof {
        reveal_strlit("/");
        assert("/"@ =~= seq!['/']);
    }
    path
}

/// Opens an exchange: the machine waits for the form's first field.
pub fn begin() -> (start: (UploadState, UploadAction))
    ensures
        (start.0@, start.1@) == initial(),
{
    (UploadState::Scanning, UploadAction::NextField)
}

/// Ends an exchange with the failure reply.
fn fail() -> (next: (UploadState, UploadAction))
    ensures
        next.0@ == StateView::Done,
        next.1@ == ActionView::Respond(failure_reply()),
{
    (UploadState::Done, UploadAction::Respond(Reply::failure()))
}

/// Advances the machine by one event.
pub fn step(state: UploadState, event: UploadEvent) -> (next: (UploadState, UploadAction))
    ensures
        (next.0@, next.1@) == transition(state@, event@),
{
    match state {
        UploadState::Done => (UploadState::Done, UploadAction::Nothing),
        UploadState::Scanning => match event {
            UploadEvent::Field { file_name: None } => (
                UploadState::Scanning,
                UploadAction::NextField,
            ),
            UploadEvent::Field { file_name: Some(name) } => (
                UploadState::Reading { file_name: name },
                UploadAction::ReadBytes,
            ),
            UploadEvent::EndOfForm => (
                UploadState::Done,
                UploadAction::Respond(Reply::upload("No file uploaded".to_owned())),
            ),
            _ => fail(),
        },
        UploadState::Reading { file_name } => match event {
            UploadEvent::Bytes { data } => (
                UploadState::Preparing { path: path_for(file_name.as_str()), data },
                UploadAction::CreateDirectory { path: "./data".to_owned() },
            ),
            _ => fail(),
        },
        UploadState::Preparing { path, data } => match event {
            UploadEvent::DirectoryReady => {
                let target = path.clone();
                (UploadState::Writing { path }, UploadAction::WriteFile { path: target, data })
            },
            _ => fail(),
        },
        UploadState::Writing { path } => match event {
            UploadEvent::FileWritten => (UploadState::Done, UploadAction::Respond(Reply::upload(path))),
            _ => fail(),
        },
    }
}

impl UploadState {
    /// Whether the reply has been given.
    pub fn is_done(&self) -> (done: bool)
        ensures
            done == (self@ == StateView::Done),
    {
        match self {
            UploadState::Done => true,
            _ => false,
        }
    }
}

} // verus!
