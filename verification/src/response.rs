//! The records that the endpoints answer with, and the reply that carries
//! one of them together with its status.

use vstd::prelude::*;

verus! {

/// Status of every reply that reports a normal outcome.
pub const STATUS_OK: u16 = 200;

/// Status of the reply to a request that a fault cut short.
pub const STATUS_INTERNAL_ERROR: u16 = 500;

/// Record of the upload endpoint: where the file went, or the notice that
/// the form held no file.
#[derive(Debug, Clone, PartialEq, Eq)]
pub struct UploadResponse {
    pub saved: String,
}

/// Record of the `/hello` endpoint.
#[derive(Debug, Clone, PartialEq, Eq)]
pub struct HelloResponse {
    pub message: String,
    pub status: String,
}

/// Record of the `/mveng` endpoint.
#[derive(Debug, Clone, PartialEq, Eq)]
pub struct MvengResponse {
    pub greeting: String,
    pub wisdom: String,
    pub from: String,
}

/// Record sent in place of the endpoint's own when a fault ended the
/// request. It names no cause.
#[derive(Debug, Clone, PartialEq, Eq)]
pub struct ErrorResponse {
    pub error: String,
}

/// The record inside a reply.
#[derive(Debug, Clone, PartialEq, Eq)]
pub enum Body {
    Upload(UploadResponse),
    Hello(HelloResponse),
    Mveng(MvengResponse),
    Error(ErrorResponse),
}

/// What an endpoint hands back: a status and one record.
#[derive(Debug, Clone, PartialEq, Eq)]
pub struct Reply {
    pub status: u16,
    pub body: Body,
}

/// Mathematical value of a [`Body`]: each text as a sequence of characters.
pub enum BodyView {
    Upload { saved: Seq<char> },
    Hello { message: Seq<char>, status: Seq<char> },
    Mveng { greeting: Seq<char>, wisdom: Seq<char>, from: Seq<char> },
    Error { error: Seq<char> },
}

/// Mathematical value of a [`Reply`].
pub struct ReplyView {
    pub status: int,
    pub body: BodyView,
}

impl View for Body {
    type V = BodyView;

    open spec fn view(&self) -> BodyView {
        match self {
            Body::Upload(r) => BodyView::Upload { saved: r.saved@ },
            Body::Hello(r) => BodyView::Hello { message: r.message@, status: r.status@ },
            Body::Mveng(r) => BodyView::Mveng {
                greeting: r.greeting@,
                wisdom: r.wisdom@,
                from: r.from@,
            },
            Body::Error(r) => BodyView::Error { error: r.error@ },
        }
    }
}

impl View for Reply {
    type V = ReplyView;

    open spec fn view(&self) -> ReplyView {
        ReplyView { status: self.status as int, body: self.body@ }
    }
}

/// The text of the one error record there is.
pub open spec fn generic_error_text() -> Seq<char> {
    "Internal server error"@
}

/// The reply to every request that a fault cut short: status 500 and the
/// generic error record.
pub open spec fn failure_reply() -> ReplyView {
    ReplyView { status: 500, body: BodyView::Error { error: generic_error_text() } }
}

/// The reply that carries an upload record with status 200.
pub open spec fn upload_reply(saved: Seq<char>) -> ReplyView {
    ReplyView { status: 200, body: BodyView::Upload { saved } }
}

impl Reply {
    /// Builds the reply that reports a fault.
    pub fn failure() -> (reply: Reply)
        ensures
            reply@ == failure_reply(),
    {
        Reply {
            status: STATUS_INTERNAL_ERROR,
            body: Body::Error(ErrorResponse { error: "Internal server error".to_owned() }),
        }
    }

    /// Builds the reply of a finished upload exchange around `saved`.
    pub fn upload(saved: String) -> (reply: Reply)
        ensures
            reply@ == upload_reply(saved@),
    {
        Reply { status: STATUS_OK, body: Body::Upload(UploadResponse { saved }) }
    }

    /// Whether the reply reports a normal outcome.
    pub fn is_success(&self) -> (ok: bool)
        ensures
            ok == (self@.status == 200),
    {
        self.status == STATUS_OK
    }
}

} // verus!
