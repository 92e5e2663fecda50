//! The two greeting endpoints. Each answers with a fixed record and consults
//! nothing about the request, so neither takes an argument.

use vstd::prelude::*;
use crate::response::{Body, BodyView, HelloResponse, MvengResponse, Reply, ReplyView, STATUS_OK};

verus! {

/// The reply of `/hello`.
pub open spec fn hello_reply() -> ReplyView {
    ReplyView {
        status: 200,
        body: BodyView::Hello { message: "Hello, World!"@, status: "success"@ },
    }
}

/// The reply of `/mveng`.
pub open spec fn mveng_reply() -> ReplyView {
    ReplyView {
        status: 200,
        body: BodyView::Mveng {
            greeting: "🌍 Akwaaba! Welcome, friend!"@,
            wisdom: "Nkukuma nkobe ye, a si nkukuma nda - The storyteller is like a tree, rooted in wisdom"@,
            from: "Mveng, your African storyteller"@,
        },
    }
}

/// Answers `/hello`.
pub fn hello() -> (reply: Reply)
    ensures
        reply@ == hello_reply(),
{
    Reply {
        status: STATUS_OK,
        body: Body::Hello(
            HelloResponse { message: "Hello, World!".to_owned(), status: "success".to_owned() },
        ),
    }
}

/// Answers `/mveng`.
pub fn mveng() -> (reply: Reply)
    ensures
        reply@ == mveng_reply(),
{
    Reply {
        status: STATUS_OK,
        body: Body::Mveng(
            MvengResponse {
                greeting: "🌍 Akwaaba! Welcome, friend!".to_owned(),
                wisdom: "Nkukuma nkobe ye, a si nkukuma nda - The storyteller is like a tree, rooted in wisdom".to_owned(),
                from: "Mveng, your African storyteller".to_owned(),
            },
        ),
    }
}

} // verus!
