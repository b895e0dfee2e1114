use vstd::prelude::*;
use crate::api::reply::{Reply, ReplyView, refuse, Style};
use crate::api::flow::IdentityState;

verus! {

/// What checking the session answers: whether someone is logged in.
pub fn check_session_get(id: &IdentityState) -> (res: Reply)
    ensures
        res@ == match id {
            IdentityState::Known(_) => ReplyView::Text("Authenticated"@),
            IdentityState::Unreadable => ReplyView::Status(500, "NOPE Server Error"@),
            IdentityState::Anonymous => ReplyView::Status(403, "Not Authenticated"@),
        },
{
    match id {
        IdentityState::Known(_) => {
            proof {
                reveal_strlit("Authenticated");
            }
            Reply::Text(String::from_str("Authenticated"))
        },
        IdentityState::Unreadable => refuse(Style::Status, 500, "NOPE Server Error"),
        IdentityState::Anonymous => refuse(Style::Status, 403, "Not Authenticated"),
    }
}

} // verus!
