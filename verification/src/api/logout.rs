use vstd::prelude::*;
use crate::api::reply::{Reply, ReplyView, refuse, Style};

verus! {

/// What a logout does: a logged-in session is logged out (`true`) and told
/// so; without a login the request is refused.
pub fn logout_post(logged_in: bool) -> (res: (bool, Reply))
    ensures
        res.0 == logged_in,
        res.1@ == (if logged_in {
            ReplyView::Text("Logout successful!"@)
        } else {
            ReplyView::Status(403, "Not logged in!"@)
        }),
{
    if logged_in {
        proof {
            reveal_strlit("Logout successful!");
        }
        (true, Reply::Text(String::from_str("Logout successful!")))
    } else {
        (false, refuse(Style::Status, 403, "Not logged in!"))
    }
}

} // verus!
