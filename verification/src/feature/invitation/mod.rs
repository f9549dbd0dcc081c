pub mod invitation_model;

use vstd::prelude::*;

use crate::object_id::{key_of_text, key_view, parse_object_id, ObjectKey};
use crate::text::concat_str;
use invitation_model::InvitationRequest;

verus! {

/// The title of an invitation notice: the inviting user's name, a space, then the message.
pub fn invitation_title(display_name: &str, message: &str) -> (r: String)
    ensures
        r@ == display_name@ + " "@ + message@,
{
    let head = concat_str(display_name, " ");
    concat_str(head.as_str(), message)
}

/// One invitation of a batch: the invited user (none when the id given is not a record id)
/// and the title of the notice the user gets.
pub struct PlannedInvitation {
    pub user_id: Option<ObjectKey>,
    pub title: String,
}

/// Plans the invitations that `display_name` sends with `message`: one per user asked for, in
/// order, each addressed to the user's record id and titled by [`invitation_title`].
pub fn plan_invitations(display_name: &str, message: &str, users: &Vec<InvitationRequest>) -> (r:
    Vec<PlannedInvitation>)
    ensures
        r@.len() == users@.len(),
        forall|i: int|
            0 <= i < r@.len() ==> key_view((#[trigger] r@[i]).user_id) == key_of_text(
                users@[i].user_id@,
            ) && r@[i].title@ == display_name@ + " "@ + message@,
{
    let mut out: Vec<PlannedInvitation> = Vec::new();
    let mut i: usize = 0;
    while i < users.len()
        invariant
            i <= users.len(),
            out@.len() == i,
            forall|j: int|
                0 <= j < i ==> key_view((#[trigger] out@[j]).user_id) == key_of_text(
                    users@[j].user_id@,
                ) && out@[j].title@ == display_name@ + " "@ + message@,
        decreases users.len() - i,
    {
        let user_id = parse_object_id(users[i].user_id.as_str());
        let title = invitation_title(display_name, message);
        out.push(PlannedInvitation { user_id, title });
        i = i + 1;
    }
    out
}

} // verus!
