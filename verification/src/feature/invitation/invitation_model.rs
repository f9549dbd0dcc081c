use vstd::prelude::*;

verus! {

/// A public invitation link to an event.
#[derive(Clone, Debug)]
pub struct CreateInvitationLinkRequest {
    pub expired_at: String,
    pub event_id: String,
}

/// Invitations to an event for the given users.
#[derive(Clone, Debug)]
pub struct SendInvitationRequest {
    pub event_id: String,
    pub users: Vec<InvitationRequest>,
}

/// One invited user and when the invitation expires.
#[derive(Clone, Debug)]
pub struct InvitationRequest {
    pub expired_at: String,
    pub user_id: String,
}

} // verus!
