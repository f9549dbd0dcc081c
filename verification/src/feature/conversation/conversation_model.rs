use vstd::prelude::*;

verus! {

/// A request for a chat token.
#[derive(Clone, Debug)]
pub struct GenerateToken {
    pub email: String,
}

/// A direct conversation between the given members.
#[derive(Clone, Debug)]
pub struct CreateDirectConversationRequest {
    pub conversation_name: String,
    pub members: Vec<i32>,
}

/// A text message for a conversation.
#[derive(Clone, Debug)]
pub struct SendTextChatRequest {
    pub content: String,
    pub conversation_id: i32,
}

} // verus!
