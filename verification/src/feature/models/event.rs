use vstd::prelude::*;

verus! {

/// A client registering for server-sent events on a channel.
#[derive(Clone, Debug)]
pub struct RegisterSse {
    pub user_id: String,
    pub channel_id: String,
}

/// A message for one user on one channel.
#[derive(Clone, Debug)]
pub struct SendToUserRequest {
    pub channel_id: String,
    pub user_id: String,
    pub event_name: String,
    pub message: String,
}

/// A message for a channel.
#[derive(Clone, Debug)]
pub struct SendToUserChannel {
    pub channel_id: String,
    pub event_name: String,
    pub message: String,
}

/// A message for every client.
#[derive(Clone, Debug)]
pub struct SendBroadcastRequest {
    pub event_name: String,
    pub message: String,
}

/// The answer to a sent message.
#[derive(Clone, Debug)]
pub struct SendMessageResponse {
    pub message: String,
}

} // verus!
