use vstd::prelude::*;

use crate::validation::{
    check_min_len, errors_view, finish, flag, min_len, note, validation_outcome, FieldError, Rule,
};

verus! {

/// A device registering for server-sent events.
#[derive(Clone, Debug)]
pub struct RegisterSse {
    pub device_id: String,
    pub user_id: String,
}

impl RegisterSse {
    /// The rules the body breaks, in field order: `device_id` at least 1 character; `user_id` at least 1 character.
    pub open spec fn violations(&self) -> Seq<(Seq<char>, Rule)> {
        flag(min_len(self.device_id@, 1), "device_id"@, Rule::Length)
            + flag(min_len(self.user_id@, 1), "user_id"@, Rule::Length)
    }

    /// Checks the body against its rules.
    pub fn validate(&self) -> (r: Result<(), Vec<FieldError>>)
        ensures
            validation_outcome(r, self.violations()),
    {
        let mut errs: Vec<FieldError> = Vec::new();
        note(check_min_len(&self.device_id, 1), "device_id", Rule::Length, &mut errs);
        note(check_min_len(&self.user_id, 1), "user_id", Rule::Length, &mut errs);
        assert(errors_view(errs@) =~= self.violations());
        finish(errs)
    }
}

/// A message for one device of one user.
#[derive(Clone, Debug)]
pub struct SendToUserRequest {
    pub user_id: String,
    pub device_id: String,
    pub event_name: String,
    pub message: String,
}

impl SendToUserRequest {
    /// The rules the body breaks, in field order: `user_id` at least 1 character; `device_id` at least 1 character; `event_name` at least 1 character; `message` at least 1 character.
    pub open spec fn violations(&self) -> Seq<(Seq<char>, Rule)> {
        flag(min_len(self.user_id@, 1), "user_id"@, Rule::Length)
            + flag(min_len(self.device_id@, 1), "device_id"@, Rule::Length)
            + flag(min_len(self.event_name@, 1), "event_name"@, Rule::Length)
            + flag(min_len(self.message@, 1), "message"@, Rule::Length)
    }

    /// Checks the body against its rules.
    pub fn validate(&self) -> (r: Result<(), Vec<FieldError>>)
        ensures
            validation_outcome(r, self.violations()),
    {
        let mut errs: Vec<FieldError> = Vec::new();
        note(check_min_len(&self.user_id, 1), "user_id", Rule::Length, &mut errs);
        note(check_min_len(&self.device_id, 1), "device_id", Rule::Length, &mut errs);
        note(check_min_len(&self.event_name, 1), "event_name", Rule::Length, &mut errs);
        note(check_min_len(&self.message, 1), "message", Rule::Length, &mut errs);
        assert(errors_view(errs@) =~= self.violations());
        finish(errs)
    }
}

/// A message for every device of one user.
#[derive(Clone, Debug)]
pub struct SendToUserChannel {
    pub user_id: String,
    pub event_name: String,
    pub message: String,
}

impl SendToUserChannel {
    /// The rules the body breaks, in field order: `user_id` at least 1 character; `event_name` at least 1 character; `message` at least 1 character.
    pub open spec fn violations(&self) -> Seq<(Seq<char>, Rule)> {
        flag(min_len(self.user_id@, 1), "user_id"@, Rule::Length)
            + flag(min_len(self.event_name@, 1), "event_name"@, Rule::Length)
            + flag(min_len(self.message@, 1), "message"@, Rule::Length)
    }

    /// Checks the body against its rules.
    pub fn validate(&self) -> (r: Result<(), Vec<FieldError>>)
        ensures
            validation_outcome(r, self.violations()),
    {
        let mut errs: Vec<FieldError> = Vec::new();
        note(check_min_len(&self.user_id, 1), "user_id", Rule::Length, &mut errs);
        note(check_min_len(&self.event_name, 1), "event_name", Rule::Length, &mut errs);
        note(check_min_len(&self.message, 1), "message", Rule::Length, &mut errs);
        assert(errors_view(errs@) =~= self.violations());
        finish(errs)
    }
}

/// A message for every client.
#[derive(Clone, Debug)]
pub struct SendBroadcastRequest {
    pub event_name: String,
    pub message: String,
}

impl SendBroadcastRequest {
    /// The rules the body breaks, in field order: `event_name` at least 1 character; `message` at least 1 character.
    pub open spec fn violations(&self) -> Seq<(Seq<char>, Rule)> {
        flag(min_len(self.event_name@, 1), "event_name"@, Rule::Length)
            + flag(min_len(self.message@, 1), "message"@, Rule::Length)
    }

    /// Checks the body against its rules.
    pub fn validate(&self) -> (r: Result<(), Vec<FieldError>>)
        ensures
            validation_outcome(r, self.violations()),
    {
        let mut errs: Vec<FieldError> = Vec::new();
        note(check_min_len(&self.event_name, 1), "event_name", Rule::Length, &mut errs);
        note(check_min_len(&self.message, 1), "message", Rule::Length, &mut errs);
        assert(errors_view(errs@) =~= self.violations());
        finish(errs)
    }
}

/// The answer to a sent message.
#[derive(Clone, Debug)]
pub struct SendMessageResponse {
    pub message: String,
}

impl SendMessageResponse {
    /// The rules the body breaks, in field order: `message` at least 1 character.
    pub open spec fn violations(&self) -> Seq<(Seq<char>, Rule)> {
        flag(min_len(self.message@, 1), "message"@, Rule::Length)
    }

    /// Checks the body against its rules.
    pub fn validate(&self) -> (r: Result<(), Vec<FieldError>>)
        ensures
            validation_outcome(r, self.violations()),
    {
        let mut errs: Vec<FieldError> = Vec::new();
        note(check_min_len(&self.message, 1), "message", Rule::Length, &mut errs);
        assert(errors_view(errs@) =~= self.violations());
        finish(errs)
    }
}

/// A user subscribing to a topic.
#[derive(Clone, Debug)]
pub struct SubscribeToTopicRequest {
    pub user_id: String,
    pub topic: String,
}

impl SubscribeToTopicRequest {
    /// The rules the body breaks, in field order: `user_id` at least 1 character; `topic` at least 1 character.
    pub open spec fn violations(&self) -> Seq<(Seq<char>, Rule)> {
        flag(min_len(self.user_id@, 1), "user_id"@, Rule::Length)
            + flag(min_len(self.topic@, 1), "topic"@, Rule::Length)
    }

    /// Checks the body against its rules.
    pub fn validate(&self) -> (r: Result<(), Vec<FieldError>>)
        ensures
            validation_outcome(r, self.violations()),
    {
        let mut errs: Vec<FieldError> = Vec::new();
        note(check_min_len(&self.user_id, 1), "user_id", Rule::Length, &mut errs);
        note(check_min_len(&self.topic, 1), "topic", Rule::Length, &mut errs);
        assert(errors_view(errs@) =~= self.violations());
        finish(errs)
    }
}

} // verus!
