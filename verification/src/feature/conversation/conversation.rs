use vstd::prelude::*;

use crate::decimal::{i32_of, session_i32};

verus! {

/// The chat user id a session holds: its user id read as an `i32` (`-1` when missing or not
/// a number); usable only when not negative.
pub open spec fn session_chat_user(value: Option<Seq<char>>) -> Option<i32> {
    let id = match value {
        Some(s) => match i32_of(s) {
            Some(x) => x,
            None => -1i32,
        },
        None => -1i32,
    };
    if id < 0 {
        None
    } else {
        Some(id)
    }
}

/// The user a chat request acts for, or `None` when the session holds no usable user id.
pub fn chat_user_id(value: Option<&str>) -> (r: Option<i32>)
    ensures
        r == session_chat_user(match value {
            Some(s) => Some(s@),
            None => None,
        }),
{
    let id = session_i32(value, -1);
    if id < 0 {
        None
    } else {
        Some(id)
    }
}

/// The length of a user's public id (a UUID without its dashes).
pub const MIN_USER_UUID_LEN: usize = 32;

/// A text message may be sent when the session names a user and holds a public id of at least
/// 32 characters.
pub fn can_send_text(user_id: Option<i32>, user_uuid: &str) -> (r: bool)
    ensures
        r == (user_id is Some && user_uuid@.len() >= 32),
{
    let n = crate::text::chars_of(user_uuid).len();
    user_id.is_some() && n >= MIN_USER_UUID_LEN
}

} // verus!
