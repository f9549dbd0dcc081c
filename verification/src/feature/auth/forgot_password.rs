use vstd::prelude::*;

use crate::decimal::{i64_of, session_i64};
use crate::outside::{bcrypt_matches, chrono_holds_millis, millis_in_range, password_hash};
use crate::text::equal_str;

verus! {

/// The number of failed attempts above which a code is refused outright.
pub const MAX_RESET_ATTEMPTS: i32 = 4;

/// What verifying a password-reset code answers.
#[derive(Clone, Copy, Debug, PartialEq, Eq, Structural)]
pub enum ResetOtpOutcome {
    /// The time the code was issued cannot be read: the code may have expired.
    Expired,
    /// More than four attempts have failed.
    TooManyAttempts,
    /// The code is wrong; the counter to write back is given.
    Mismatch { attempt: i32 },
    /// The code is right.
    Verified,
}

/// The decision for a reset session with `attempt` failures and code `stored`, on the typed
/// code `given`.
pub open spec fn reset_otp_decision(
    issued_at_readable: bool,
    attempt: i32,
    stored: Seq<char>,
    given: Seq<char>,
) -> ResetOtpOutcome {
    if !issued_at_readable {
        ResetOtpOutcome::Expired
    } else if attempt > MAX_RESET_ATTEMPTS {
        ResetOtpOutcome::TooManyAttempts
    } else if stored != given {
        ResetOtpOutcome::Mismatch { attempt: (attempt + 1) as i32 }
    } else {
        ResetOtpOutcome::Verified
    }
}

/// The issue time a reset session holds, in milliseconds: its text read as a number, `0` when
/// missing or not a number.
pub open spec fn session_issue_millis(issued_at: Option<Seq<char>>) -> i64 {
    match issued_at {
        Some(t) => match i64_of(t) {
            Some(x) => x,
            None => 0,
        },
        None => 0,
    }
}

/// Whether the issue time a reset session holds can be read as an instant.
pub fn reset_issue_time_readable(issued_at: Option<&str>) -> (r: bool)
    ensures
        r == chrono_holds_millis(
            session_issue_millis(
                match issued_at {
                    Some(t) => Some(t@),
                    None => None,
                },
            ),
        ),
{
    millis_in_range(session_i64(issued_at, 0))
}

/// Decides a password-reset code once the session has been read.
pub fn decide_reset_otp(issued_at_readable: bool, attempt: i32, stored: &str, given: &str) -> (r:
    ResetOtpOutcome)
    ensures
        r == reset_otp_decision(issued_at_readable, attempt, stored@, given@),
{
    if !issued_at_readable {
        return ResetOtpOutcome::Expired;
    }
    if attempt > MAX_RESET_ATTEMPTS {
        return ResetOtpOutcome::TooManyAttempts;
    }
    if !equal_str(stored, given) {
        return ResetOtpOutcome::Mismatch { attempt: attempt + 1 };
    }
    ResetOtpOutcome::Verified
}

/// The resend counter to write after one more resend, or `None` when more than four resends
/// have been asked for already.
pub fn next_resend_attempt(resend_attempt: i64) -> (r: Option<i64>)
    ensures
        resend_attempt > 4 ==> r is None,
        resend_attempt <= 4 ==> r == Some((resend_attempt + 1) as i64),
{
    if resend_attempt > 4 {
        None
    } else {
        Some(resend_attempt + 1)
    }
}

/// The hash stored as the new password when a reset is completed; none when no hash can be
/// made (the reset is then refused).
pub fn reset_password_hash(new_password: &str) -> (r: Option<String>)
    ensures
        r matches Some(h) ==> bcrypt_matches(new_password@, h@),
{
    password_hash(new_password)
}

} // verus!
