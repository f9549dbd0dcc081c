use vstd::prelude::*;

use crate::object_id::{parse_object_id, ObjectKey};
use crate::outside::is_object_id_text;
use crate::text::equal_str;

verus! {

/// The number of failed attempts above which a sign-in or sign-up code is refused outright,
/// and past which the account is locked.
pub const MAX_EMAIL_OTP_ATTEMPTS: i32 = 4;

/// What verifying an e-mailed sign-in code answers.
#[derive(Clone, Debug)]
pub enum SignInOtpOutcome {
    /// More than four attempts have failed.
    TooManyAttempts,
    /// The session's user id is not a record id.
    SessionNotFound,
    /// The code is wrong: the counter to write back, and whether the account gets locked.
    Mismatch { attempt: i32, lock_account: bool },
    /// The code is right: sign in the user with this id.
    Verified { user_id: ObjectKey },
}

/// The answer to a wrong code after `attempt` failures: one more failure, and the account is
/// locked when that makes more than four.
pub open spec fn mismatch_after(attempt: i32) -> (i32, bool) {
    ((attempt + 1) as i32, attempt + 1 > MAX_EMAIL_OTP_ATTEMPTS)
}

/// Decides an e-mailed sign-in code once the session has been read.
pub fn decide_sign_in_otp(attempt: i32, user_id: &str, stored: &str, given: &str) -> (r:
    SignInOtpOutcome)
    ensures
        attempt > MAX_EMAIL_OTP_ATTEMPTS <==> r is TooManyAttempts,
        r is SessionNotFound <==> attempt <= MAX_EMAIL_OTP_ATTEMPTS && !is_object_id_text(
            user_id@,
        ),
        r is Mismatch <==> attempt <= MAX_EMAIL_OTP_ATTEMPTS && is_object_id_text(user_id@)
            && stored@ != given@,
        r matches SignInOtpOutcome::Mismatch { attempt: a, lock_account: l } ==> (a, l)
            == mismatch_after(attempt),
        r is Verified <==> attempt <= MAX_EMAIL_OTP_ATTEMPTS && is_object_id_text(user_id@)
            && stored@ == given@,
        r matches SignInOtpOutcome::Verified { user_id: k } ==> k@
            == crate::outside::object_id_bytes(user_id@),
{
    if attempt > MAX_EMAIL_OTP_ATTEMPTS {
        return SignInOtpOutcome::TooManyAttempts;
    }
    let id = parse_object_id(user_id);
    match id {
        None => SignInOtpOutcome::SessionNotFound,
        Some(k) => {
            if !equal_str(stored, given) {
                let next = attempt + 1;
                SignInOtpOutcome::Mismatch { attempt: next, lock_account: next > MAX_EMAIL_OTP_ATTEMPTS }
            } else {
                SignInOtpOutcome::Verified { user_id: k }
            }
        },
    }
}

/// The code to send for a sign-in: the fixed code `4444` for the test address, otherwise the
/// generated one.
pub fn code_to_send(generated: String, is_test_email: bool) -> (r: String)
    ensures
        is_test_email ==> r@ == seq!['4', '4', '4', '4'],
        !is_test_email ==> r@ == generated@,
{
    if is_test_email {
        let v = vec!['4', '4', '4', '4'];
        crate::text::string_from_chars(&v)
    } else {
        generated
    }
}

/// Wrong codes are counted one by one from a fresh session, and the account is locked by the
/// fifth and by no earlier one: the answer to a wrong code after `attempt` failures (while codes
/// are still checked) writes back `attempt + 1` and locks exactly when that is five.
pub proof fn law_fifth_mismatch_locks(attempt: i32)
    requires
        0 <= attempt <= MAX_EMAIL_OTP_ATTEMPTS,
    ensures
        mismatch_after(attempt).0 == attempt + 1,
        mismatch_after(attempt).1 <==> attempt + 1 == 5,
{
}

} // verus!
