use vstd::prelude::*;

use super::sign_in::{mismatch_after, MAX_EMAIL_OTP_ATTEMPTS};
use crate::outside::{bcrypt_matches, password_hash};
use crate::text::equal_str;

verus! {

/// What verifying an e-mailed sign-up code answers.
#[derive(Clone, Copy, Debug, PartialEq, Eq, Structural)]
pub enum SignUpOtpOutcome {
    /// More than four attempts have failed.
    TooManyAttempts,
    /// The code is wrong: the counter to write back, and whether the account gets locked.
    Mismatch { attempt: i32, lock_account: bool },
    /// The code is right.
    Verified,
}

/// The decision for a sign-up session with `attempt` failures and code `stored`, on the typed
/// code `given`.
pub open spec fn sign_up_otp_decision(attempt: i32, stored: Seq<char>, given: Seq<char>) -> SignUpOtpOutcome {
    if attempt > MAX_EMAIL_OTP_ATTEMPTS {
        SignUpOtpOutcome::TooManyAttempts
    } else if stored != given {
        SignUpOtpOutcome::Mismatch {
            attempt: mismatch_after(attempt).0,
            lock_account: mismatch_after(attempt).1,
        }
    } else {
        SignUpOtpOutcome::Verified
    }
}

/// Decides an e-mailed sign-up code once the session has been read.
pub fn decide_sign_up_otp(attempt: i32, stored: &str, given: &str) -> (r: SignUpOtpOutcome)
    ensures
        r == sign_up_otp_decision(attempt, stored@, given@),
{
    if attempt > MAX_EMAIL_OTP_ATTEMPTS {
        return SignUpOtpOutcome::TooManyAttempts;
    }
    if !equal_str(stored, given) {
        let next = attempt + 1;
        return SignUpOtpOutcome::Mismatch {
            attempt: next,
            lock_account: next > MAX_EMAIL_OTP_ATTEMPTS,
        };
    }
    SignUpOtpOutcome::Verified
}

/// The resend counter to write after one more sign-up code, or `None` when more than four
/// resends have been asked for already.
pub fn next_sign_up_resend_attempt(resend_attempt: i32) -> (r: Option<i32>)
    ensures
        resend_attempt > 4 ==> r is None,
        resend_attempt <= 4 ==> r == Some((resend_attempt + 1) as i32),
{
    if resend_attempt > 4 {
        None
    } else {
        Some(resend_attempt + 1)
    }
}

/// The hash stored as the password of an account signing up with `password`; none when no
/// hash can be made (the sign-up is then refused).
pub fn sign_up_password_hash(password: &str) -> (r: Option<String>)
    ensures
        r matches Some(h) ==> bcrypt_matches(password@, h@),
{
    password_hash(password)
}

/// The state of an account that has signed up by e-mail.
#[derive(Clone, Copy, Debug, PartialEq, Eq, Structural)]
pub enum CredentialStatus {
    /// The account waits for its e-mailed code to be confirmed.
    WaitingConfirmation,
}

/// The record of an account created by an e-mail sign-up: no name or username yet, its
/// e-mail, the hash of its password, and waiting for confirmation.
#[derive(Clone, Debug)]
pub struct NewCredential {
    pub full_name: String,
    pub username: String,
    pub email: String,
    pub password: String,
    pub status: CredentialStatus,
}

/// The record of the account signing up with `email`, once hashing its password gave
/// `hash`; none when no hash was made.
pub fn new_credential_with_hash(email: &str, hash: Option<String>) -> (r: Option<NewCredential>)
    ensures
        hash is None ==> r is None,
        hash matches Some(h) ==> r matches Some(c) && c.full_name@.len() == 0 && c.username@.len()
            == 0 && c.email@ == email@ && c.password@ == h@ && c.status
            == CredentialStatus::WaitingConfirmation,
{
    match hash {
        Some(h) => Some(
            NewCredential {
                full_name: String::new(),
                username: String::new(),
                email: email.to_string(),
                password: h,
                status: CredentialStatus::WaitingConfirmation,
            },
        ),
        None => None,
    }
}

/// The record of the account signing up with `email` and `password`: its password is stored
/// hashed, and the account waits for confirmation. None when no hash can be made.
pub fn new_credential(email: &str, password: &str) -> (r: Option<NewCredential>)
    ensures
        r matches Some(c) ==> c.full_name@.len() == 0 && c.username@.len() == 0 && c.email@
            == email@ && bcrypt_matches(password@, c.password@) && c.status
            == CredentialStatus::WaitingConfirmation,
{
    let hash = sign_up_password_hash(password);
    new_credential_with_hash(email, hash)
}

} // verus!
