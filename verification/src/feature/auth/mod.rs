pub mod auth;
pub mod auth_model;
pub mod forgot_password;
pub mod sign_in;
pub mod sign_up;

use vstd::prelude::*;

use crate::text::{
    chars_of, equal_str, has_prefix, lemma_remove_char_absent, lemma_remove_char_identity,
    matches_at, remove_char, remove_char_chars, replace_all, replace_all_chars, string_from_chars,
};
use crate::decimal::{i64_of, law_session_counter_round_trip, text_of_int};
use crate::object_id::{key_of_text, key_view, parse_object_id, ObjectKey};

verus! {

// ---------------------------------------------------------------------------
// Phone numbers
// ---------------------------------------------------------------------------

/// The local prefix of an Indonesian mobile number.
pub open spec fn local_prefix() -> Seq<char> {
    seq!['0', '8']
}

/// The international form of that prefix.
pub open spec fn international_prefix() -> Seq<char> {
    seq!['6', '2', '8']
}

/// The phone number under which an account is looked up: when it starts with `08`, every
/// `08` in it becomes `628`; then every `-`, `+` and space is taken out.
pub open spec fn normalized_phone(p: Seq<char>) -> Seq<char> {
    let a = if has_prefix(p, local_prefix()) {
        replace_all(p, local_prefix(), international_prefix())
    } else {
        p
    };
    remove_char(remove_char(remove_char(a, '-'), '+'), ' ')
}

/// Puts a phone number in the form under which accounts are stored (applied to a request for
/// a one-time password before the account is looked up).
pub fn normalize_phone_number(phone: &str) -> (out: String)
    ensures
        out@ == normalized_phone(phone@),
{
    let v = chars_of(phone);
    let local = vec!['0', '8'];
    let international = vec!['6', '2', '8'];
    assert(local@ =~= local_prefix());
    assert(international@ =~= international_prefix());
    let starts = matches_at(&v, 0, &local);
    proof {
        if local@.len() <= v@.len() {
            assert(v@.take(2) =~= v@.subrange(0, 2));
        }
    }
    let a = if starts {
        replace_all_chars(&v, &local, &international)
    } else {
        v
    };
    let b = remove_char_chars(&a, '-');
    let c = remove_char_chars(&b, '+');
    let d = remove_char_chars(&c, ' ');
    string_from_chars(&d)
}

/// A normalised phone number holds no `-`, `+` or space.
pub proof fn law_normalized_phone_has_no_separators(p: Seq<char>)
    ensures
        !normalized_phone(p).contains('-'),
        !normalized_phone(p).contains('+'),
        !normalized_phone(p).contains(' '),
{
    let a = if has_prefix(p, local_prefix()) {
        replace_all(p, local_prefix(), international_prefix())
    } else {
        p
    };
    let b = remove_char(a, '-');
    let c = remove_char(b, '+');
    lemma_remove_char_absent(c, ' ', '-');
    lemma_remove_char_absent(b, '+', '-');
    lemma_remove_char_absent(a, '-', '-');
    lemma_remove_char_absent(c, ' ', '+');
    lemma_remove_char_absent(b, '+', '+');
    lemma_remove_char_absent(c, ' ', ' ');
}

/// A number that does not start with `08` and holds no `-`, `+` or space is already in
/// normal form.
pub proof fn law_normalized_phone_keeps_plain_numbers(p: Seq<char>)
    requires
        !has_prefix(p, local_prefix()),
        !p.contains('-'),
        !p.contains('+'),
        !p.contains(' '),
    ensures
        normalized_phone(p) == p,
{
    lemma_remove_char_identity(p, '-');
    lemma_remove_char_identity(p, '+');
    lemma_remove_char_identity(p, ' ');
}

/// Normalising a number a second time changes nothing, unless the first pass made it start
/// with `08` (as taking the separators out of `0-812` does).
pub proof fn law_normalized_phone_stable(p: Seq<char>)
    requires
        !has_prefix(normalized_phone(p), local_prefix()),
    ensures
        normalized_phone(normalized_phone(p)) == normalized_phone(p),
{
    law_normalized_phone_has_no_separators(p);
    law_normalized_phone_keeps_plain_numbers(normalized_phone(p));
}

/// Taking `c` out of a sequence that starts with another character keeps that character first.
proof fn lemma_remove_char_keeps_head(s: Seq<char>, c: char)
    requires
        s.len() > 0,
        s[0] != c,
    ensures
        remove_char(s, c) == seq![s[0]] + remove_char(s.skip(1), c),
{
}

/// A number written with the local prefix `08` comes out with `628` in front, so a second
/// normalisation leaves it as it is.
pub proof fn law_normalized_local_number_is_stable(p: Seq<char>)
    requires
        has_prefix(p, local_prefix()),
    ensures
        has_prefix(normalized_phone(p), international_prefix()),
        normalized_phone(normalized_phone(p)) == normalized_phone(p),
{
    let a = replace_all(p, local_prefix(), international_prefix());
    assert(a == international_prefix() + replace_all(p.skip(2), local_prefix(), international_prefix()));
    assert(a[0] == '6' && a[1] == '2' && a[2] == '8');
    let b = remove_char(a, '-');
    lemma_remove_char_keeps_head(a, '-');
    lemma_remove_char_keeps_head(a.skip(1), '-');
    lemma_remove_char_keeps_head(a.skip(1).skip(1), '-');
    assert(b[0] == '6' && b[1] == '2' && b[2] == '8');
    let c = remove_char(b, '+');
    lemma_remove_char_keeps_head(b, '+');
    lemma_remove_char_keeps_head(b.skip(1), '+');
    lemma_remove_char_keeps_head(b.skip(1).skip(1), '+');
    assert(c[0] == '6' && c[1] == '2' && c[2] == '8');
    let d = remove_char(c, ' ');
    lemma_remove_char_keeps_head(c, ' ');
    lemma_remove_char_keeps_head(c.skip(1), ' ');
    lemma_remove_char_keeps_head(c.skip(1).skip(1), ' ');
    assert(d[0] == '6' && d[1] == '2' && d[2] == '8');
    assert(d.take(3) =~= international_prefix());
    assert(d.take(2) != local_prefix()) by {
        assert(d.take(2)[0] == '6');
    }
    law_normalized_phone_stable(p);
}

// ---------------------------------------------------------------------------
// Account status
// ---------------------------------------------------------------------------

/// The status recorded on an account.
#[derive(Clone, Copy, Debug, PartialEq, Eq, Structural)]
pub enum AccountStatus {
    Active,
    WaitingActivation,
    Other,
}

/// An account may receive and use one-time passwords when it is active or still waiting for
/// activation; an account without a status counts as waiting for activation.
pub open spec fn otp_status_allowed(status: Option<AccountStatus>) -> bool {
    match status {
        None => true,
        Some(AccountStatus::Active) => true,
        Some(AccountStatus::WaitingActivation) => true,
        Some(AccountStatus::Other) => false,
    }
}

/// Whether an account with this status may sign in by one-time password.
pub fn is_otp_status_allowed(status: Option<AccountStatus>) -> (r: bool)
    ensures
        r == otp_status_allowed(status),
{
    match status {
        None => true,
        Some(AccountStatus::Active) => true,
        Some(AccountStatus::WaitingActivation) => true,
        Some(AccountStatus::Other) => false,
    }
}

// ---------------------------------------------------------------------------
// Verifying a one-time password sent by SMS
// ---------------------------------------------------------------------------

/// The number of failed attempts after which a one-time-password session is locked.
pub const MAX_OTP_ATTEMPTS: i64 = 3;

/// The number of minutes after which a one-time password has expired.
pub const OTP_EXPIRY_MINUTES: i64 = 2;

/// What checking a one-time password answers.
#[derive(Clone, Copy, Debug, PartialEq, Eq, Structural)]
pub enum VerifyOtpOutcome {
    /// Three attempts have failed already.
    MaxAttempt,
    /// The code is two minutes old or older.
    Expired,
    /// The token was issued for another kind of session.
    InvalidType,
    /// The code is wrong.
    InvalidOtp,
    /// The code is right: the account is activated and signed in.
    Verified,
}

/// The answer and the attempt counter to write back into the session, if any.
#[derive(Clone, Copy, Debug, PartialEq, Eq, Structural)]
pub struct VerifyOtpDecision {
    pub outcome: VerifyOtpOutcome,
    pub attempt_to_store: Option<i64>,
}

/// The decision on a one-time password for a session that has failed `attempt` times, whose code was
/// sent `elapsed_minutes` ago, whose kind is `session_type` and whose code is `session_otp`,
/// on a token of kind `provider` and a typed code `given`.
pub open spec fn verify_otp_decision(
    attempt: i64,
    elapsed_minutes: i64,
    provider: Seq<char>,
    session_type: Seq<char>,
    session_otp: Seq<char>,
    given: Seq<char>,
) -> VerifyOtpDecision {
    if attempt >= MAX_OTP_ATTEMPTS {
        VerifyOtpDecision { outcome: VerifyOtpOutcome::MaxAttempt, attempt_to_store: None }
    } else if elapsed_minutes >= OTP_EXPIRY_MINUTES {
        VerifyOtpDecision {
            outcome: VerifyOtpOutcome::Expired,
            attempt_to_store: Some((attempt + 1) as i64),
        }
    } else if provider != session_type {
        VerifyOtpDecision {
            outcome: VerifyOtpOutcome::InvalidType,
            attempt_to_store: Some((attempt + 1) as i64),
        }
    } else if session_otp != given {
        VerifyOtpDecision {
            outcome: VerifyOtpOutcome::InvalidOtp,
            attempt_to_store: Some((attempt + 1) as i64),
        }
    } else {
        VerifyOtpDecision { outcome: VerifyOtpOutcome::Verified, attempt_to_store: None }
    }
}

/// The account a one-time-password session is for: the record id that the session's user id
/// spells. None refuses the check at once, before the account is read and before any other
/// part of the session is looked at.
pub fn verify_otp_session_user(session_user_id: &str) -> (r: Option<ObjectKey>)
    ensures
        key_view(r) == key_of_text(session_user_id@),
{
    parse_object_id(session_user_id)
}

/// Decides a one-time password check once the session and the account have been read.
pub fn decide_verify_otp(
    attempt: i64,
    elapsed_minutes: i64,
    provider: &str,
    session_type: &str,
    session_otp: &str,
    given: &str,
) -> (d: VerifyOtpDecision)
    ensures
        d == verify_otp_decision(
            attempt,
            elapsed_minutes,
            provider@,
            session_type@,
            session_otp@,
            given@,
        ),
{
    if attempt >= MAX_OTP_ATTEMPTS {
        return VerifyOtpDecision { outcome: VerifyOtpOutcome::MaxAttempt, attempt_to_store: None };
    }
    if elapsed_minutes >= OTP_EXPIRY_MINUTES {
        return VerifyOtpDecision {
            outcome: VerifyOtpOutcome::Expired,
            attempt_to_store: Some(attempt + 1),
        };
    }
    if !equal_str(provider, session_type) {
        return VerifyOtpDecision {
            outcome: VerifyOtpOutcome::InvalidType,
            attempt_to_store: Some(attempt + 1),
        };
    }
    if !equal_str(session_otp, given) {
        return VerifyOtpDecision {
            outcome: VerifyOtpOutcome::InvalidOtp,
            attempt_to_store: Some(attempt + 1),
        };
    }
    VerifyOtpDecision { outcome: VerifyOtpOutcome::Verified, attempt_to_store: None }
}

/// A code is accepted exactly when fewer than three attempts have failed, it is younger than
/// two minutes, the token is of the session's kind and the code matches.
pub proof fn law_verify_otp_accepts_exactly(
    attempt: i64,
    elapsed_minutes: i64,
    provider: Seq<char>,
    session_type: Seq<char>,
    session_otp: Seq<char>,
    given: Seq<char>,
)
    ensures
        verify_otp_decision(
            attempt,
            elapsed_minutes,
            provider,
            session_type,
            session_otp,
            given,
        ).outcome == VerifyOtpOutcome::Verified <==> (attempt < 3 && elapsed_minutes < 2
            && provider == session_type && session_otp == given),
{
}

/// Every refusal other than the lock counts one more failed attempt; the lock and a success
/// write no counter.
pub proof fn law_verify_otp_counts_failures(
    attempt: i64,
    elapsed_minutes: i64,
    provider: Seq<char>,
    session_type: Seq<char>,
    session_otp: Seq<char>,
    given: Seq<char>,
)
    ensures
        ({
            let d = verify_otp_decision(
                attempt,
                elapsed_minutes,
                provider,
                session_type,
                session_otp,
                given,
            );
            &&& (d.outcome == VerifyOtpOutcome::MaxAttempt || d.outcome
                == VerifyOtpOutcome::Verified) ==> d.attempt_to_store is None
            &&& (d.outcome != VerifyOtpOutcome::MaxAttempt && d.outcome
                != VerifyOtpOutcome::Verified) ==> d.attempt_to_store == Some((attempt + 1) as i64)
        }),
{
}

/// Once three attempts have failed, no code is accepted any more, not even the right one.
pub proof fn law_verify_otp_locks_after_three_failures(
    elapsed_minutes: i64,
    provider: Seq<char>,
    session_type: Seq<char>,
    session_otp: Seq<char>,
    given: Seq<char>,
    attempt: i64,
)
    requires
        attempt >= 3,
    ensures
        verify_otp_decision(
            attempt,
            elapsed_minutes,
            provider,
            session_type,
            session_otp,
            given,
        ) == (VerifyOtpDecision { outcome: VerifyOtpOutcome::MaxAttempt, attempt_to_store: None }),
{
}

/// Three failed verifications of a fresh session (whose counter is written as text and read
/// back between calls) lock it: the fourth is refused, whatever code it carries.
pub proof fn law_verify_otp_three_strikes(
    e1: i64,
    p1: Seq<char>,
    g1: Seq<char>,
    e2: i64,
    p2: Seq<char>,
    g2: Seq<char>,
    e3: i64,
    p3: Seq<char>,
    g3: Seq<char>,
    e4: i64,
    p4: Seq<char>,
    g4: Seq<char>,
    session_type: Seq<char>,
    session_otp: Seq<char>,
)
    requires
        verify_otp_decision(0, e1, p1, session_type, session_otp, g1).outcome
            != VerifyOtpOutcome::Verified,
        verify_otp_decision(1, e2, p2, session_type, session_otp, g2).outcome
            != VerifyOtpOutcome::Verified,
        verify_otp_decision(2, e3, p3, session_type, session_otp, g3).outcome
            != VerifyOtpOutcome::Verified,
    ensures
        ({
            let d1 = verify_otp_decision(0, e1, p1, session_type, session_otp, g1);
            let a1 = i64_of(text_of_int(d1.attempt_to_store->0 as int))->0;
            let d2 = verify_otp_decision(a1, e2, p2, session_type, session_otp, g2);
            let a2 = i64_of(text_of_int(d2.attempt_to_store->0 as int))->0;
            let d3 = verify_otp_decision(a2, e3, p3, session_type, session_otp, g3);
            let a3 = i64_of(text_of_int(d3.attempt_to_store->0 as int))->0;
            &&& a1 == 1 && a2 == 2 && a3 == 3
            &&& verify_otp_decision(a3, e4, p4, session_type, session_otp, g4).outcome
                == VerifyOtpOutcome::MaxAttempt
        }),
{
    law_session_counter_round_trip(1);
    law_session_counter_round_trip(2);
    law_session_counter_round_trip(3);
}

// ---------------------------------------------------------------------------
// Sending a one-time password again
// ---------------------------------------------------------------------------

/// What a request for a fresh one-time password answers.
#[derive(Clone, Copy, Debug, PartialEq, Eq, Structural)]
pub enum ResendOtpOutcome {
    /// The account may not use one-time passwords.
    StatusNotAllowed,
    /// Three attempts have failed already.
    MaxAttempt,
    /// The last code is two minutes old or younger: wait.
    Waiting,
    /// The token was issued for another kind of session.
    InvalidType,
    /// A fresh code is sent.
    Resend,
}

/// The decision on a request for a fresh one-time password.
pub open spec fn resend_otp_decision(
    status: Option<AccountStatus>,
    attempt: i64,
    elapsed_minutes: i64,
    provider: Seq<char>,
    session_type: Seq<char>,
) -> ResendOtpOutcome {
    if !otp_status_allowed(status) {
        ResendOtpOutcome::StatusNotAllowed
    } else if attempt >= MAX_OTP_ATTEMPTS {
        ResendOtpOutcome::MaxAttempt
    } else if elapsed_minutes <= OTP_EXPIRY_MINUTES {
        ResendOtpOutcome::Waiting
    } else if provider != session_type {
        ResendOtpOutcome::InvalidType
    } else {
        ResendOtpOutcome::Resend
    }
}

/// Decides a request for a fresh one-time password once the session and the account have been read.
pub fn decide_resend_otp(
    status: Option<AccountStatus>,
    attempt: i64,
    elapsed_minutes: i64,
    provider: &str,
    session_type: &str,
) -> (r: ResendOtpOutcome)
    ensures
        r == resend_otp_decision(status, attempt, elapsed_minutes, provider@, session_type@),
{
    if !is_otp_status_allowed(status) {
        return ResendOtpOutcome::StatusNotAllowed;
    }
    if attempt >= MAX_OTP_ATTEMPTS {
        return ResendOtpOutcome::MaxAttempt;
    }
    if elapsed_minutes <= OTP_EXPIRY_MINUTES {
        return ResendOtpOutcome::Waiting;
    }
    if !equal_str(provider, session_type) {
        return ResendOtpOutcome::InvalidType;
    }
    ResendOtpOutcome::Resend
}

/// A locked session gets no new code either.
pub proof fn law_resend_refused_when_locked(
    status: Option<AccountStatus>,
    attempt: i64,
    elapsed_minutes: i64,
    provider: Seq<char>,
    session_type: Seq<char>,
)
    requires
        attempt >= 3,
    ensures
        resend_otp_decision(status, attempt, elapsed_minutes, provider, session_type)
            != ResendOtpOutcome::Resend,
{
}

/// A code exactly two minutes old is refused as expired, while a fresh code is not sent yet:
/// for that minute the session can neither be verified nor renewed.
pub proof fn law_two_minute_gap(
    status: Option<AccountStatus>,
    attempt: i64,
    provider: Seq<char>,
    session_type: Seq<char>,
    session_otp: Seq<char>,
    given: Seq<char>,
)
    requires
        attempt < 3,
        otp_status_allowed(status),
    ensures
        verify_otp_decision(attempt, 2, provider, session_type, session_otp, given).outcome
            == VerifyOtpOutcome::Expired,
        resend_otp_decision(status, attempt, 2, provider, session_type) == ResendOtpOutcome::Waiting,
{
}

} // verus!
