use gymspace::feature::auth::auth::{change_password_hash, verify_password, ChangePasswordError};
use gymspace::feature::auth::auth_model::{AuthOTPRequest, SignInEmailRequest, VerifyOTPRequest};
use gymspace::feature::auth::forgot_password::{decide_reset_otp, next_resend_attempt, ResetOtpOutcome};
use gymspace::feature::auth::sign_in::{code_to_send, decide_sign_in_otp, SignInOtpOutcome};
use gymspace::feature::auth::sign_up::{decide_sign_up_otp, next_sign_up_resend_attempt, SignUpOtpOutcome};
use gymspace::feature::auth::{
    decide_resend_otp, decide_verify_otp, is_otp_status_allowed, normalize_phone_number,
    AccountStatus, ResendOtpOutcome, VerifyOtpOutcome,
};
use gymspace::validation::Rule;

#[test]
fn phone_with_local_prefix_becomes_international() {
    assert_eq!(normalize_phone_number("081234567890"), "6281234567890");
}

#[test]
fn phone_separators_are_removed() {
    assert_eq!(normalize_phone_number("+62 812-3456-7890"), "6281234567890");
    assert_eq!(normalize_phone_number("0812 3456-789"), "628123456789");
}

#[test]
fn phone_every_local_prefix_is_rewritten() {
    // `replace` rewrites every `08`, not only the leading one.
    assert_eq!(normalize_phone_number("0812080"), "628126280");
}

#[test]
fn phone_without_local_prefix_keeps_inner_08() {
    assert_eq!(normalize_phone_number("6281208"), "6281208");
}

#[test]
fn phone_normalisation_is_not_idempotent_across_separators() {
    let once = normalize_phone_number("0-812");
    assert_eq!(once, "0812");
    assert_eq!(normalize_phone_number(&once), "62812");
}

#[test]
fn otp_request_needs_four_characters() {
    let ok = AuthOTPRequest { phone_number: "0812".to_string() };
    assert!(ok.validate().is_ok());
    let short = AuthOTPRequest { phone_number: "081".to_string() };
    let errs = short.validate().unwrap_err();
    assert_eq!(errs.len(), 1);
    assert_eq!(errs[0].field, "phone_number");
    assert_eq!(errs[0].rule, Rule::Length);
}

#[test]
fn otp_code_needs_four_characters() {
    assert!(VerifyOTPRequest { otp: "1234".to_string() }.validate().is_ok());
    assert!(VerifyOTPRequest { otp: "123".to_string() }.validate().is_err());
}

#[test]
fn sign_in_email_reports_both_fields() {
    let bad = SignInEmailRequest { email: "no-at-sign".to_string(), password: String::new() };
    let errs = bad.validate().unwrap_err();
    assert_eq!(errs.len(), 2);
    assert_eq!(errs[0].field, "email");
    assert_eq!(errs[0].rule, Rule::Email);
    assert_eq!(errs[1].field, "password");
    assert_eq!(errs[1].rule, Rule::Length);
    let good = SignInEmailRequest { email: "user@example.com".to_string(), password: "x".to_string() };
    assert!(good.validate().is_ok());
}

#[test]
fn account_status_rule() {
    assert!(is_otp_status_allowed(None));
    assert!(is_otp_status_allowed(Some(AccountStatus::Active)));
    assert!(is_otp_status_allowed(Some(AccountStatus::WaitingActivation)));
    assert!(!is_otp_status_allowed(Some(AccountStatus::Other)));
}

#[test]
fn verify_otp_success() {
    let d = decide_verify_otp(0, 1, "otp-sign-in", "otp-sign-in", "123456", "123456");
    assert_eq!(d.outcome, VerifyOtpOutcome::Verified);
    assert_eq!(d.attempt_to_store, None);
}

#[test]
fn verify_otp_refusals_in_order() {
    let d = decide_verify_otp(3, 0, "a", "a", "1", "1");
    assert_eq!(d.outcome, VerifyOtpOutcome::MaxAttempt);
    assert_eq!(d.attempt_to_store, None);
    let d = decide_verify_otp(1, 2, "a", "b", "1", "2");
    assert_eq!(d.outcome, VerifyOtpOutcome::Expired);
    assert_eq!(d.attempt_to_store, Some(2));
    let d = decide_verify_otp(1, 1, "a", "b", "1", "2");
    assert_eq!(d.outcome, VerifyOtpOutcome::InvalidType);
    assert_eq!(d.attempt_to_store, Some(2));
    let d = decide_verify_otp(2, 1, "a", "a", "1", "2");
    assert_eq!(d.outcome, VerifyOtpOutcome::InvalidOtp);
    assert_eq!(d.attempt_to_store, Some(3));
}

#[test]
fn verify_otp_locks_after_three_failures() {
    let mut attempt = 0;
    for _ in 0..3 {
        let d = decide_verify_otp(attempt, 0, "a", "a", "1111", "2222");
        assert_eq!(d.outcome, VerifyOtpOutcome::InvalidOtp);
        attempt = d.attempt_to_store.unwrap();
    }
    assert_eq!(attempt, 3);
    let d = decide_verify_otp(attempt, 0, "a", "a", "1111", "1111");
    assert_eq!(d.outcome, VerifyOtpOutcome::MaxAttempt);
}

#[test]
fn resend_otp_rules() {
    assert_eq!(decide_resend_otp(Some(AccountStatus::Other), 0, 5, "a", "a"), ResendOtpOutcome::StatusNotAllowed);
    assert_eq!(decide_resend_otp(None, 3, 5, "a", "a"), ResendOtpOutcome::MaxAttempt);
    assert_eq!(decide_resend_otp(None, 0, 2, "a", "a"), ResendOtpOutcome::Waiting);
    assert_eq!(decide_resend_otp(None, 0, 3, "a", "b"), ResendOtpOutcome::InvalidType);
    assert_eq!(decide_resend_otp(None, 0, 3, "a", "a"), ResendOtpOutcome::Resend);
}

#[test]
fn two_minute_old_code_is_expired_but_cannot_be_resent_yet() {
    assert_eq!(decide_verify_otp(0, 2, "a", "a", "1", "1").outcome, VerifyOtpOutcome::Expired);
    assert_eq!(decide_resend_otp(None, 0, 2, "a", "a"), ResendOtpOutcome::Waiting);
}

#[test]
fn reset_code_rules() {
    assert_eq!(decide_reset_otp(false, 0, "1", "1"), ResetOtpOutcome::Expired);
    assert_eq!(decide_reset_otp(true, 5, "1", "1"), ResetOtpOutcome::TooManyAttempts);
    assert_eq!(decide_reset_otp(true, 4, "1", "2"), ResetOtpOutcome::Mismatch { attempt: 5 });
    assert_eq!(decide_reset_otp(true, 4, "1", "1"), ResetOtpOutcome::Verified);
}

#[test]
fn resend_counters() {
    assert_eq!(next_resend_attempt(0), Some(1));
    assert_eq!(next_resend_attempt(4), Some(5));
    assert_eq!(next_resend_attempt(5), None);
    assert_eq!(next_sign_up_resend_attempt(4), Some(5));
    assert_eq!(next_sign_up_resend_attempt(5), None);
}

#[test]
fn sign_in_code_rules() {
    let id = "507f1f77bcf86cd799439011";
    assert!(matches!(decide_sign_in_otp(5, id, "1", "1"), SignInOtpOutcome::TooManyAttempts));
    assert!(matches!(decide_sign_in_otp(0, "n/a", "1", "1"), SignInOtpOutcome::SessionNotFound));
    assert!(matches!(
        decide_sign_in_otp(3, id, "1", "2"),
        SignInOtpOutcome::Mismatch { attempt: 4, lock_account: false }
    ));
    assert!(matches!(
        decide_sign_in_otp(4, id, "1", "2"),
        SignInOtpOutcome::Mismatch { attempt: 5, lock_account: true }
    ));
    match decide_sign_in_otp(0, id, "1", "1") {
        SignInOtpOutcome::Verified { user_id } => {
            assert_eq!(user_id.bytes, vec![0x50, 0x7f, 0x1f, 0x77, 0xbc, 0xf8, 0x6c, 0xd7, 0x99, 0x43, 0x90, 0x11]);
        }
        _ => panic!("expected a verified code"),
    }
}

#[test]
fn sign_up_code_rules() {
    assert_eq!(decide_sign_up_otp(5, "1", "1"), SignUpOtpOutcome::TooManyAttempts);
    assert_eq!(decide_sign_up_otp(0, "1", "2"), SignUpOtpOutcome::Mismatch { attempt: 1, lock_account: false });
    assert_eq!(decide_sign_up_otp(4, "1", "2"), SignUpOtpOutcome::Mismatch { attempt: 5, lock_account: true });
    assert_eq!(decide_sign_up_otp(4, "1", "1"), SignUpOtpOutcome::Verified);
}

#[test]
fn test_address_gets_fixed_code() {
    assert_eq!(code_to_send("918273".to_string(), true), "4444");
    assert_eq!(code_to_send("918273".to_string(), false), "918273");
}

#[test]
fn password_check_uses_bcrypt() {
    let hash = bcrypt::hash("secret-pass", 4).unwrap();
    assert!(verify_password("secret-pass", &hash));
    assert!(!verify_password("other-pass", &hash));
    assert!(!verify_password("secret-pass", "not a bcrypt hash"));
}

#[test]
fn change_password_flow() {
    let hash = bcrypt::hash("old-password", 4).unwrap();
    assert_eq!(change_password_hash("wrong-password", "new-password", &hash), Err(ChangePasswordError::PasswordInvalid));
    let new_hash = change_password_hash("old-password", "new-password", &hash).unwrap();
    assert!(bcrypt::verify("new-password", &new_hash).unwrap());
    assert!(!bcrypt::verify("old-password", &new_hash).unwrap());
}

#[test]
fn phone_normalisation_of_local_numbers_is_stable() {
    for raw in ["0812-3456 789", "08+08", "08"] {
        let once = normalize_phone_number(raw);
        assert!(once.starts_with("628"));
        assert_eq!(normalize_phone_number(&once), once);
    }
}
