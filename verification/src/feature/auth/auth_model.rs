use vstd::prelude::*;

use crate::validation::{
    check_email, check_min_len, errors_view, finish, flag, min_len, note, validation_outcome,
    FieldError, Rule,
};
use crate::outside::email_is_valid;

verus! {

/// A request for a one-time password sent to a phone number.
#[derive(Clone, Debug)]
pub struct AuthOTPRequest {
    pub phone_number: String,
}

impl AuthOTPRequest {
    /// The rules the body breaks: the phone number needs at least 4 characters.
    pub open spec fn violations(&self) -> Seq<(Seq<char>, Rule)> {
        flag(min_len(self.phone_number@, 4), "phone_number"@, Rule::Length)
    }

    /// Checks the body against its rules.
    pub fn validate(&self) -> (r: Result<(), Vec<FieldError>>)
        ensures
            validation_outcome(r, self.violations()),
    {
        let mut errs: Vec<FieldError> = Vec::new();
        note(check_min_len(&self.phone_number, 4), "phone_number", Rule::Length, &mut errs);
        assert(errors_view(errs@) =~= self.violations());
        finish(errs)
    }
}

/// The one-time password a user types in.
#[derive(Clone, Debug)]
pub struct VerifyOTPRequest {
    pub otp: String,
}

impl VerifyOTPRequest {
    /// The rules the body breaks: the code needs at least 4 characters.
    pub open spec fn violations(&self) -> Seq<(Seq<char>, Rule)> {
        flag(min_len(self.otp@, 4), "otp"@, Rule::Length)
    }

    /// Checks the body against its rules.
    pub fn validate(&self) -> (r: Result<(), Vec<FieldError>>)
        ensures
            validation_outcome(r, self.violations()),
    {
        let mut errs: Vec<FieldError> = Vec::new();
        note(check_min_len(&self.otp, 4), "otp", Rule::Length, &mut errs);
        assert(errors_view(errs@) =~= self.violations());
        finish(errs)
    }
}

/// Sign-in with e-mail and password.
#[derive(Clone, Debug)]
pub struct SignInEmailRequest {
    pub email: String,
    pub password: String,
}

impl SignInEmailRequest {
    /// The rules the body breaks: an e-mail address and a non-empty password.
    pub open spec fn violations(&self) -> Seq<(Seq<char>, Rule)> {
        flag(email_is_valid(self.email@), "email"@, Rule::Email) + flag(
            min_len(self.password@, 1),
            "password"@,
            Rule::Length,
        )
    }

    /// Checks the body against its rules.
    pub fn validate(&self) -> (r: Result<(), Vec<FieldError>>)
        ensures
            validation_outcome(r, self.violations()),
    {
        let mut errs: Vec<FieldError> = Vec::new();
        note(check_email(&self.email), "email", Rule::Email, &mut errs);
        note(check_min_len(&self.password, 1), "password", Rule::Length, &mut errs);
        assert(errors_view(errs@) =~= self.violations());
        finish(errs)
    }
}

/// A request to reset the password of the account with this e-mail address.
#[derive(Clone, Debug)]
pub struct ResetPasswordRequest {
    pub email: String,
}

impl ResetPasswordRequest {
    /// The rules the body breaks: an e-mail address.
    pub open spec fn violations(&self) -> Seq<(Seq<char>, Rule)> {
        flag(email_is_valid(self.email@), "email"@, Rule::Email)
    }

    /// Checks the body against its rules.
    pub fn validate(&self) -> (r: Result<(), Vec<FieldError>>)
        ensures
            validation_outcome(r, self.violations()),
    {
        let mut errs: Vec<FieldError> = Vec::new();
        note(check_email(&self.email), "email", Rule::Email, &mut errs);
        assert(errors_view(errs@) =~= self.violations());
        finish(errs)
    }
}

/// The session token handed out when a one-time password was sent.
#[derive(Clone, Debug)]
pub struct AuthOTPResponse {
    pub token: String,
}

/// The token handed out when a password-reset code was accepted.
#[derive(Clone, Debug)]
pub struct VerifyResetPasswordResponse {
    pub token: String,
}

/// The new password chosen after a reset.
#[derive(Clone, Debug)]
pub struct SetNewPasswordRequest {
    pub new_password: String,
}

} // verus!
