use vstd::prelude::*;

use crate::outside::{bcrypt_matches, password_hash, password_matches};

verus! {

/// Whether `password` is the password whose hash is stored (a hash that cannot be read counts
/// as a mismatch).
pub fn verify_password(password: &str, stored_hash: &str) -> (r: bool)
    ensures
        r == bcrypt_matches(password@, stored_hash@),
{
    password_matches(password, stored_hash)
}

/// Why a password change was refused.
#[derive(Clone, Copy, Debug, PartialEq, Eq, Structural)]
pub enum ChangePasswordError {
    /// The current password given is not the account's password.
    PasswordInvalid,
    /// No hash could be made of the new password.
    NewPasswordInvalid,
}

/// The hash to store for a password change of an account whose stored hash is
/// `stored_hash`: refused when `current_password` does not match it; otherwise a fresh hash of
/// `new_password`, or a refusal when hashing fails.
pub fn change_password_hash(
    current_password: &str,
    new_password: &str,
    stored_hash: &str,
) -> (r: Result<String, ChangePasswordError>)
    ensures
        !bcrypt_matches(current_password@, stored_hash@) <==> r == Err::<String, ChangePasswordError>(
            ChangePasswordError::PasswordInvalid,
        ),
        r matches Err(e) ==> e == ChangePasswordError::PasswordInvalid || e
            == ChangePasswordError::NewPasswordInvalid,
        r matches Ok(h) ==> bcrypt_matches(new_password@, h@),
{
    if !verify_password(current_password, stored_hash) {
        return Err(ChangePasswordError::PasswordInvalid);
    }
    match password_hash(new_password) {
        Some(h) => Ok(h),
        None => Err(ChangePasswordError::NewPasswordInvalid),
    }
}

} // verus!
