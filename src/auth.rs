//! The rules of registration and login, around the credential checks the
//! host performs.

use vstd::prelude::*;
use vstd::string::StringExecFns;

verus! {

/// Why a registration or login is refused.
#[derive(Debug, PartialEq, Eq, Structural)]
pub enum AuthError {
    EmailTaken,
    InvalidCredentials,
    AccountDeactivated,
}

/// The text of an auth error.
pub open spec fn auth_error_text(e: AuthError) -> Seq<char> {
    match e {
        AuthError::EmailTaken => "User with this email already exists"@,
        AuthError::InvalidCredentials => "Invalid email or password"@,
        AuthError::AccountDeactivated => "Account is deactivated"@,
    }
}

impl AuthError {
    /// The text shown to the user.
    pub fn message(&self) -> (r: String)
        ensures
            r@ == auth_error_text(*self),
    {
        match self {
            AuthError::EmailTaken => String::from_str("User with this email already exists"),
            AuthError::InvalidCredentials => String::from_str("Invalid email or password"),
            AuthError::AccountDeactivated => String::from_str("Account is deactivated"),
        }
    }
}

/// Registration and login.
pub struct AuthService;

impl AuthService {
    /// A new account may be created only for an email no account has.
    pub fn check_registration(email_taken: bool) -> (r: Result<(), AuthError>)
        ensures
            r == if email_taken {
                Err(AuthError::EmailTaken)
            } else {
                Ok(())
            },
    {
        if email_taken {
            Err(AuthError::EmailTaken)
        } else {
            Ok(())
        }
    }

    /// A login succeeds when the account exists, the password matches it and
    /// it is active. An unknown account and a wrong password give the same
    /// error.
    pub fn check_login(account_found: bool, password_matches: bool, is_active: bool) -> (r: Result<
        (),
        AuthError,
    >)
        ensures
            r == if !account_found || !password_matches {
                Err(AuthError::InvalidCredentials)
            } else if !is_active {
                Err(AuthError::AccountDeactivated)
            } else {
                Ok(())
            },
    {
        if !account_found || !password_matches {
            Err(AuthError::InvalidCredentials)
        } else if !is_active {
            Err(AuthError::AccountDeactivated)
        } else {
            Ok(())
        }
    }
}

} // verus!
