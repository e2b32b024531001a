//! Authentication of the user who wants to unlock the shield. Where the
//! system's own authentication is at hand, the caller uses it; what is here
//! is the rule for a machine without it, and the choice of the user name.

use vstd::prelude::*;
use vstd::string::{StringExecFns, StringSliceAdditionalSpecFns};

verus! {

/// Passwords of this many bytes or fewer are refused.
pub const MIN_PASSWORD_BYTES: usize = 3;

/// The error of a machine that names no user.
pub open spec fn no_user_error() -> Seq<char> {
    "Could not determine current user"@
}

/// Whether the stand-in rule accepts the password: it is longer than
/// [`MIN_PASSWORD_BYTES`] in its UTF-8 encoding.
pub open spec fn accepts(password: &str) -> bool {
    password.spec_bytes().len() as usize > MIN_PASSWORD_BYTES
}

/// Decides who the user is and whether a password unlocks the shield.
pub struct AuthManager;

impl AuthManager {
    /// Stand-in for the system's authentication, for development only: any
    /// password longer than three bytes is accepted, for any user.
    pub fn authenticate(_username: &str, password: &str) -> (r: Result<bool, String>)
        ensures
            r == Ok::<bool, String>(accepts(password)),
    {
        Ok(password.len() > MIN_PASSWORD_BYTES)
    }

    /// The current user, from what the environment holds under `USER` and
    /// under `USERNAME`: the first that is there.
    pub fn get_current_user(user: Option<String>, username: Option<String>) -> (r: Result<
        String,
        String,
    >)
        ensures
            match (user, username) {
                (Some(u), _) => r == Ok::<String, String>(u),
                (None, Some(u)) => r == Ok::<String, String>(u),
                (None, None) => r is Err && r->Err_0@ == no_user_error(),
            },
    {
        match user {
            Some(u) => Ok(u),
            None => match username {
                Some(u) => Ok(u),
                None => Err(String::from_str("Could not determine current user")),
            },
        }
    }

    /// Authenticates the current user. Where no current user could be
    /// determined, that error is handed on.
    pub fn authenticate_current_user(current_user: Result<String, String>, password: &str) -> (r:
        Result<bool, String>)
        ensures
            match current_user {
                Ok(_) => r == Ok::<bool, String>(accepts(password)),
                Err(e) => r == Err::<bool, String>(e),
            },
    {
        match current_user {
            Ok(username) => Self::authenticate(username.as_str(), password),
            Err(e) => Err(e),
        }
    }
}

} // verus!
