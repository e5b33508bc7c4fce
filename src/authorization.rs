use vstd::prelude::*;

use crate::model::User;
use crate::topic_view::StoreError;

verus! {

/// An authenticated principal: the stored user whose credentials matched.
#[derive(Clone, Debug)]
pub struct BasicAuthorization {
    pub user: User,
}

/// Why a request was refused before any work was done for it.
#[derive(Clone, Copy, Debug, PartialEq, Eq, Structural)]
pub enum AuthorizationError {
    /// The request carries no credentials.
    MissingAuthorization,
    /// The credentials are malformed, unknown or wrong.
    InvalidAuthorization,
}

/// Whether a user lookup by name found a user whose password is `password`.
pub open spec fn credentials_match(found: Result<Option<User>, StoreError>, password: Seq<char>) -> bool {
    match found {
        Ok(Some(u)) => u.password@ == password,
        _ => false,
    }
}

impl AuthorizationError {
    /// The HTTP status code that reports this refusal.
    pub fn status_code(&self) -> (r: u16)
        ensures
            *self == AuthorizationError::MissingAuthorization ==> r == 403,
            *self == AuthorizationError::InvalidAuthorization ==> r == 401,
    {
        match self {
            AuthorizationError::MissingAuthorization => 403,
            AuthorizationError::InvalidAuthorization => 401,
        }
    }

    /// The text that explains this refusal to the client.
    pub fn message(&self) -> (r: String)
        ensures
            *self == AuthorizationError::MissingAuthorization ==> r@
                == "Missing authorization header"@,
            *self == AuthorizationError::InvalidAuthorization ==> r@
                == "Invalid authorization header"@,
    {
        match self {
            AuthorizationError::MissingAuthorization => {
                String::from_str("Missing authorization header")
            },
            AuthorizationError::InvalidAuthorization => {
                String::from_str("Invalid authorization header")
            },
        }
    }
}

impl BasicAuthorization {
    /// Decides on presented credentials, given what the lookup of the
    /// presented user name returned: the principal where a user was found and
    /// the password is the stored one, `InvalidAuthorization` otherwise (a
    /// failed lookup included).
    pub fn from_lookup(found: Result<Option<User>, StoreError>, password: &str) -> (r: Result<
        BasicAuthorization,
        AuthorizationError,
    >)
        ensures
            credentials_match(found, password@) ==> (r matches Ok(a) && found == Ok::<
                Option<User>,
                StoreError,
            >(Some(a.user))),
            !credentials_match(found, password@) ==> r == Err::<BasicAuthorization, AuthorizationError>(
                AuthorizationError::InvalidAuthorization,
            ),
    {
        match found {
            Ok(Some(user)) => {
                let presented = password.to_owned();
                if user.password == presented {
                    Ok(BasicAuthorization { user })
                } else {
                    Err(AuthorizationError::InvalidAuthorization)
                }
            },
            _ => Err(AuthorizationError::InvalidAuthorization),
        }
    }
}

} // verus!
