//! What the sign-in, sign-up and change-password pages show.
use vstd::prelude::*;

use crate::persistence::user_repository::LoginCredentials;

verus! {

/// A message about a failed attempt, with the credentials that were tried
/// so that the form can be filled in again.
pub struct CredentialStatusMessage {
    pub message: String,
    pub creds: LoginCredentials,
}

/// The sign-in page.
pub struct LoginTemplate {
    pub status_message: Option<CredentialStatusMessage>,
}

impl LoginTemplate {
    /// The page after a failed attempt.
    pub fn with_message(message: String, creds: LoginCredentials) -> (page: Self)
        ensures
            page.status_message == Some(CredentialStatusMessage { message, creds }),
    {
        Self { status_message: Some(CredentialStatusMessage { message, creds }) }
    }

    /// The page as it is first shown.
    pub fn empty() -> (page: Self)
        ensures
            page.status_message is None,
    {
        Self { status_message: None }
    }
}

/// The sign-up page.
pub struct SignupTemplate {
    pub status_message: Option<CredentialStatusMessage>,
}

impl SignupTemplate {
    /// The page after a failed attempt.
    pub fn with_message(message: String, creds: LoginCredentials) -> (page: Self)
        ensures
            page.status_message == Some(CredentialStatusMessage { message, creds }),
    {
        Self { status_message: Some(CredentialStatusMessage { message, creds }) }
    }

    /// The page as it is first shown.
    pub fn empty() -> (page: Self)
        ensures
            page.status_message is None,
    {
        Self { status_message: None }
    }
}

/// The change-password page.
pub struct ChangePassTemplate {
    pub status_message: Option<String>,
}

impl ChangePassTemplate {
    /// The page after a failed attempt.
    pub fn with_message(message: String) -> (page: Self)
        ensures
            page.status_message == Some(message),
    {
        Self { status_message: Some(message) }
    }

    /// The page as it is first shown.
    pub fn empty() -> (page: Self)
        ensures
            page.status_message is None,
    {
        Self { status_message: None }
    }
}

} // verus!
