//! The typed failures every operation of the key hierarchy reports.
use vstd::prelude::*;

verus! {

/// Why an operation was refused. Every failure is a value handed back to
/// the caller: nothing in this crate panics on its inputs.
#[derive(Clone, Copy, Debug, PartialEq, Eq, Structural)]
pub enum KeyError {
    /// A password or token did not match.
    InvalidCredentials,
    /// Authenticated decryption failed: the key, the nonce or the sealed
    /// bytes do not belong together.
    StaleKey,
    /// A day, user, session or unlock record is missing.
    NotFound,
    /// The day is already unlocked for this user.
    AlreadyUnlocked,
    /// The day was asked for before the moment it unlocks.
    NotYetAvailable,
    /// The caller does not own what it tried to change.
    Unauthorized,
    /// An input is beyond what the cipher, the password hash or the row
    /// numbering can take.
    LimitExceeded,
    /// A name that has to be unique is taken.
    Conflict,
    /// Stored bytes are not what they have to be.
    Corrupted,
}

impl KeyError {
    /// A short description for log lines and pages.
    pub fn as_str(&self) -> (text: &'static str)
        ensures
            text@ == self.text(),
    {
        match self {
            KeyError::InvalidCredentials => "invalid credentials",
            KeyError::StaleKey => "decryption failed, the key is probably outdated",
            KeyError::NotFound => "not found",
            KeyError::AlreadyUnlocked => "already unlocked",
            KeyError::NotYetAvailable => "not yet available",
            KeyError::Unauthorized => "not the owner",
            KeyError::LimitExceeded => "limit exceeded",
            KeyError::Conflict => "already taken",
            KeyError::Corrupted => "stored data is corrupted",
        }
    }

    /// The description as a sequence of characters.
    pub open spec fn text(&self) -> Seq<char> {
        match self {
            KeyError::InvalidCredentials => "invalid credentials"@,
            KeyError::StaleKey => "decryption failed, the key is probably outdated"@,
            KeyError::NotFound => "not found"@,
            KeyError::AlreadyUnlocked => "already unlocked"@,
            KeyError::NotYetAvailable => "not yet available"@,
            KeyError::Unauthorized => "not the owner"@,
            KeyError::LimitExceeded => "limit exceeded"@,
            KeyError::Conflict => "already taken"@,
            KeyError::Corrupted => "stored data is corrupted"@,
        }
    }
}

} // verus!
