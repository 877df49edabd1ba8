//! The errors that hashing and verifying report.

use crate::adaptive::AdaptiveError;
use vstd::prelude::*;

verus! {

/// Why a password was not hashed or not verified.
///
/// The first three are for the caller to act on. The last is not: it says
/// that the adaptive hash failed in a way that no input explains, and a
/// caller that meets it stops. Hashing reports it where the system gave no
/// random bytes for a salt; verifying never does.
#[derive(Debug, PartialEq)]
pub enum PasswordError {
    /// The keyed hash refused the key.
    InvalidKeyLength,
    /// The adaptive hash refused the cost; holds the cost.
    CostNotAllowed(u32),
    /// The stored text is no hash record that bcrypt takes; holds the text.
    InvalidHash(String),
    /// The adaptive hash failed otherwise; holds its failure.
    Unexpected(AdaptiveError),
}

/// What a `PasswordError` says, its text as a sequence of characters.
pub enum Fault {
    /// The keyed hash refused the key.
    InvalidKeyLength,
    /// The adaptive hash refused the cost; holds the cost.
    CostNotAllowed(u32),
    /// The stored text is no hash record that bcrypt takes; holds its characters.
    InvalidHash(Seq<char>),
    /// The adaptive hash failed otherwise; holds its failure.
    Unexpected(AdaptiveError),
}

impl View for PasswordError {
    type V = Fault;

    open spec fn view(&self) -> Fault {
        match *self {
            PasswordError::InvalidKeyLength => Fault::InvalidKeyLength,
            PasswordError::CostNotAllowed(cost) => Fault::CostNotAllowed(cost),
            PasswordError::InvalidHash(text) => Fault::InvalidHash(text@),
            PasswordError::Unexpected(failure) => Fault::Unexpected(failure),
        }
    }
}

/// What a result of hashing says: the record's characters, or the fault.
pub open spec fn hashed_view(result: Result<String, PasswordError>) -> Result<Seq<char>, Fault> {
    match result {
        Ok(record) => Ok(record@),
        Err(error) => Err(error@),
    }
}

/// What a result of verifying says: the answer, or the fault.
pub open spec fn verified_view(result: Result<bool, PasswordError>) -> Result<bool, Fault> {
    match result {
        Ok(same) => Ok(same),
        Err(error) => Err(error@),
    }
}

} // verus!
