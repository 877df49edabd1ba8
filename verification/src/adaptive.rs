//! The adaptive hash: bcrypt makes a record from an input, and says of an
//! input and a stored record whether the one was made from the other.

use bcrypt::BcryptError;
use vstd::prelude::*;

verus! {

/// Why bcrypt gave no result: its own failures, one for one, without what
/// they carry beside a refused cost.
#[derive(Clone, Copy, Debug, PartialEq, Eq, Structural)]
pub enum AdaptiveError {
    /// An input or output operation failed.
    Io,
    /// The cost is outside the range that bcrypt accepts; holds the cost.
    CostNotAllowed(u32),
    /// The input holds a zero byte.
    InvalidPassword,
    /// The cost field of a record is no number.
    InvalidCost,
    /// The version field of a record is none that bcrypt knows.
    InvalidPrefix,
    /// A record has not three fields, or its last field has not 53 bytes.
    InvalidHash,
    /// The salt or the digest of a record is not in bcrypt's alphabet.
    InvalidBase64,
    /// The system gave no random bytes for a salt.
    Rand,
}

/// The least cost that bcrypt accepts.
pub const MIN_COST: u32 = 4;

/// The greatest cost that bcrypt accepts.
pub const MAX_COST: u32 = 31;

/// Whether bcrypt accepts `cost`.
pub open spec fn accepted_cost(cost: u32) -> bool {
    MIN_COST <= cost <= MAX_COST
}

/// Whether `c` belongs to the alphabet in which bcrypt writes salt and digest.
pub open spec fn is_radix64(c: char) -> bool {
    ||| c == '.'
    ||| c == '/'
    ||| ('A' <= c && c <= 'Z')
    ||| ('a' <= c && c <= 'z')
    ||| ('0' <= c && c <= '9')
}

/// The ten decimal digits, in order of value.
pub open spec fn decimal_digits() -> Seq<char> {
    seq!['0', '1', '2', '3', '4', '5', '6', '7', '8', '9']
}

/// Whether `record` has the form of a bcrypt record of version 2b made with
/// `cost`: `$2b$`, the cost in two decimal digits, `$`, then 22 characters
/// of salt and 31 of digest.
pub open spec fn is_hash_record(record: Seq<char>, cost: u32) -> bool {
    &&& record.len() == 60
    &&& record[0] == '$'
    &&& record[1] == '2'
    &&& record[2] == 'b'
    &&& record[3] == '$'
    &&& record[4] == decimal_digits()[cost as int / 10]
    &&& record[5] == decimal_digits()[cost as int % 10]
    &&& record[6] == '$'
    &&& forall|i: int| 7 <= i < 60 ==> is_radix64(#[trigger] record[i])
}

/// What `bcrypt::verify` returns for `input` and `record`: whether the record
/// was made from the input, or why the question has no answer.
pub uninterp spec fn bcrypt_verify(input: Seq<char>, record: Seq<char>) -> Result<bool, AdaptiveError>;

/// Whether `input` holds no zero character, so that bcrypt takes it.
pub open spec fn is_zero_free(input: Seq<char>) -> bool {
    forall|i: int| 0 <= i < input.len() ==> input[i] != '\0'
}

/// Whether bcrypt has an answer for `record` and every zero-free input.
pub open spec fn answers_every_input(record: Seq<char>) -> bool {
    forall|input: Seq<char>|
        is_zero_free(input) ==> (#[trigger] bcrypt_verify(input, record)) is Ok
}

/// What holds of every record that bcrypt makes from `input` with `cost`.
pub open spec fn hashed_from(record: Seq<char>, input: Seq<char>, cost: u32) -> bool {
    &&& accepted_cost(cost)
    &&& is_zero_free(input)
    &&& is_hash_record(record, cost)
    &&& bcrypt_verify(input, record) == Ok::<bool, AdaptiveError>(true)
    &&& answers_every_input(record)
}

/// What holds of every outcome of hashing `input` with `cost`.
pub open spec fn hash_may_give(
    input: Seq<char>,
    cost: u32,
    outcome: Result<Seq<char>, AdaptiveError>,
) -> bool {
    match outcome {
        Ok(record) => hashed_from(record, input, cost),
        Err(AdaptiveError::CostNotAllowed(refused)) => refused == cost && !accepted_cost(cost),
        Err(AdaptiveError::InvalidPassword) => accepted_cost(cost) && !is_zero_free(input),
        Err(AdaptiveError::Rand) => true,
        Err(_) => false,
    }
}

/// What holds of every outcome of verifying `input` against a record.
pub open spec fn verify_may_give(input: Seq<char>, outcome: Result<bool, AdaptiveError>) -> bool {
    match outcome {
        Err(AdaptiveError::Io) => false,
        Err(AdaptiveError::Rand) => false,
        Err(AdaptiveError::InvalidPassword) => !is_zero_free(input),
        _ => true,
    }
}

/// The characters of a record in an outcome.
pub open spec fn record_chars(outcome: Result<String, AdaptiveError>) -> Result<
    Seq<char>,
    AdaptiveError,
> {
    match outcome {
        Ok(record) => Ok(record@),
        Err(failure) => Err(failure),
    }
}

/// Hashes `input` with `cost` under a salt that bcrypt draws itself.
///
/// Trusted: calls `bcrypt::hash` and renames its failure. The record depends
/// on the salt, so the contract gives it no name and says what holds of every
/// outcome. `hash` first asks the system for 16 random bytes (`Rand` when
/// that fails), then refuses a cost outside 4 to 31 with that cost, then an
/// input with a zero byte; nothing else fails. The record is written as
/// `$2b$`, the cost in two digits, `$`, and salt and digest in bcrypt's
/// base 64 without padding (22 and 31 characters for 16 and 23 bytes).
/// `bcrypt::verify` reads that form back, derives the digest again from the
/// salt and the cost in the record, and so answers `true` for the same input
/// and gives some answer for every other input that it takes.
#[verifier::external_body]
pub(crate) fn adaptive_hash(input: &str, cost: u32) -> (outcome: Result<String, AdaptiveError>)
    ensures
        hash_may_give(input@, cost, record_chars(outcome)),
{
    match bcrypt::hash(input, cost) {
        Ok(record) => Ok(record),
        Err(BcryptError::Io(_)) => Err(AdaptiveError::Io),
        Err(BcryptError::CostNotAllowed(cost)) => Err(AdaptiveError::CostNotAllowed(cost)),
        Err(BcryptError::InvalidPassword) => Err(AdaptiveError::InvalidPassword),
        Err(BcryptError::InvalidCost(_)) => Err(AdaptiveError::InvalidCost),
        Err(BcryptError::InvalidPrefix(_)) => Err(AdaptiveError::InvalidPrefix),
        Err(BcryptError::InvalidHash(_)) => Err(AdaptiveError::InvalidHash),
        Err(BcryptError::InvalidBase64(_)) => Err(AdaptiveError::InvalidBase64),
        Err(BcryptError::Rand(_)) => Err(AdaptiveError::Rand),
    }
}

/// Asks bcrypt whether `record` was made from `input`.
///
/// Trusted: calls `bcrypt::verify` and renames its failure. The answer is a
/// function of the two texts alone, and the contract gives it its name.
/// `verify` draws no random bytes and does no input or output, and it
/// refuses an input only for a zero byte in it.
#[verifier::external_body]
pub(crate) fn adaptive_verify(input: &str, record: &str) -> (outcome: Result<bool, AdaptiveError>)
    ensures
        outcome == bcrypt_verify(input@, record@),
        verify_may_give(input@, outcome),
{
    match bcrypt::verify(input, record) {
        Ok(same) => Ok(same),
        Err(BcryptError::Io(_)) => Err(AdaptiveError::Io),
        Err(BcryptError::CostNotAllowed(cost)) => Err(AdaptiveError::CostNotAllowed(cost)),
        Err(BcryptError::InvalidPassword) => Err(AdaptiveError::InvalidPassword),
        Err(BcryptError::InvalidCost(_)) => Err(AdaptiveError::InvalidCost),
        Err(BcryptError::InvalidPrefix(_)) => Err(AdaptiveError::InvalidPrefix),
        Err(BcryptError::InvalidHash(_)) => Err(AdaptiveError::InvalidHash),
        Err(BcryptError::InvalidBase64(_)) => Err(AdaptiveError::InvalidBase64),
        Err(BcryptError::Rand(_)) => Err(AdaptiveError::Rand),
    }
}

} // verus!
