//! Hashing a password into a record, and verifying a password against one.

use crate::adaptive::{
    accepted_cost, adaptive_hash, adaptive_verify, bcrypt_verify, hashed_from, is_zero_free,
    record_chars, AdaptiveError, MAX_COST, MIN_COST,
};
use crate::error::{hashed_view, verified_view, Fault, PasswordError};
use crate::keyed::{hmac_password, keyed_digest, lemma_keyed_digest_digits};
use vstd::prelude::*;

verus! {

/// A keyed digest holds no zero character, so bcrypt takes it as an input.
pub proof fn lemma_keyed_digest_is_zero_free(password: Seq<char>, key: Seq<u8>)
    ensures
        is_zero_free(keyed_digest(password, key)),
{
    lemma_keyed_digest_digits(password, key);
}

/// What hashing reports for an outcome of the adaptive hash: the record, the
/// refused cost, or the failure that no caller can act on.
pub open spec fn hash_report(outcome: Result<Seq<char>, AdaptiveError>) -> Result<
    Seq<char>,
    Fault,
> {
    match outcome {
        Ok(record) => Ok(record),
        Err(AdaptiveError::CostNotAllowed(cost)) => Err(Fault::CostNotAllowed(cost)),
        Err(failure) => Err(Fault::Unexpected(failure)),
    }
}

/// Whether `failure` lays the blame on the stored text: bcrypt could not
/// read it as a record, or read a cost in it that it refuses.
pub open spec fn blames_record(failure: AdaptiveError) -> bool {
    ||| failure is InvalidCost
    ||| failure is InvalidPrefix
    ||| failure is InvalidHash
    ||| failure is InvalidBase64
    ||| failure is CostNotAllowed
}

/// What verifying against `hashed` reports for an outcome of bcrypt's
/// verifying: the answer, the text that is no record, or the failure that
/// no caller can act on.
pub open spec fn verify_report(outcome: Result<bool, AdaptiveError>, hashed: Seq<char>) -> Result<
    bool,
    Fault,
> {
    match outcome {
        Ok(same) => Ok(same),
        Err(failure) => if blames_record(failure) {
            Err(Fault::InvalidHash(hashed))
        } else {
            Err(Fault::Unexpected(failure))
        },
    }
}

/// What verifying `password` against `hashed` under `key` returns.
pub open spec fn verification(password: Seq<char>, hashed: Seq<char>, key: Seq<u8>) -> Result<
    bool,
    Fault,
> {
    verify_report(bcrypt_verify(keyed_digest(password, key), hashed), hashed)
}

/// What holds of every result of hashing `password` under `key` with `cost`.
///
/// A record is one that the adaptive hash made from the keyed digest, with
/// an accepted cost. A refused cost is the one given, and outside the
/// accepted range. Beside these only the lack of random bytes for a salt
/// can come, and only where the cost is accepted.
pub open spec fn hashing_may_give(
    password: Seq<char>,
    key: Seq<u8>,
    cost: u32,
    result: Result<Seq<char>, Fault>,
) -> bool {
    match result {
        Ok(record) => hashed_from(record, keyed_digest(password, key), cost),
        Err(Fault::CostNotAllowed(refused)) => refused == cost && !accepted_cost(cost),
        Err(Fault::Unexpected(failure)) => failure == AdaptiveError::Rand && accepted_cost(cost),
        Err(_) => false,
    }
}

/// Reports an outcome of the adaptive hash to the caller of `hash_password`.
pub fn hash_outcome(outcome: Result<String, AdaptiveError>) -> (result: Result<
    String,
    PasswordError,
>)
    ensures
        hashed_view(result) == hash_report(record_chars(outcome)),
{
    match outcome {
        Ok(record) => Ok(record),
        Err(AdaptiveError::CostNotAllowed(cost)) => Err(PasswordError::CostNotAllowed(cost)),
        Err(failure) => Err(PasswordError::Unexpected(failure)),
    }
}

/// Reports an outcome of bcrypt's verifying against `hashed` to the caller
/// of `verify_password`.
pub fn verify_outcome(outcome: Result<bool, AdaptiveError>, hashed: &str) -> (result: Result<
    bool,
    PasswordError,
>)
    ensures
        verified_view(result) == verify_report(outcome, hashed@),
{
    match outcome {
        Ok(same) => Ok(same),
        Err(AdaptiveError::InvalidCost)
        | Err(AdaptiveError::InvalidPrefix)
        | Err(AdaptiveError::InvalidHash)
        | Err(AdaptiveError::InvalidBase64)
        | Err(AdaptiveError::CostNotAllowed(_)) => Err(
            PasswordError::InvalidHash(hashed.to_owned()),
        ),
        Err(failure) => Err(PasswordError::Unexpected(failure)),
    }
}

/// Hashes `password`: its keyed digest under `hmac_key`, then bcrypt over
/// the digest with `bcrypt_rounds` as cost and a fresh random salt.
///
/// A cost outside the accepted range is refused before bcrypt is asked, so
/// the error for it does not wait on a salt. The record differs from call
/// to call, so no function of the arguments gives it; `hashing_may_give`
/// says what holds of each.
pub fn hash_password(password: &str, hmac_key: &[u8], bcrypt_rounds: u32) -> (result: Result<
    String,
    PasswordError,
>)
    ensures
        hashing_may_give(password@, hmac_key@, bcrypt_rounds, hashed_view(result)),
        !accepted_cost(bcrypt_rounds) ==> hashed_view(result) == Err::<Seq<char>, Fault>(
            Fault::CostNotAllowed(bcrypt_rounds),
        ),
{
    let hmac_hex = match hmac_password(password, hmac_key) {
        Ok(text) => text,
        Err(_) => {
            return Err(PasswordError::InvalidKeyLength);
        },
    };
    if bcrypt_rounds < MIN_COST || bcrypt_rounds > MAX_COST {
        return Err(PasswordError::CostNotAllowed(bcrypt_rounds));
    }
    proof {
        lemma_keyed_digest_is_zero_free(password@, hmac_key@);
    }
    hash_outcome(adaptive_hash(hmac_hex.as_str(), bcrypt_rounds))
}

/// Verifies `password` against the record `hashed`: bcrypt says whether the
/// record was made from the keyed digest of the password under `hmac_key`.
///
/// A text that bcrypt cannot read as a record comes back in `InvalidHash`,
/// and so does one that reads well but holds a cost that bcrypt refuses.
/// Nothing is reported as `Unexpected`: bcrypt draws nothing from the system
/// here, and the digest is an input that it takes.
pub fn verify_password(password: &str, hashed: &str, hmac_key: &[u8]) -> (result: Result<
    bool,
    PasswordError,
>)
    ensures
        verified_view(result) == verification(password@, hashed@, hmac_key@),
        !(verified_view(result) matches Err(Fault::Unexpected(_))),
{
    let hmac_hex = match hmac_password(password, hmac_key) {
        Ok(text) => text,
        Err(_) => {
            return Err(PasswordError::InvalidKeyLength);
        },
    };
    proof {
        lemma_keyed_digest_is_zero_free(password@, hmac_key@);
    }
    verify_outcome(adaptive_verify(hmac_hex.as_str(), hashed), hashed)
}

} // verus!
