//! What holds between hashing and verifying, whatever salt was drawn.

use crate::adaptive::{accepted_cost, bcrypt_verify, AdaptiveError};
use crate::error::Fault;
use crate::keyed::keyed_digest;
use crate::password::{hashing_may_give, lemma_keyed_digest_is_zero_free, verification};
use vstd::prelude::*;

verus! {

/// The keyed digest is a function of password and key alone: whatever
/// `hmac_password` returns for the same two on two calls is the same text.
pub proof fn lemma_keyed_digest_is_deterministic(
    password: Seq<char>,
    key: Seq<u8>,
    first: Seq<char>,
    second: Seq<char>,
)
    requires
        first == keyed_digest(password, key),
        second == keyed_digest(password, key),
    ensures
        first == second,
{
}

/// A password verifies against every record that hashing made from it, under
/// the key that it was hashed with.
pub proof fn lemma_hashed_password_verifies(
    password: Seq<char>,
    key: Seq<u8>,
    cost: u32,
    record: Seq<char>,
)
    requires
        hashing_may_give(password, key, cost, Ok(record)),
    ensures
        verification(password, record, key) == Ok::<bool, Fault>(true),
{
}

/// Verifying any password against a record that hashing made gives an
/// answer, never an error. The answer is `false` unless bcrypt finds the
/// record to be made from the digest of the password tried, as it does where
/// that digest is the digest of the password that was hashed.
pub proof fn lemma_other_password_is_answered(
    hashed: Seq<char>,
    tried: Seq<char>,
    key: Seq<u8>,
    cost: u32,
    record: Seq<char>,
)
    requires
        hashing_may_give(hashed, key, cost, Ok(record)),
    ensures
        verification(tried, record, key) is Ok,
        bcrypt_verify(keyed_digest(tried, key), record) != Ok::<bool, AdaptiveError>(true)
            ==> verification(tried, record, key) == Ok::<bool, Fault>(false),
        keyed_digest(tried, key) == keyed_digest(hashed, key) ==> verification(tried, record, key)
            == Ok::<bool, Fault>(true),
{
    lemma_keyed_digest_is_zero_free(tried, key);
    assert(bcrypt_verify(keyed_digest(tried, key), record) is Ok);
}

/// Hashing gives a record only for an accepted cost. A cost outside the
/// range is refused, and the error holds that cost. With an accepted cost
/// the one result beside a record is that no salt could be drawn.
pub proof fn lemma_cost_decides(
    password: Seq<char>,
    key: Seq<u8>,
    cost: u32,
    result: Result<Seq<char>, Fault>,
)
    requires
        hashing_may_give(password, key, cost, result),
    ensures
        result is Ok ==> accepted_cost(cost),
        !accepted_cost(cost) ==> result == Err::<Seq<char>, Fault>(Fault::CostNotAllowed(cost)),
        accepted_cost(cost) ==> result is Ok || result == Err::<Seq<char>, Fault>(
            Fault::Unexpected(AdaptiveError::Rand),
        ),
{
}

/// Whatever `verify_password` returns is an answer or the one error that
/// blames the stored text, and that error holds the text as it was given:
/// verifying reports neither the key, nor a cost, nor anything unexpected.
pub proof fn lemma_verification_blames_record(
    password: Seq<char>,
    hashed: Seq<char>,
    key: Seq<u8>,
    result: Result<bool, Fault>,
)
    requires
        result == verification(password, hashed, key),
        !(result matches Err(Fault::Unexpected(_))),
    ensures
        match result {
            Ok(_) => true,
            Err(Fault::InvalidHash(text)) => text == hashed,
            Err(_) => false,
        },
{
}

} // verus!
