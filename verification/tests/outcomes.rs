use credential_hasher::{hash_outcome, verify_outcome, AdaptiveError, PasswordError};

#[test]
fn hashed_record_is_handed_on() {
    assert_eq!(hash_outcome(Ok("record".to_string())), Ok("record".to_string()));
    assert_eq!(hash_outcome(Ok(String::new())), Ok(String::new()));
}

#[test]
fn refused_cost_is_reported_with_the_cost() {
    assert_eq!(
        hash_outcome(Err(AdaptiveError::CostNotAllowed(1))),
        Err(PasswordError::CostNotAllowed(1))
    );
    assert_eq!(
        hash_outcome(Err(AdaptiveError::CostNotAllowed(99))),
        Err(PasswordError::CostNotAllowed(99))
    );
}

#[test]
fn other_hash_failures_are_unexpected() {
    let others = [
        AdaptiveError::Io,
        AdaptiveError::InvalidPassword,
        AdaptiveError::InvalidCost,
        AdaptiveError::InvalidPrefix,
        AdaptiveError::InvalidHash,
        AdaptiveError::InvalidBase64,
        AdaptiveError::Rand,
    ];
    for failure in others {
        assert_eq!(hash_outcome(Err(failure)), Err(PasswordError::Unexpected(failure)));
    }
}

#[test]
fn answer_is_handed_on() {
    assert_eq!(verify_outcome(Ok(true), "stored"), Ok(true));
    assert_eq!(verify_outcome(Ok(false), "stored"), Ok(false));
}

#[test]
fn unreadable_record_is_reported_with_its_text() {
    let blamed = [
        AdaptiveError::InvalidCost,
        AdaptiveError::InvalidPrefix,
        AdaptiveError::InvalidHash,
        AdaptiveError::InvalidBase64,
        AdaptiveError::CostNotAllowed(3),
        AdaptiveError::CostNotAllowed(99),
    ];
    for failure in blamed {
        assert_eq!(
            verify_outcome(Err(failure), "stored"),
            Err(PasswordError::InvalidHash("stored".to_string()))
        );
    }
    assert_eq!(
        verify_outcome(Err(AdaptiveError::InvalidHash), ""),
        Err(PasswordError::InvalidHash(String::new()))
    );
}

#[test]
fn other_check_failures_are_unexpected() {
    let others = [AdaptiveError::Io, AdaptiveError::InvalidPassword, AdaptiveError::Rand];
    for failure in others {
        assert_eq!(verify_outcome(Err(failure), "stored"), Err(PasswordError::Unexpected(failure)));
    }
}
