use coduet::errors::CoduetError;
use coduet::utils::{
    byte_len, calculate_platform_fee, calculate_total_required_funds, validate_string_length,
    FIXED_TX_FEE_LAMPORTS, MAIN_VAULT_PUBKEY, MIN_PLATFORM_FEE, NUM_TXS_COVERED,
    PLATFORM_FEE_PERCENTAGE,
};

#[test]
fn constants_have_their_configured_values() {
    assert_eq!(PLATFORM_FEE_PERCENTAGE, 5);
    assert_eq!(MIN_PLATFORM_FEE, 1000);
    assert_eq!(FIXED_TX_FEE_LAMPORTS, 10_000);
    assert_eq!(NUM_TXS_COVERED, 2);
    assert_eq!(MAIN_VAULT_PUBKEY, "4waxnAptoSYbKEeFtx8Qo7tauC9yhfCL6z2eT7MK4Vr2");
}

#[test]
fn fee_is_five_percent_above_the_floor() {
    assert_eq!(calculate_platform_fee(100_000), Ok(5000));
    assert_eq!(calculate_platform_fee(1_000_000), Ok(50_000));
    assert_eq!(calculate_platform_fee(20_020), Ok(1001));
    assert_eq!(calculate_platform_fee(20_039), Ok(1001));
}

#[test]
fn fee_is_floored_at_the_minimum() {
    assert_eq!(calculate_platform_fee(0), Ok(1000));
    assert_eq!(calculate_platform_fee(1), Ok(1000));
    assert_eq!(calculate_platform_fee(50), Ok(1000));
    assert_eq!(calculate_platform_fee(20_000), Ok(1000));
    assert_eq!(calculate_platform_fee(20_019), Ok(1000));
}

#[test]
fn fee_is_never_under_the_minimum_on_samples() {
    let samples: [u64; 8] = [1, 2, 99, 19_999, 20_000, 20_001, 1 << 40, u64::MAX / 5];
    for value in samples {
        let fee = calculate_platform_fee(value).unwrap();
        assert!(fee >= MIN_PLATFORM_FEE);
        assert_eq!(fee, std::cmp::max(value * 5 / 100, MIN_PLATFORM_FEE));
    }
}

#[test]
fn fee_overflow_is_reported() {
    assert_eq!(calculate_platform_fee(u64::MAX / 5), Ok(u64::MAX / 5 * 5 / 100));
    assert_eq!(calculate_platform_fee(u64::MAX / 5 + 1), Err(CoduetError::ArithmeticOverflow));
    assert_eq!(calculate_platform_fee(u64::MAX), Err(CoduetError::ArithmeticOverflow));
}

#[test]
fn total_is_value_fee_and_overhead() {
    assert_eq!(calculate_total_required_funds(100_000), Ok(125_000));
    assert_eq!(calculate_total_required_funds(50), Ok(21_050));
    assert_eq!(calculate_total_required_funds(1_000_000), Ok(1_070_000));
}

#[test]
fn total_overflow_is_reported_not_wrapped() {
    assert_eq!(calculate_total_required_funds(u64::MAX), Err(CoduetError::ArithmeticOverflow));
    assert_eq!(
        calculate_total_required_funds(u64::MAX - 10),
        Err(CoduetError::ArithmeticOverflow)
    );
    assert_eq!(
        calculate_total_required_funds(u64::MAX - 30_000),
        Err(CoduetError::ArithmeticOverflow)
    );
    let largest = u64::MAX / 5;
    assert_eq!(
        calculate_total_required_funds(largest),
        Ok(largest + largest * 5 / 100 + 20_000)
    );
}

#[test]
fn string_length_is_counted_in_bytes() {
    assert_eq!(validate_string_length("", 0), Ok(()));
    assert_eq!(validate_string_length("abc", 3), Ok(()));
    assert_eq!(validate_string_length("abcd", 3), Err(CoduetError::InvalidTitleLength));
    assert_eq!(byte_len("é"), 2);
    assert_eq!(validate_string_length("é", 1), Err(CoduetError::InvalidTitleLength));
    assert_eq!(validate_string_length("é", 2), Ok(()));
}

#[test]
fn every_error_has_its_message() {
    assert_eq!(CoduetError::PostNotOpen.message(), "Post is not open for applications");
    assert_eq!(CoduetError::PostAlreadyCompleted.message(), "Post is already completed");
    assert_eq!(
        CoduetError::UnauthorizedPublisher.message(),
        "Only publisher can perform this action"
    );
    assert_eq!(CoduetError::ArithmeticOverflow.message(), "Arithmetic overflow");
    assert_eq!(CoduetError::AlreadyApplied.message(), "User already applied to this post");
    assert_eq!(CoduetError::InvalidPostId.message(), "Invalid post ID");
    assert_eq!(
        CoduetError::InsufficientFunds.message(),
        "Insufficient funds for post creation"
    );
}

#[test]
fn messages_are_distinct_and_complete() {
    let all = [
        (CoduetError::InvalidHourlyRate, "Invalid hourly rate - must be greater than 0"),
        (
            CoduetError::InvalidEstimatedHours,
            "Invalid estimated hours - must be between 1 and 255",
        ),
        (CoduetError::PostNotOpen, "Post is not open for applications"),
        (CoduetError::PostAlreadyCompleted, "Post is already completed"),
        (CoduetError::PostAlreadyHasHelper, "Post already has an accepted helper"),
        (CoduetError::HelpRequestNotFound, "Help request not found"),
        (CoduetError::HelpRequestNotPending, "Help request is not pending"),
        (CoduetError::UnauthorizedPublisher, "Only publisher can perform this action"),
        (CoduetError::CannotCancelWithHelper, "Cannot cancel post with accepted helper"),
        (CoduetError::InsufficientFunds, "Insufficient funds for post creation"),
        (CoduetError::InvalidPlatformFee, "Invalid platform fee"),
        (CoduetError::PostNotFound, "Post not found"),
        (CoduetError::AlreadyApplied, "User already applied to this post"),
        (CoduetError::InvalidPostId, "Invalid post ID"),
        (CoduetError::PostExpired, "Post has expired"),
        (CoduetError::InvalidTitleLength, "Invalid title length"),
        (CoduetError::InvalidDescriptionLength, "Invalid description length"),
        (CoduetError::ArithmeticOverflow, "Arithmetic overflow"),
        (CoduetError::InvalidValue, "Invalid value - must be greater than 0"),
    ];
    for (error, text) in all {
        assert_eq!(error.message(), text);
    }
    for (i, a) in all.iter().enumerate() {
        for b in all.iter().skip(i + 1) {
            assert_ne!(a.1, b.1);
            assert_ne!(a.0, b.0);
        }
    }
}
