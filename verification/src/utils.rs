//! Fee arithmetic and the constants that configure it.

use vstd::prelude::*;
use crate::errors::CoduetError;

verus! {

/// Share of a task's value that the platform charges, in percent.
pub const PLATFORM_FEE_PERCENTAGE: u64 = 5;

/// Least fee that the platform charges, in lamports.
pub const MIN_PLATFORM_FEE: u64 = 1000;

/// Allowance for one transaction's cost, in lamports.
pub const FIXED_TX_FEE_LAMPORTS: u64 = 10_000;

/// Number of transactions whose cost the publisher covers in advance.
pub const NUM_TXS_COVERED: u64 = 2;

/// Base58 text of the one custody account that the platform trusts.
pub const MAIN_VAULT_PUBKEY: &'static str = "4waxnAptoSYbKEeFtx8Qo7tauC9yhfCL6z2eT7MK4Vr2";

/// The platform fee on a value: its share in percent, rounded down, but
/// never under the minimum fee.
pub open spec fn platform_fee_of(value: int) -> int {
    let share = value * PLATFORM_FEE_PERCENTAGE / 100;
    if share >= MIN_PLATFORM_FEE {
        share
    } else {
        MIN_PLATFORM_FEE as int
    }
}

/// The allowance added to every deposit for the transactions it pays for.
pub open spec fn overhead() -> int {
    FIXED_TX_FEE_LAMPORTS * NUM_TXS_COVERED
}

/// What a publisher must lock for a task of the given value.
pub open spec fn total_required_of(value: int) -> int {
    value + platform_fee_of(value) + overhead()
}

/// Whether the deposit for `value` can be computed in 64 bits: the product
/// that the fee is taken from fits, and so does the sum.
pub open spec fn total_fits(value: u64) -> bool {
    value * PLATFORM_FEE_PERCENTAGE <= u64::MAX && total_required_of(value as int) <= u64::MAX
}

/// Computes the platform fee on `value`. Fails exactly when the value times
/// the percentage does not fit in 64 bits.
pub fn calculate_platform_fee(value: u64) -> (result: Result<u64, CoduetError>)
    ensures
        result == if value * PLATFORM_FEE_PERCENTAGE <= u64::MAX {
            Ok::<u64, CoduetError>(platform_fee_of(value as int) as u64)
        } else {
            Err::<u64, CoduetError>(CoduetError::ArithmeticOverflow)
        },
        result.is_ok() ==> result.unwrap() >= MIN_PLATFORM_FEE,
{
    match value.checked_mul(PLATFORM_FEE_PERCENTAGE) {
        None => Err(CoduetError::ArithmeticOverflow),
        Some(product) => {
            let fee: u64 = product / 100;
            if fee >= MIN_PLATFORM_FEE {
                Ok(fee)
            } else {
                Ok(MIN_PLATFORM_FEE)
            }
        },
    }
}

/// Computes the deposit for a task of the given value: the value, its fee and
/// the overhead. Fails exactly when the fee or a sum does not fit in 64 bits.
pub fn calculate_total_required_funds(value: u64) -> (result: Result<u64, CoduetError>)
    ensures
        result == if total_fits(value) {
            Ok::<u64, CoduetError>(total_required_of(value as int) as u64)
        } else {
            Err::<u64, CoduetError>(CoduetError::ArithmeticOverflow)
        },
{
    let platform_fee: u64 = match calculate_platform_fee(value) {
        Ok(fee) => fee,
        Err(e) => {
            return Err(e);
        },
    };
    let overhead: u64 = match FIXED_TX_FEE_LAMPORTS.checked_mul(NUM_TXS_COVERED) {
        Some(o) => o,
        None => {
            return Err(CoduetError::ArithmeticOverflow);
        },
    };
    let with_fee: u64 = match value.checked_add(platform_fee) {
        Some(s) => s,
        None => {
            return Err(CoduetError::ArithmeticOverflow);
        },
    };
    match with_fee.checked_add(overhead) {
        Some(total) => Ok(total),
        None => Err(CoduetError::ArithmeticOverflow),
    }
}

/// Length of a text in bytes of its UTF-8 encoding, the unit in which the
/// bounds on titles and descriptions are counted.
pub open spec fn text_len(text: Seq<char>) -> nat {
    vstd::utf8::encode_utf8(text).len()
}

/// Measures a text in bytes.
pub fn byte_len(s: &str) -> (n: usize)
    ensures
        n == text_len(s@),
{
    s.as_bytes().len()
}

/// Accepts a text whose length in bytes is at most `max_length`.
pub fn validate_string_length(s: &str, max_length: usize) -> (result: Result<(), CoduetError>)
    ensures
        result == if text_len(s@) <= max_length {
            Ok::<(), CoduetError>(())
        } else {
            Err::<(), CoduetError>(CoduetError::InvalidTitleLength)
        },
{
    if byte_len(s) <= max_length {
        Ok(())
    } else {
        Err(CoduetError::InvalidTitleLength)
    }
}

} // verus!
