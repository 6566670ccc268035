//! Error taxonomy of the vehnt core. Every failure aborts the operation with
//! no partial mutation; none is retried internally.

use vstd::prelude::*;

verus! {

/// The distinguishable failure kinds a caller can receive.
#[derive(Clone, Copy, Debug, PartialEq, Eq, Structural)]
pub enum ErrorCode {
    /// Overflow or underflow in decay math: the ledger drifted out of sync.
    ArithmeticError,
    /// Finalization requested on a position that was already finalized.
    PositionAlreadyFinalized,
    /// Computed locked weight exceeds its bound, or the sum overflows.
    FailedVotingPowerCalculation,
    /// A schedule instant is not representable as a valid calendar instant.
    InvalidCalendarInstant,
}

/// Turns the absence of a checked-arithmetic result into `ArithmeticError`.
pub trait OrArithError<T>: Sized {
    /// The value this carrier holds, if any.
    spec fn arith_value(self) -> Option<T>;

    /// The held value, or `ArithmeticError` when there is none.
    fn or_arith_error(self) -> (r: Result<T, ErrorCode>)
        ensures
            self.arith_value() matches Some(v) ==> r == Ok::<T, ErrorCode>(v),
            self.arith_value() is None ==> r == Err::<T, ErrorCode>(ErrorCode::ArithmeticError),
    ;
}

impl OrArithError<u64> for Option<u64> {
    open spec fn arith_value(self) -> Option<u64> {
        self
    }

    fn or_arith_error(self) -> (r: Result<u64, ErrorCode>) {
        match self {
            Some(v) => Ok(v),
            None => Err(ErrorCode::ArithmeticError),
        }
    }
}

impl OrArithError<u128> for Option<u128> {
    open spec fn arith_value(self) -> Option<u128> {
        self
    }

    fn or_arith_error(self) -> (r: Result<u128, ErrorCode>) {
        match self {
            Some(v) => Ok(v),
            None => Err(ErrorCode::ArithmeticError),
        }
    }
}

} // verus!
