//! Plain-value model of the records the external registrar owns and this
//! core only reads: a position's lockup terms and the voting-mint
//! configuration. The registrar's time-decaying lockup curve itself stays
//! external; callers obtain its value and hand it in (see `voting`).

use vstd::prelude::*;

use crate::error::ErrorCode;

verus! {

/// Base that the voting-mint weight factors are scaled by.
pub const SCALED_FACTOR_BASE: u64 = 1_000_000_000;

/// How a deposit is locked.
#[derive(Clone, Copy, Debug, PartialEq, Eq, Structural)]
pub enum LockupKind {
    /// No lockup: the deposit is withdrawable, and the lockup counts as
    /// expired at every time.
    NoLockup,
    /// Locked until a fixed end timestamp.
    Cliff,
    /// Locked for a constant duration that never starts counting down, so it
    /// only counts as expired when that duration is zero.
    Constant,
}

/// Lockup terms of one deposit, read-only to this core.
#[derive(Clone, Copy, Debug, PartialEq, Eq, Structural)]
pub struct Lockup {
    /// Kind of lockup.
    pub kind: LockupKind,
    /// Timestamp at which the lockup began.
    pub start_ts: i64,
    /// Timestamp at which a cliff lockup ends.
    pub end_ts: i64,
}

impl Lockup {
    /// A lockup never ends before it begins.
    pub open spec fn wf(self) -> bool {
        self.start_ts <= self.end_ts
    }

    /// Seconds of lockup remaining at `curr_ts`.
    pub open spec fn spec_seconds_left(self, curr_ts: int) -> int {
        match self.kind {
            LockupKind::NoLockup => 0,
            LockupKind::Cliff => if curr_ts >= self.end_ts {
                0
            } else {
                self.end_ts - curr_ts
            },
            LockupKind::Constant => self.end_ts - self.start_ts,
        }
    }

    /// A lockup is expired exactly when no seconds are left.
    pub open spec fn spec_expired(self, curr_ts: int) -> bool {
        self.spec_seconds_left(curr_ts) == 0
    }

    /// Seconds elapsed since the lockup's end at `curr_ts`, zero before it.
    pub open spec fn spec_seconds_since_expiry(self, curr_ts: int) -> int {
        if curr_ts >= self.end_ts {
            curr_ts - self.end_ts
        } else {
            0
        }
    }

    /// Seconds of lockup remaining at `curr_ts`.
    pub fn seconds_left(&self, curr_ts: i64) -> (r: u64)
        requires
            self.wf(),
        ensures
            r == self.spec_seconds_left(curr_ts as int),
    {
        match self.kind {
            LockupKind::NoLockup => 0,
            LockupKind::Cliff => if curr_ts >= self.end_ts {
                0
            } else {
                ((self.end_ts as i128) - (curr_ts as i128)) as u64
            },
            LockupKind::Constant => ((self.end_ts as i128) - (self.start_ts as i128)) as u64,
        }
    }

    /// Whether the lockup is expired at `curr_ts`.
    pub fn expired(&self, curr_ts: i64) -> (r: bool)
        requires
            self.wf(),
        ensures
            r == self.spec_expired(curr_ts as int),
    {
        self.seconds_left(curr_ts) == 0
    }

    /// Seconds elapsed since the lockup's end at `curr_ts`, zero before it.
    pub fn seconds_since_expiry(&self, curr_ts: i64) -> (r: u64)
        ensures
            r == self.spec_seconds_since_expiry(curr_ts as int),
    {
        if curr_ts >= self.end_ts {
            ((curr_ts as i128) - (self.end_ts as i128)) as u64
        } else {
            0
        }
    }
}

/// Voting-mint configuration: the scaled linear weight factors and the
/// saturation periods of the lockup bonus, read-only to this core.
#[derive(Clone, Copy, Debug, PartialEq, Eq, Structural)]
pub struct VotingMintConfig {
    /// Scaled factor of the baseline weight every deposited token earns.
    pub baseline_vote_weight_scaled_factor: u64,
    /// Scaled factor of the smallest locked weight an initially locked token
    /// earns.
    pub min_required_lockup_vote_weight_scaled_factor: u64,
    /// Scaled factor of the largest extra locked weight an initially locked
    /// token can earn.
    pub max_extra_lockup_vote_weight_scaled_factor: u64,
    /// Lockup period after which the locked bonus reaches its maximum.
    pub lockup_saturation_secs: u64,
    /// Minimum lockup period a configuration may demand; when positive, an
    /// unlocked deposit earns no voting power at all.
    pub min_required_lockup_saturation_secs: u64,
}

/// The configured linear weight: `amount` scaled by `factor` over the base.
pub open spec fn scaled_weight(amount: u64, factor: u64) -> int {
    (amount * factor) / (SCALED_FACTOR_BASE as int)
}

/// `amount` scaled by `factor` over the base, as the weight accessors
/// compute it. Fails with `ArithmeticError` exactly when the scaled value
/// does not fit 64 bits.
fn apply_scaled_factor(amount: u64, factor: u64) -> (r: Result<u64, ErrorCode>)
    ensures
        r is Ok <==> scaled_weight(amount, factor) <= u64::MAX,
        r matches Ok(v) ==> v == scaled_weight(amount, factor),
        r is Err ==> r == Err::<u64, ErrorCode>(ErrorCode::ArithmeticError),
{
    proof {
        vstd::arithmetic::mul::lemma_mul_upper_bound(
            amount as int,
            u64::MAX as int,
            factor as int,
            u64::MAX as int,
        );
        vstd::arithmetic::div_mod::lemma_div_is_ordered(
            0,
            amount as int * factor as int,
            SCALED_FACTOR_BASE as int,
        );
    }
    let scaled: u128 = ((amount as u128) * (factor as u128)) / (SCALED_FACTOR_BASE as u128);
    if scaled <= u64::MAX as u128 {
        Ok(scaled as u64)
    } else {
        Err(ErrorCode::ArithmeticError)
    }
}

impl VotingMintConfig {
    /// Baseline weight of a deposited amount.
    pub fn baseline_vote_weight(&self, amount_deposited_native: u64) -> (r: Result<u64, ErrorCode>)
        ensures
            r is Ok <==> scaled_weight(
                amount_deposited_native,
                self.baseline_vote_weight_scaled_factor,
            ) <= u64::MAX,
            r matches Ok(v) ==> v == scaled_weight(
                amount_deposited_native,
                self.baseline_vote_weight_scaled_factor,
            ),
            r is Err ==> r == Err::<u64, ErrorCode>(ErrorCode::ArithmeticError),
    {
        apply_scaled_factor(amount_deposited_native, self.baseline_vote_weight_scaled_factor)
    }

    /// Smallest locked weight of an initially locked amount.
    pub fn min_required_lockup_vote_weight(&self, amount_initially_locked_native: u64) -> (r:
        Result<u64, ErrorCode>)
        ensures
            r is Ok <==> scaled_weight(
                amount_initially_locked_native,
                self.min_required_lockup_vote_weight_scaled_factor,
            ) <= u64::MAX,
            r matches Ok(v) ==> v == scaled_weight(
                amount_initially_locked_native,
                self.min_required_lockup_vote_weight_scaled_factor,
            ),
            r is Err ==> r == Err::<u64, ErrorCode>(ErrorCode::ArithmeticError),
    {
        apply_scaled_factor(
            amount_initially_locked_native,
            self.min_required_lockup_vote_weight_scaled_factor,
        )
    }

    /// Largest extra locked weight of an initially locked amount.
    pub fn max_extra_lockup_vote_weight(&self, amount_initially_locked_native: u64) -> (r: Result<
        u64,
        ErrorCode,
    >)
        ensures
            r is Ok <==> scaled_weight(
                amount_initially_locked_native,
                self.max_extra_lockup_vote_weight_scaled_factor,
            ) <= u64::MAX,
            r matches Ok(v) ==> v == scaled_weight(
                amount_initially_locked_native,
                self.max_extra_lockup_vote_weight_scaled_factor,
            ),
            r is Err ==> r == Err::<u64, ErrorCode>(ErrorCode::ArithmeticError),
    {
        apply_scaled_factor(
            amount_initially_locked_native,
            self.max_extra_lockup_vote_weight_scaled_factor,
        )
    }
}

} // verus!
