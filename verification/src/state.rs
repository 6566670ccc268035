//! Pool ledger and stake position records, and the lazy roll-forward decay
//! ledger: `vehnt_staked` is correct only as of `vehnt_last_calculated_ts`,
//! so every read or mutation at a later time first rolls the ledger forward.

use vstd::prelude::*;

use crate::error::ErrorCode;

verus! {

/// Pool ledger: the decaying aggregate stake of one staking pool.
#[derive(Clone, Copy, Debug, PartialEq, Eq, Structural)]
pub struct SubDaoV0 {
    /// Decaying aggregate value, valid only as of `vehnt_last_calculated_ts`.
    pub vehnt_staked: u64,
    /// Aggregate per-second decay rate: the sum of the fall rates of all
    /// positions not yet purged.
    pub vehnt_fall_rate: u64,
    /// Timestamp at which `vehnt_staked` was last recomputed.
    pub vehnt_last_calculated_ts: i64,
}

/// One locked stake position contributing to a pool's decay rate.
#[derive(Clone, Copy, Debug, PartialEq, Eq, Structural)]
pub struct StakePositionV0 {
    /// Index of the backing lockup record in the external registrar.
    pub deposit_entry_idx: u8,
    /// This position's contribution to the pool's aggregate decay rate.
    pub fall_rate: u64,
    /// True exactly once the position has been purged; never reverts.
    pub purged: bool,
}

/// Amount the pool's aggregate decays between its last calculation and
/// `curr_ts`.
pub open spec fn decay_between(sub_dao: SubDaoV0, curr_ts: int) -> int {
    (curr_ts - sub_dao.vehnt_last_calculated_ts) * sub_dao.vehnt_fall_rate
}

/// A roll-forward to `curr_ts` succeeds exactly when the decayed amount does
/// not go negative.
pub open spec fn roll_forward_ok(sub_dao: SubDaoV0, curr_ts: int) -> bool {
    decay_between(sub_dao, curr_ts) <= sub_dao.vehnt_staked
}

/// The pool ledger after a successful roll-forward to `curr_ts`.
pub open spec fn rolled_forward(sub_dao: SubDaoV0, curr_ts: int) -> SubDaoV0
    recommends
        sub_dao.vehnt_last_calculated_ts <= curr_ts <= i64::MAX,
        roll_forward_ok(sub_dao, curr_ts),
{
    SubDaoV0 {
        vehnt_staked: (sub_dao.vehnt_staked - decay_between(sub_dao, curr_ts)) as u64,
        vehnt_fall_rate: sub_dao.vehnt_fall_rate,
        vehnt_last_calculated_ts: curr_ts as i64,
    }
}

/// Rolls the pool's aggregate forward to `curr_ts`: subtracts the decay
/// accrued since the last calculation and stamps the ledger with `curr_ts`.
///
/// Fails with `ArithmeticError`, mutating nothing, exactly when the decayed
/// amount would go negative: that means `vehnt_fall_rate` and `vehnt_staked`
/// drifted out of sync and must never be silently clamped.
pub fn update_subdao_vehnt(sub_dao: &mut SubDaoV0, curr_ts: i64) -> (r: Result<(), ErrorCode>)
    requires
        curr_ts >= old(sub_dao).vehnt_last_calculated_ts,
    ensures
        r is Ok <==> roll_forward_ok(*old(sub_dao), curr_ts as int),
        r is Ok ==> *final(sub_dao) == rolled_forward(*old(sub_dao), curr_ts as int),
        r is Err ==> *final(sub_dao) == *old(sub_dao) && r == Err::<(), ErrorCode>(
            ErrorCode::ArithmeticError,
        ),
{
    let elapsed: u64 = ((curr_ts as i128) - (sub_dao.vehnt_last_calculated_ts as i128)) as u64;
    proof {
        vstd::arithmetic::mul::lemma_mul_upper_bound(
            elapsed as int,
            u64::MAX as int,
            sub_dao.vehnt_fall_rate as int,
            u64::MAX as int,
        );
    }
    let decay: u128 = (elapsed as u128) * (sub_dao.vehnt_fall_rate as u128);
    if decay <= sub_dao.vehnt_staked as u128 {
        sub_dao.vehnt_staked = sub_dao.vehnt_staked - (decay as u64);
        sub_dao.vehnt_last_calculated_ts = curr_ts;
        Ok(())
    } else {
        Err(ErrorCode::ArithmeticError)
    }
}

/// Law: rolling forward twice at the same time is a no-op — the second
/// roll-forward succeeds and leaves the ledger exactly as the first did.
pub proof fn lemma_roll_forward_idempotent(sub_dao: SubDaoV0, t: int)
    requires
        sub_dao.vehnt_last_calculated_ts <= t <= i64::MAX,
        roll_forward_ok(sub_dao, t),
    ensures
        roll_forward_ok(rolled_forward(sub_dao, t), t),
        rolled_forward(rolled_forward(sub_dao, t), t) == rolled_forward(sub_dao, t),
{
    assert(0 <= (t - sub_dao.vehnt_last_calculated_ts) * sub_dao.vehnt_fall_rate)
        by (nonlinear_arith)
        requires
            sub_dao.vehnt_last_calculated_ts <= t,
            sub_dao.vehnt_fall_rate >= 0,
    ;
    let once = rolled_forward(sub_dao, t);
    assert(once.vehnt_last_calculated_ts == t);
    assert((t - once.vehnt_last_calculated_ts) * once.vehnt_fall_rate == 0) by (nonlinear_arith)
        requires
            once.vehnt_last_calculated_ts == t,
    ;
    assert(decay_between(once, t) == 0);
}

/// Law: with no intervening mutation, rolling forward decays linearly — the
/// aggregate after a roll to `t2` is the aggregate after a roll to `t1`
/// minus `(t2 - t1)` times the fall rate, and rolling to `t1` and then to
/// `t2` lands on the same ledger as rolling to `t2` directly.
pub proof fn lemma_roll_forward_linear(sub_dao: SubDaoV0, t1: int, t2: int)
    requires
        sub_dao.vehnt_last_calculated_ts <= t1 <= t2 <= i64::MAX,
        roll_forward_ok(sub_dao, t2),
    ensures
        roll_forward_ok(sub_dao, t1),
        rolled_forward(sub_dao, t2).vehnt_staked == rolled_forward(sub_dao, t1).vehnt_staked - (
        t2 - t1) * sub_dao.vehnt_fall_rate,
        rolled_forward(rolled_forward(sub_dao, t1), t2) == rolled_forward(sub_dao, t2),
{
    let l = sub_dao.vehnt_last_calculated_ts as int;
    let r = sub_dao.vehnt_fall_rate as int;
    assert((t1 - l) * r + (t2 - t1) * r == (t2 - l) * r && 0 <= (t1 - l) * r && 0 <= (t2 - t1)
        * r) by (nonlinear_arith)
        requires
            l <= t1 <= t2,
            r >= 0,
    ;
}

} // verus!
