//! Purge State Machine: decides, for one position, whether to reschedule the
//! position's trigger or to finalize it. A position whose lockup is not yet
//! expired yields a fresh one-shot schedule expression for its true expiry
//! (the lockup may have been extended since the trigger was last written);
//! an expired position has its contribution removed from the pool's decay
//! rate exactly once, atomically, and is marked purged.

use vstd::prelude::*;

use crate::cron::create_cron;
use crate::cron::spec_cron_of_ts;
use crate::cron::valid_cron_ts;
use crate::error::ErrorCode;
use crate::registrar::Lockup;
use crate::state::StakePositionV0;
use crate::state::SubDaoV0;
use crate::state::roll_forward_ok;
use crate::state::rolled_forward;
use crate::state::update_subdao_vehnt;

verus! {

/// Seconds after the lockup's expiry at which the rescheduled trigger fires.
pub const PURGE_OFFSET_SECS: i64 = 60 * 60;

/// Compile-time bypass of the not-yet-expired reschedule path, for test
/// builds only.
pub const TESTING: bool = false;

/// What a successful `process` call decided.
#[derive(Clone, Debug, PartialEq, Eq)]
pub enum PurgeOutcome {
    /// The lockup is not yet expired: the caller must rewrite the position's
    /// trigger to fire at this one-shot schedule expression.
    Rescheduled { schedule: String },
    /// The position's contribution was removed from the pool's decay rate
    /// and the position was marked purged.
    Finalized,
}

/// The instant the rescheduled trigger is built for: the lockup's true
/// expiry, plus the fixed follow-up offset.
pub open spec fn reschedule_instant(lockup: Lockup, curr_ts: int) -> int {
    curr_ts + lockup.spec_seconds_left(curr_ts) + PURGE_OFFSET_SECS
}

/// Finalizing succeeds exactly when the roll-forward succeeds, the pool's
/// aggregate fall rate covers the position's, and the catch-up restoration
/// fits 64 bits.
pub open spec fn finalize_ok(
    position: StakePositionV0,
    sub_dao: SubDaoV0,
    lockup: Lockup,
    curr_ts: int,
) -> bool {
    let catchup = position.fall_rate * lockup.spec_seconds_since_expiry(curr_ts);
    &&& roll_forward_ok(sub_dao, curr_ts)
    &&& position.fall_rate <= sub_dao.vehnt_fall_rate
    &&& catchup <= u64::MAX
    &&& rolled_forward(sub_dao, curr_ts).vehnt_staked + catchup <= u64::MAX
}

/// The pool ledger after a successful finalization: rolled forward to
/// `curr_ts`, the position's fall rate removed from the aggregate rate, and
/// the value the position would have decayed away between its true expiry
/// and now restored to the aggregate.
pub open spec fn finalized_pool(
    position: StakePositionV0,
    sub_dao: SubDaoV0,
    lockup: Lockup,
    curr_ts: int,
) -> SubDaoV0 {
    let rolled = rolled_forward(sub_dao, curr_ts);
    let catchup = position.fall_rate * lockup.spec_seconds_since_expiry(curr_ts);
    SubDaoV0 {
        vehnt_staked: (rolled.vehnt_staked + catchup) as u64,
        vehnt_fall_rate: (rolled.vehnt_fall_rate - position.fall_rate) as u64,
        vehnt_last_calculated_ts: rolled.vehnt_last_calculated_ts,
    }
}

/// Processes one position at `curr_ts`.
///
/// Not expired: mutates nothing and returns the one-shot schedule expression
/// for the lockup's true expiry plus the fixed follow-up offset, or
/// `InvalidCalendarInstant` when that instant is not representable. Already
/// purged (and expired): fails with `PositionAlreadyFinalized`, mutating
/// nothing. Expired and not yet purged: rolls the pool forward, removes the
/// position's fall rate from the aggregate rate, restores the excess decay
/// accrued since the true expiry, and marks the position purged — all four
/// mutations as one atomic unit, or none on `ArithmeticError`.
pub fn process(
    position: &mut StakePositionV0,
    sub_dao: &mut SubDaoV0,
    lockup: &Lockup,
    curr_ts: i64,
) -> (r: Result<PurgeOutcome, ErrorCode>)
    requires
        lockup.wf(),
        curr_ts >= old(sub_dao).vehnt_last_calculated_ts,
    ensures
        !TESTING && !lockup.spec_expired(curr_ts as int) ==> {
            &&& *final(position) == *old(position)
            &&& *final(sub_dao) == *old(sub_dao)
            &&& (r is Ok <==> valid_cron_ts(reschedule_instant(*lockup, curr_ts as int)))
            &&& (r matches Ok(o) ==> o is Rescheduled)
            &&& (r matches Ok(PurgeOutcome::Rescheduled { schedule }) ==> schedule@
                == spec_cron_of_ts(reschedule_instant(*lockup, curr_ts as int) as i64))
            &&& (r is Err ==> r == Err::<PurgeOutcome, ErrorCode>(
                ErrorCode::InvalidCalendarInstant,
            ))
        },
        (TESTING || lockup.spec_expired(curr_ts as int)) && old(position).purged ==> {
            &&& *final(position) == *old(position)
            &&& *final(sub_dao) == *old(sub_dao)
            &&& r == Err::<PurgeOutcome, ErrorCode>(ErrorCode::PositionAlreadyFinalized)
        },
        (TESTING || lockup.spec_expired(curr_ts as int)) && !old(position).purged ==> {
            &&& (r is Ok <==> finalize_ok(*old(position), *old(sub_dao), *lockup, curr_ts as int))
            &&& (r is Ok ==> {
                &&& r == Ok::<PurgeOutcome, ErrorCode>(PurgeOutcome::Finalized)
                &&& *final(sub_dao) == finalized_pool(
                    *old(position),
                    *old(sub_dao),
                    *lockup,
                    curr_ts as int,
                )
                &&& final(sub_dao).vehnt_fall_rate == old(sub_dao).vehnt_fall_rate - old(
                    position,
                ).fall_rate
                &&& *final(position) == (StakePositionV0 { purged: true, ..*old(position) })
            })
            &&& (r is Err ==> {
                &&& *final(position) == *old(position)
                &&& *final(sub_dao) == *old(sub_dao)
                &&& r == Err::<PurgeOutcome, ErrorCode>(ErrorCode::ArithmeticError)
            })
        },
{
    if !TESTING && !lockup.expired(curr_ts) {
        // The lockup may have been extended since the trigger was last
        // written: recompute the true expiry and hand back a fresh one-shot
        // schedule, mutating nothing.
        let seconds_until_expiry = lockup.seconds_left(curr_ts);
        let expiry_ts: i128 = (curr_ts as i128) + (seconds_until_expiry as i128);
        let target: i128 = expiry_ts + (PURGE_OFFSET_SECS as i128);
        if target < (crate::cron::MIN_VALID_UNIX_TS as i128) || target > (
        crate::cron::MAX_VALID_UNIX_TS as i128) {
            return Err(ErrorCode::InvalidCalendarInstant);
        }
        return match create_cron(expiry_ts as i64, PURGE_OFFSET_SECS) {
            Ok(schedule) => Ok(PurgeOutcome::Rescheduled { schedule }),
            Err(_) => Err(ErrorCode::InvalidCalendarInstant),
        };
    }
    if position.purged {
        return Err(ErrorCode::PositionAlreadyFinalized);
    }
    let time_since_expiry = lockup.seconds_since_expiry(curr_ts);

    // Compute every new value first; commit only when all of them exist, so
    // that a failure mutates nothing.
    let mut rolled = *sub_dao;
    match update_subdao_vehnt(&mut rolled, curr_ts) {
        Ok(()) => (),
        Err(e) => {
            return Err(e);
        },
    }
    let new_fall_rate = match rolled.vehnt_fall_rate.checked_sub(position.fall_rate) {
        Some(v) => v,
        None => {
            return Err(ErrorCode::ArithmeticError);
        },
    };
    let catchup = match position.fall_rate.checked_mul(time_since_expiry) {
        Some(v) => v,
        None => {
            return Err(ErrorCode::ArithmeticError);
        },
    };
    let new_staked = match rolled.vehnt_staked.checked_add(catchup) {
        Some(v) => v,
        None => {
            return Err(ErrorCode::ArithmeticError);
        },
    };
    sub_dao.vehnt_staked = new_staked;
    sub_dao.vehnt_fall_rate = new_fall_rate;
    sub_dao.vehnt_last_calculated_ts = curr_ts;
    position.purged = true;
    Ok(PurgeOutcome::Finalized)
}

} // verus!
