//! Voting Power Calculator: a position's current vote weight from its lockup
//! terms and the mint configuration. The time-decaying interpolation between
//! the minimum and maximum locked weight is the external registrar's lockup
//! curve; the caller obtains that value and hands it in as
//! `locked_vote_weight`, and this core checks it against its bound and adds
//! the baseline.

use vstd::prelude::*;

use crate::error::ErrorCode;
use crate::registrar::Lockup;
use crate::registrar::LockupKind;
use crate::registrar::VotingMintConfig;
use crate::registrar::scaled_weight;

verus! {

/// An unlocked deposit earns nothing under a configuration that demands a
/// minimum lockup saturation period.
pub open spec fn unlocked_earns_nothing(lockup: Lockup, voting_mint_config: VotingMintConfig)
    -> bool {
    voting_mint_config.min_required_lockup_saturation_secs > 0 && lockup.kind
        is NoLockup
}

/// What `calculate_voting_power` returns, stated over the configured linear
/// weights: zero for an unlocked deposit under a minimum-saturation
/// configuration; otherwise the baseline weight plus the locked component,
/// with the baseline computed first, the locked component checked against
/// its maximum, and every overflow surfaced.
pub open spec fn spec_voting_power(
    lockup: Lockup,
    voting_mint_config: VotingMintConfig,
    amount_deposited_native: u64,
    amount_initially_locked_native: u64,
    locked_vote_weight: u64,
) -> Result<u64, ErrorCode> {
    let baseline = scaled_weight(
        amount_deposited_native,
        voting_mint_config.baseline_vote_weight_scaled_factor,
    );
    let min_locked = scaled_weight(
        amount_initially_locked_native,
        voting_mint_config.min_required_lockup_vote_weight_scaled_factor,
    );
    let max_locked = scaled_weight(
        amount_initially_locked_native,
        voting_mint_config.max_extra_lockup_vote_weight_scaled_factor,
    );
    if unlocked_earns_nothing(lockup, voting_mint_config) {
        Ok(0)
    } else if baseline > u64::MAX || min_locked > u64::MAX || max_locked > u64::MAX {
        Err(ErrorCode::ArithmeticError)
    } else if locked_vote_weight > max_locked || baseline + locked_vote_weight > u64::MAX {
        Err(ErrorCode::FailedVotingPowerCalculation)
    } else {
        Ok((baseline + locked_vote_weight) as u64)
    }
}

/// Computes a position's current vote weight.
///
/// `locked_vote_weight` is the external lockup curve's time-decaying
/// interpolation for this position; this function holds it to its invariant
/// `locked_vote_weight <= max_extra_lockup_vote_weight(amount)` and fails
/// with `FailedVotingPowerCalculation` when the curve violated it or the sum
/// overflows. A pure function: no side effects, and identical inputs yield
/// identical output.
pub fn calculate_voting_power(
    lockup: &Lockup,
    voting_mint_config: &VotingMintConfig,
    amount_deposited_native: u64,
    amount_initially_locked_native: u64,
    locked_vote_weight: u64,
) -> (r: Result<u64, ErrorCode>)
    ensures
        r == spec_voting_power(
            *lockup,
            *voting_mint_config,
            amount_deposited_native,
            amount_initially_locked_native,
            locked_vote_weight,
        ),
        unlocked_earns_nothing(*lockup, *voting_mint_config) ==> r == Ok::<u64, ErrorCode>(0),
        !unlocked_earns_nothing(*lockup, *voting_mint_config) ==> (r matches Ok(v) ==> v
            == scaled_weight(
            amount_deposited_native,
            voting_mint_config.baseline_vote_weight_scaled_factor,
        ) + locked_vote_weight && locked_vote_weight <= scaled_weight(
            amount_initially_locked_native,
            voting_mint_config.max_extra_lockup_vote_weight_scaled_factor,
        )),
{
    if voting_mint_config.min_required_lockup_saturation_secs > 0 && matches!(
        lockup.kind,
        LockupKind::NoLockup,
    ) {
        return Ok(0);
    }
    let baseline_vote_weight = match voting_mint_config.baseline_vote_weight(
        amount_deposited_native,
    ) {
        Ok(v) => v,
        Err(e) => {
            return Err(e);
        },
    };
    // The smallest locked weight is the external lockup curve's other input:
    // the curve's caller hands the curve both bounds, so an overflow in it
    // surfaces here, before the maximum bound is computed.
    let _min_required_locked_vote_weight = match voting_mint_config.min_required_lockup_vote_weight(
        amount_initially_locked_native,
    ) {
        Ok(v) => v,
        Err(e) => {
            return Err(e);
        },
    };
    let max_locked_vote_weight = match voting_mint_config.max_extra_lockup_vote_weight(
        amount_initially_locked_native,
    ) {
        Ok(v) => v,
        Err(e) => {
            return Err(e);
        },
    };
    if locked_vote_weight > max_locked_vote_weight {
        return Err(ErrorCode::FailedVotingPowerCalculation);
    }
    match baseline_vote_weight.checked_add(locked_vote_weight) {
        Some(total) => Ok(total),
        None => Err(ErrorCode::FailedVotingPowerCalculation),
    }
}

} // verus!
