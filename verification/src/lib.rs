//! Decaying aggregate stake ("vehnt") accounting for a pool of locked stake
//! positions: a lazy roll-forward decay ledger, a voting-power calculator, a
//! one-shot cron-expression builder, and the purge state machine that removes
//! an expired position's contribution to the decay rate exactly once.

use vstd::prelude::*;

mod cron;
mod error;
mod purge;
mod registrar;
mod state;
mod voting;

pub use cron::MAX_VALID_UNIX_TS;
pub use cron::MIN_VALID_UNIX_TS;
pub use cron::create_cron;
pub use cron::i64_to_dec_string;
pub use cron::month_name;
pub use cron::spec_cron;
pub use cron::spec_cron_of_ts;
pub use cron::spec_dec_digits;
pub use cron::spec_digit;
pub use cron::spec_int_digits;
pub use cron::spec_month_name;
pub use cron::u64_to_dec_string;
pub use cron::utc_fields_of;
pub use cron::valid_cron_ts;
pub use error::ErrorCode;
pub use error::OrArithError;
pub use purge::PURGE_OFFSET_SECS;
pub use purge::PurgeOutcome;
pub use purge::TESTING;
pub use purge::finalize_ok;
pub use purge::finalized_pool;
pub use purge::process;
pub use purge::reschedule_instant;
pub use voting::calculate_voting_power;
pub use voting::spec_voting_power;
pub use voting::unlocked_earns_nothing;
pub use registrar::Lockup;
pub use registrar::LockupKind;
pub use registrar::SCALED_FACTOR_BASE;
pub use registrar::VotingMintConfig;
pub use registrar::scaled_weight;
pub use state::StakePositionV0;
pub use state::SubDaoV0;
pub use state::decay_between;
pub use state::lemma_roll_forward_idempotent;
pub use state::lemma_roll_forward_linear;
pub use state::roll_forward_ok;
pub use state::rolled_forward;
pub use state::update_subdao_vehnt;

verus! {

/// Seconds in one epoch (one day).
pub const EPOCH_LENGTH: i64 = 24 * 60 * 60;

/// Epoch number that a timestamp falls in.
pub fn current_epoch(unix_timestamp: i64) -> (r: u64)
    requires
        unix_timestamp >= 0,
    ensures
        r == unix_timestamp / EPOCH_LENGTH,
{
    (unix_timestamp as u64) / (EPOCH_LENGTH as u64)
}

/// First timestamp of the epoch after the one that `unix_timestamp` falls in.
pub fn next_epoch_ts(unix_timestamp: i64) -> (r: u64)
    requires
        unix_timestamp >= 0,
    ensures
        r == (unix_timestamp / EPOCH_LENGTH + 1) * EPOCH_LENGTH,
{
    let epoch = current_epoch(unix_timestamp);
    proof {
        let t = unix_timestamp as int;
        let e = EPOCH_LENGTH as int;
        let q = t / e;
        vstd::arithmetic::div_mod::lemma_remainder(t, e);
        vstd::arithmetic::div_mod::lemma_div_pos_is_pos(t, e);
        assert(q + 1 <= u64::MAX && (q + 1) * e == q * e + e) by (nonlinear_arith)
            requires
                0 <= q,
                q * e <= t,
                t <= i64::MAX,
                e == 86400,
        ;
    }
    (epoch + 1) * (EPOCH_LENGTH as u64)
}

} // verus!
