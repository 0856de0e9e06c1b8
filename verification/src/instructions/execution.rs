//! Authorized releases from the treasury settlement vault to the Reserve and
//! Liquidity Growth destinations.
use vstd::prelude::*;

use crate::engines::execution_guard::{
    authorization_outcome, authorize_release, pending_of, ExecutionAuthorization, ReleaseBucket,
};
use crate::engines::integrity_firewall::{
    evaluate_integrity, integrity_failed, IntegrityAccountKeys, IntegrityDestinations, IntegrityInputs,
    IntegrityInvariant, TokenAccountFacts,
};
use crate::engines::release::{
    balances_for_bucket, bucket_accounting_is_valid, lemma_balanced_bucket, lemma_release_keeps_balance,
    release_outcome, released_state, set_balances_for_bucket, ReleaseTransition,
};
use crate::errors::TreasuryRouterError;
use crate::pubkey::Pubkey;
use crate::state::company::CompanyState;
use crate::state::execution_config::ExecutionConfig;
use crate::state::founder::FounderState;
use crate::state::protocol::ProtocolState;
use crate::state::protocol_config::ProtocolConfig;
use crate::state::treasury::TreasuryState;

verus! {

/// The Execution Guard's decision on a direct release and, where it
/// authorizes the release, the accounting transition that follows.
pub open spec fn direct_release_outcome(
    protocol: ProtocolState,
    t: TreasuryState,
    bucket: ReleaseBucket,
    amount: u64,
) -> Result<(ExecutionAuthorization, ReleaseTransition), TreasuryRouterError> {
    match authorization_outcome(protocol, t, bucket, amount) {
        Err(e) => Err(e),
        Ok(a) => Ok((a, release_outcome(t, bucket, amount)->Ok_0)),
    }
}

/// Moves an authorized amount of a bucket from pending to released, then
/// checks that the bucket and the whole treasury still balance.
fn move_to_released(treasury: &mut TreasuryState, bucket: ReleaseBucket, amount: u64) -> (r: Result<
    ReleaseTransition,
    TreasuryRouterError,
>)
    requires
        old(treasury).all_balanced(),
        0 < amount <= pending_of(*old(treasury), bucket),
    ensures
        r == release_outcome(*old(treasury), bucket, amount),
        *final(treasury) == released_state(*old(treasury), bucket, amount),
{
    let (previous_pending_balance, previous_released_balance) = balances_for_bucket(treasury, bucket);
    proof {
        lemma_balanced_bucket(*treasury, bucket);
        lemma_release_keeps_balance(*treasury, bucket, amount);
    }
    let remaining_pending_balance = match previous_pending_balance.checked_sub(amount) {
        Some(value) => value,
        None => {
            return Err(TreasuryRouterError::ArithmeticOverflow);
        },
    };
    let total_released_balance = match previous_released_balance.checked_add(amount) {
        Some(value) => value,
        None => {
            return Err(TreasuryRouterError::ArithmeticOverflow);
        },
    };
    set_balances_for_bucket(treasury, bucket, remaining_pending_balance, total_released_balance);
    if !bucket_accounting_is_valid(treasury, bucket) {
        return Err(TreasuryRouterError::AccountingInvariantViolation);
    }
    if !treasury.execution_accounting_is_valid() {
        return Err(TreasuryRouterError::AccountingInvariantViolation);
    }
    Ok(
        ReleaseTransition {
            bucket,
            amount,
            previous_pending_balance,
            remaining_pending_balance,
            previous_released_balance,
            total_released_balance,
        },
    )
}

/// Authorizes a direct release through the Execution Guard and records it.
fn authorize_and_record(
    protocol: &ProtocolState,
    treasury: &mut TreasuryState,
    bucket: ReleaseBucket,
    amount: u64,
) -> (r: Result<(ExecutionAuthorization, ReleaseTransition), TreasuryRouterError>)
    ensures
        r == direct_release_outcome(*protocol, *old(treasury), bucket, amount),
        r is Ok ==> *final(treasury) == released_state(*old(treasury), bucket, amount),
        r is Err ==> *final(treasury) == *old(treasury),
{
    let authorization = authorize_release(protocol, treasury, bucket, amount)?;
    let transition = move_to_released(treasury, bucket, amount)?;
    Ok((authorization, transition))
}

/// The result of a Reserve execution: a paused protocol or unbalanced
/// accounting refuses it, then the Execution Guard decides.
pub open spec fn reserve_execution_outcome(protocol: ProtocolState, t: TreasuryState, amount: u64) -> Result<
    (ExecutionAuthorization, ReleaseTransition),
    TreasuryRouterError,
> {
    if protocol.paused {
        Err(TreasuryRouterError::ProtocolPaused)
    } else if !t.all_balanced() {
        Err(TreasuryRouterError::AccountingInvariantViolation)
    } else {
        direct_release_outcome(protocol, t, ReleaseBucket::Reserve, amount)
    }
}

/// Authorizes a Reserve release of `amount` and moves it from pending to
/// released reserve; the caller then transfers exactly `amount` from the
/// settlement vault to the Reserve destination. On error nothing changes.
pub fn execute_reserve_release(protocol: &ProtocolState, treasury: &mut TreasuryState, amount: u64) -> (r: Result<
    (ExecutionAuthorization, ReleaseTransition),
    TreasuryRouterError,
>)
    ensures
        r == reserve_execution_outcome(*protocol, *old(treasury), amount),
        r is Ok ==> *final(treasury) == released_state(*old(treasury), ReleaseBucket::Reserve, amount),
        r is Err ==> *final(treasury) == *old(treasury),
{
    if protocol.paused {
        return Err(TreasuryRouterError::ProtocolPaused);
    }
    if !treasury.execution_accounting_is_valid() {
        return Err(TreasuryRouterError::AccountingInvariantViolation);
    }
    authorize_and_record(protocol, treasury, ReleaseBucket::Reserve, amount)
}

/// The result of a Liquidity execution: any failed Integrity Firewall check
/// refuses it, then the Execution Guard decides.
pub open spec fn liquidity_execution_outcome(i: IntegrityInputs, amount: u64) -> Result<
    (ExecutionAuthorization, ReleaseTransition),
    TreasuryRouterError,
> {
    if exists|check: IntegrityInvariant| #[trigger] integrity_failed(i, check) {
        Err(TreasuryRouterError::IntegrityFirewallViolation)
    } else {
        direct_release_outcome(i.protocol, i.treasury, ReleaseBucket::Liquidity, amount)
    }
}

/// Runs the Integrity Firewall over the live accounts, authorizes a
/// Liquidity release of `amount` and moves it from pending to released
/// liquidity; the caller then transfers exactly `amount` to the Liquidity
/// Growth destination. On error nothing changes.
#[allow(clippy::too_many_arguments)]
pub fn execute_liquidity_release(
    program_id: Pubkey,
    keys: IntegrityAccountKeys,
    protocol: &ProtocolState,
    protocol_config: &ProtocolConfig,
    treasury: &mut TreasuryState,
    treasury_vault: TokenAccountFacts,
    founder: &FounderState,
    company: &CompanyState,
    execution_config: &ExecutionConfig,
    destinations: IntegrityDestinations,
    amount: u64,
) -> (r: Result<(ExecutionAuthorization, ReleaseTransition), TreasuryRouterError>)
    ensures
        r == liquidity_execution_outcome(
            IntegrityInputs {
                program_id,
                keys,
                protocol: *protocol,
                protocol_config: *protocol_config,
                treasury: *old(treasury),
                treasury_vault,
                founder: *founder,
                company: *company,
                execution_config: *execution_config,
                destinations,
            },
            amount,
        ),
        r is Ok ==> *final(treasury) == released_state(*old(treasury), ReleaseBucket::Liquidity, amount),
        r is Err ==> *final(treasury) == *old(treasury),
{
    let integrity_report = evaluate_integrity(
        program_id,
        keys,
        protocol,
        protocol_config,
        treasury,
        treasury_vault,
        founder,
        company,
        execution_config,
        destinations,
    );
    if !integrity_report.healthy {
        return Err(TreasuryRouterError::IntegrityFirewallViolation);
    }
    authorize_and_record(protocol, treasury, ReleaseBucket::Liquidity, amount)
}

} // verus!
