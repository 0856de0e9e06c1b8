//! Accounting transition of an authorized treasury release.
use vstd::prelude::*;

use crate::engines::execution_guard::{lifetime_of, pending_of, released_of, ReleaseBucket};
use crate::errors::TreasuryRouterError;
use crate::state::treasury::TreasuryState;

verus! {

/// Accounting result produced by a successful treasury release transition.
#[derive(Clone, Copy, Debug, PartialEq, Eq, Structural)]
pub struct ReleaseTransition {
    pub bucket: ReleaseBucket,
    pub amount: u64,
    pub previous_pending_balance: u64,
    pub remaining_pending_balance: u64,
    pub previous_released_balance: u64,
    pub total_released_balance: u64,
}

/// The treasury with one bucket's pending and released balances replaced.
pub open spec fn with_bucket(t: TreasuryState, bucket: ReleaseBucket, pending: u64, released: u64) -> TreasuryState {
    match bucket {
        ReleaseBucket::Reserve => TreasuryState { pending_reserve: pending, released_reserve: released, ..t },
        ReleaseBucket::BuybackBurn => TreasuryState {
            pending_buyback_burn: pending,
            released_buyback_burn: released,
            ..t
        },
        ReleaseBucket::Liquidity => TreasuryState {
            pending_liquidity: pending,
            released_liquidity: released,
            ..t
        },
        ReleaseBucket::Company => TreasuryState { pending_company: pending, released_company: released, ..t },
        ReleaseBucket::Founder => TreasuryState { pending_founder: pending, released_founder: released, ..t },
    }
}

/// The treasury after moving `amount` of a bucket from pending to released.
pub open spec fn released_state(t: TreasuryState, bucket: ReleaseBucket, amount: u64) -> TreasuryState {
    with_bucket(
        t,
        bucket,
        (pending_of(t, bucket) - amount) as u64,
        (released_of(t, bucket) + amount) as u64,
    )
}

/// The decision on a release transition: a zero amount, unbalanced
/// accounting, or an amount above the pending balance fail; otherwise the
/// amount moves from pending to released.
pub open spec fn release_outcome(t: TreasuryState, bucket: ReleaseBucket, amount: u64) -> Result<
    ReleaseTransition,
    TreasuryRouterError,
> {
    if amount == 0 {
        Err(TreasuryRouterError::InvalidReleaseAmount)
    } else if !t.all_balanced() {
        Err(TreasuryRouterError::AccountingInvariantViolation)
    } else if amount > pending_of(t, bucket) {
        Err(TreasuryRouterError::InsufficientPendingBalance)
    } else {
        Ok(
            ReleaseTransition {
                bucket,
                amount,
                previous_pending_balance: pending_of(t, bucket),
                remaining_pending_balance: (pending_of(t, bucket) - amount) as u64,
                previous_released_balance: released_of(t, bucket),
                total_released_balance: (released_of(t, bucket) + amount) as u64,
            },
        )
    }
}

/// Applies the accounting transition for an already-authorized release.
///
/// This does not authorize the release, apply the Waterfall or Dam, or move
/// tokens. On failure the treasury is left unchanged.
pub fn process_release(treasury: &mut TreasuryState, bucket: ReleaseBucket, amount: u64) -> (r: Result<
    ReleaseTransition,
    TreasuryRouterError,
>)
    ensures
        r == release_outcome(*old(treasury), bucket, amount),
        r is Ok ==> *final(treasury) == released_state(*old(treasury), bucket, amount),
        r is Err ==> *final(treasury) == *old(treasury),
{
    if amount == 0 {
        return Err(TreasuryRouterError::InvalidReleaseAmount);
    }
    if !treasury.execution_accounting_is_valid() {
        return Err(TreasuryRouterError::AccountingInvariantViolation);
    }
    let (previous_pending_balance, previous_released_balance) = balances_for_bucket(treasury, bucket);
    if amount > previous_pending_balance {
        return Err(TreasuryRouterError::InsufficientPendingBalance);
    }
    proof {
        lemma_balanced_bucket(*treasury, bucket);
    }
    let remaining_pending_balance = previous_pending_balance - amount;
    let total_released_balance = previous_released_balance + amount;
    set_balances_for_bucket(treasury, bucket, remaining_pending_balance, total_released_balance);
    proof {
        lemma_release_keeps_balance(*old(treasury), bucket, amount);
    }
    if !bucket_accounting_is_valid(treasury, bucket) {
        return Err(TreasuryRouterError::AccountingInvariantViolation);
    }
    if !treasury.execution_accounting_is_valid() {
        return Err(TreasuryRouterError::AccountingInvariantViolation);
    }
    Ok(
        ReleaseTransition {
            bucket,
            amount,
            previous_pending_balance,
            remaining_pending_balance,
            previous_released_balance,
            total_released_balance,
        },
    )
}

/// Returns pending and released balances for the selected treasury bucket.
pub fn balances_for_bucket(treasury: &TreasuryState, bucket: ReleaseBucket) -> (r: (u64, u64))
    ensures
        r == (pending_of(*treasury, bucket), released_of(*treasury, bucket)),
{
    match bucket {
        ReleaseBucket::Reserve => (treasury.pending_reserve, treasury.released_reserve),
        ReleaseBucket::BuybackBurn => (treasury.pending_buyback_burn, treasury.released_buyback_burn),
        ReleaseBucket::Liquidity => (treasury.pending_liquidity, treasury.released_liquidity),
        ReleaseBucket::Company => (treasury.pending_company, treasury.released_company),
        ReleaseBucket::Founder => (treasury.pending_founder, treasury.released_founder),
    }
}

pub(crate) fn set_balances_for_bucket(treasury: &mut TreasuryState, bucket: ReleaseBucket, pending: u64, released: u64)
    ensures
        *final(treasury) == with_bucket(*old(treasury), bucket, pending, released),
{
    match bucket {
        ReleaseBucket::Reserve => {
            treasury.pending_reserve = pending;
            treasury.released_reserve = released;
        },
        ReleaseBucket::BuybackBurn => {
            treasury.pending_buyback_burn = pending;
            treasury.released_buyback_burn = released;
        },
        ReleaseBucket::Liquidity => {
            treasury.pending_liquidity = pending;
            treasury.released_liquidity = released;
        },
        ReleaseBucket::Company => {
            treasury.pending_company = pending;
            treasury.released_company = released;
        },
        ReleaseBucket::Founder => {
            treasury.pending_founder = pending;
            treasury.released_founder = released;
        },
    }
}

/// Whether the selected bucket balances.
pub(crate) fn bucket_accounting_is_valid(treasury: &TreasuryState, bucket: ReleaseBucket) -> (r: bool)
    ensures
        r == (pending_of(*treasury, bucket) + released_of(*treasury, bucket) == lifetime_of(*treasury, bucket)),
{
    match bucket {
        ReleaseBucket::Reserve => treasury.reserve_accounting_is_valid(),
        ReleaseBucket::BuybackBurn => treasury.buyback_accounting_is_valid(),
        ReleaseBucket::Liquidity => treasury.liquidity_accounting_is_valid(),
        ReleaseBucket::Company => treasury.company_accounting_is_valid(),
        ReleaseBucket::Founder => treasury.founder_accounting_is_valid(),
    }
}

/// In balanced accounting every bucket's pending and released balances add
/// up to its lifetime allocation.
pub proof fn lemma_balanced_bucket(t: TreasuryState, bucket: ReleaseBucket)
    requires
        t.all_balanced(),
    ensures
        pending_of(t, bucket) + released_of(t, bucket) == lifetime_of(t, bucket),
{
}

/// A release keeps every bucket balanced and changes nothing but the
/// selected bucket's pending and released balances: lifetime allocations and
/// fee totals stay as they were.
pub proof fn lemma_release_keeps_balance(t: TreasuryState, bucket: ReleaseBucket, amount: u64)
    requires
        t.all_balanced(),
        amount <= pending_of(t, bucket),
    ensures
        released_state(t, bucket, amount).all_balanced(),
        pending_of(released_state(t, bucket, amount), bucket) == pending_of(t, bucket) - amount,
        released_of(released_state(t, bucket, amount), bucket) == released_of(t, bucket) + amount,
        forall|b: ReleaseBucket|
            b != bucket ==> pending_of(#[trigger] released_state(t, bucket, amount), b) == pending_of(t, b)
                && released_of(released_state(t, bucket, amount), b) == released_of(t, b),
        forall|b: ReleaseBucket| lifetime_of(#[trigger] released_state(t, bucket, amount), b) == lifetime_of(t, b),
        released_state(t, bucket, amount).total_fees_received == t.total_fees_received,
        released_state(t, bucket, amount).total_fees_allocated == t.total_fees_allocated,
        released_state(t, bucket, amount).processing_epoch == t.processing_epoch,
        released_state(t, bucket, amount).last_processed_at == t.last_processed_at,
{
}

/// Releases from two different buckets commute: either order succeeds and
/// both orders reach the same treasury.
pub proof fn lemma_releases_commute(
    t: TreasuryState,
    first: ReleaseBucket,
    first_amount: u64,
    second: ReleaseBucket,
    second_amount: u64,
)
    requires
        t.all_balanced(),
        first != second,
        0 < first_amount <= pending_of(t, first),
        0 < second_amount <= pending_of(t, second),
    ensures
        release_outcome(t, first, first_amount) is Ok,
        release_outcome(released_state(t, first, first_amount), second, second_amount) is Ok,
        release_outcome(released_state(t, second, second_amount), first, first_amount) is Ok,
        released_state(released_state(t, first, first_amount), second, second_amount) == released_state(
            released_state(t, second, second_amount),
            first,
            first_amount,
        ),
{
    lemma_release_keeps_balance(t, first, first_amount);
    lemma_release_keeps_balance(t, second, second_amount);
}

/// Releasing a bucket's whole pending balance leaves nothing pending and
/// its released balance equal to its lifetime allocation.
pub proof fn lemma_full_release(t: TreasuryState, bucket: ReleaseBucket)
    requires
        t.all_balanced(),
    ensures
        pending_of(released_state(t, bucket, pending_of(t, bucket)), bucket) == 0,
        released_of(released_state(t, bucket, pending_of(t, bucket)), bucket) == lifetime_of(t, bucket),
{
    lemma_release_keeps_balance(t, bucket, pending_of(t, bucket));
}

/// The treasury after releasing each bucket of `order` in turn, each release
/// taking the bucket's whole pending balance.
pub open spec fn drain_in_order(t: TreasuryState, order: Seq<ReleaseBucket>) -> TreasuryState
    decreases order.len(),
{
    if order.len() == 0 {
        t
    } else {
        drain_in_order(released_state(t, order[0], pending_of(t, order[0])), order.drop_first())
    }
}

/// Whether every release of `drain_in_order` is accepted.
pub open spec fn drain_succeeds(t: TreasuryState, order: Seq<ReleaseBucket>) -> bool
    decreases order.len(),
{
    order.len() == 0 || (release_outcome(t, order[0], pending_of(t, order[0])) is Ok && drain_succeeds(
        released_state(t, order[0], pending_of(t, order[0])),
        order.drop_first(),
    ))
}

/// The treasury with the buckets of `order` fully released: nothing of them
/// pending, and each released balance equal to its lifetime allocation.
pub open spec fn released_buckets(t: TreasuryState, order: Seq<ReleaseBucket>) -> TreasuryState {
    let r = order.contains(ReleaseBucket::Reserve);
    let b = order.contains(ReleaseBucket::BuybackBurn);
    let l = order.contains(ReleaseBucket::Liquidity);
    let c = order.contains(ReleaseBucket::Company);
    let f = order.contains(ReleaseBucket::Founder);
    TreasuryState {
        pending_reserve: if r { 0 } else { t.pending_reserve },
        released_reserve: if r { t.lifetime_reserve } else { t.released_reserve },
        pending_buyback_burn: if b { 0 } else { t.pending_buyback_burn },
        released_buyback_burn: if b { t.lifetime_buyback_burn } else { t.released_buyback_burn },
        pending_liquidity: if l { 0 } else { t.pending_liquidity },
        released_liquidity: if l { t.lifetime_liquidity } else { t.released_liquidity },
        pending_company: if c { 0 } else { t.pending_company },
        released_company: if c { t.lifetime_company } else { t.released_company },
        pending_founder: if f { 0 } else { t.pending_founder },
        released_founder: if f { t.lifetime_founder } else { t.released_founder },
        ..t
    }
}

/// The treasury with all five buckets fully released.
pub open spec fn fully_released(t: TreasuryState) -> TreasuryState {
    TreasuryState {
        pending_reserve: 0,
        released_reserve: t.lifetime_reserve,
        pending_buyback_burn: 0,
        released_buyback_burn: t.lifetime_buyback_burn,
        pending_liquidity: 0,
        released_liquidity: t.lifetime_liquidity,
        pending_company: 0,
        released_company: t.lifetime_company,
        pending_founder: 0,
        released_founder: t.lifetime_founder,
        ..t
    }
}

/// Draining distinct buckets one after another succeeds and releases
/// exactly those buckets.
proof fn lemma_drain_sequence(t: TreasuryState, order: Seq<ReleaseBucket>)
    requires
        t.all_balanced(),
        order.no_duplicates(),
        forall|i: int| 0 <= i < order.len() ==> pending_of(t, #[trigger] order[i]) > 0,
    ensures
        drain_succeeds(t, order),
        drain_in_order(t, order) == released_buckets(t, order),
    decreases order.len(),
{
    if order.len() == 0 {
        assert(released_buckets(t, order) == t);
    } else {
        let first = order[0];
        let rest = order.drop_first();
        let t1 = released_state(t, first, pending_of(t, first));
        lemma_release_keeps_balance(t, first, pending_of(t, first));
        assert forall|i: int| 0 <= i < rest.len() implies pending_of(t1, #[trigger] rest[i]) > 0 by {
            assert(rest[i] == order[i + 1]);
            assert(order[i + 1] != order[0]);
        }
        assert(!rest.contains(first)) by {
            if rest.contains(first) {
                let j = choose|j: int| 0 <= j < rest.len() && rest[j] == first;
                assert(order[j + 1] == order[0]);
            }
        }
        assert forall|b: ReleaseBucket| #[trigger] order.contains(b) == (b == first || rest.contains(b)) by {
            if order.contains(b) && b != first {
                let j = choose|j: int| 0 <= j < order.len() && order[j] == b;
                assert(rest[j - 1] == b);
            }
            if rest.contains(b) {
                let j = choose|j: int| 0 <= j < rest.len() && rest[j] == b;
                assert(order[j + 1] == b);
            }
            if b == first {
                assert(order[0] == b);
            }
        }
        assert(rest.no_duplicates()) by {
            assert forall|i: int, j: int| 0 <= i < rest.len() && 0 <= j < rest.len() && i != j implies rest[i]
                != rest[j] by {
                assert(rest[i] == order[i + 1] && rest[j] == order[j + 1]);
            }
        }
        lemma_drain_sequence(t1, rest);
        lemma_balanced_bucket(t, first);
        assert(released_buckets(t1, rest) == released_buckets(t, order));
    }
}

/// Releasing every bucket's whole pending balance reaches the same treasury
/// in whatever order the buckets are taken: every release is accepted, and
/// the end state has nothing pending, each released balance equal to its
/// lifetime allocation, and everything else as before.
pub proof fn lemma_release_order_irrelevant(t: TreasuryState, order: Seq<ReleaseBucket>)
    requires
        t.all_balanced(),
        order.no_duplicates(),
        forall|b: ReleaseBucket| #[trigger] order.contains(b),
        forall|b: ReleaseBucket| #[trigger] pending_of(t, b) > 0,
    ensures
        drain_succeeds(t, order),
        drain_in_order(t, order) == fully_released(t),
        fully_released(t).all_balanced(),
{
    assert forall|i: int| 0 <= i < order.len() implies pending_of(t, #[trigger] order[i]) > 0 by {
        assert(pending_of(t, order[i]) > 0);
    }
    lemma_drain_sequence(t, order);
    assert(order.contains(ReleaseBucket::Reserve));
    assert(order.contains(ReleaseBucket::BuybackBurn));
    assert(order.contains(ReleaseBucket::Liquidity));
    assert(order.contains(ReleaseBucket::Company));
    assert(order.contains(ReleaseBucket::Founder));
    assert(released_buckets(t, order) == fully_released(t));
}

} // verus!
