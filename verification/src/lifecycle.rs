//! Where a name stands in its life.
use vstd::prelude::*;

use crate::common::later;
use crate::types::{LifecycleClock, LifecycleStatus, SubAccountEntry, TlaEntry};

verus! {

/// When a retraction announced at `announced` takes effect.
pub open spec fn retraction_elapses(announced: u64, notice_ns: u64, clock: LifecycleClock) -> u64 {
    crate::common::max_u64(crate::common::capped_u64(announced + notice_ns), clock.reclaim_floor_ns)
}

/// A name goes with its top level account, and with a retraction whose notice has run out; else by
/// its own term.
pub open spec fn sub_lifecycle(
    sub: SubAccountEntry,
    tla: TlaEntry,
    notice_ns: u64,
    clock: LifecycleClock,
    tla_suspended_until: u64,
    now: u64,
) -> LifecycleStatus {
    if tla.lifecycle_of(clock, tla_suspended_until, now) is Reclaimable {
        LifecycleStatus::Reclaimable
    } else if sub.retraction_at is Some && now >= retraction_elapses(sub.retraction_at->0, notice_ns, clock) {
        LifecycleStatus::Reclaimable
    } else {
        crate::types::lifecycle_at(sub.expires_at, clock, now)
    }
}

pub fn effective_sub_lifecycle(
    sub: &SubAccountEntry,
    tla: &TlaEntry,
    retraction_notice_ns: u64,
    clock: &LifecycleClock,
    tla_suspended_until: u64,
    now: u64,
) -> (r: LifecycleStatus)
    ensures
        r == sub_lifecycle(*sub, *tla, retraction_notice_ns, *clock, tla_suspended_until, now),
{
    if tla.lifecycle(clock, tla_suspended_until, now) == LifecycleStatus::Reclaimable {
        return LifecycleStatus::Reclaimable;
    }
    if let Some(retraction_at) = sub.retraction_at {
        let elapsed_at: u64 = later(retraction_at.saturating_add(retraction_notice_ns), clock.reclaim_floor_ns);
        if now >= elapsed_at {
            return LifecycleStatus::Reclaimable;
        }
    }
    sub.lifecycle(clock, now)
}

/// Before the reclaim floor nothing is reclaimable.
pub proof fn nothing_reclaimable_below_the_floor(
    sub: SubAccountEntry,
    tla: TlaEntry,
    notice_ns: u64,
    clock: LifecycleClock,
    tla_suspended_until: u64,
    now: u64,
)
    requires
        now < clock.reclaim_floor_ns,
    ensures
        !(sub_lifecycle(sub, tla, notice_ns, clock, tla_suspended_until, now) is Reclaimable),
{
}

/// How far a term has run: active, in grace, reclaimable. What is registered or suspended is not
/// running.
pub open spec fn stage(status: LifecycleStatus) -> int {
    match status {
        LifecycleStatus::Registered => -1,
        LifecycleStatus::Suspended => -1,
        LifecycleStatus::Active => 0,
        LifecycleStatus::Grace => 1,
        LifecycleStatus::Reclaimable => 2,
    }
}

/// A term is active until it expires, in grace until it may be taken back, and reclaimable from then on,
/// and it is never anything else.
pub proof fn a_term_runs_through_three_stages(expires_at: u64, clock: LifecycleClock, now: u64)
    ensures
        ({
            let status = crate::types::lifecycle_at(expires_at, clock, now);
            &&& status is Active <==> now < expires_at
            &&& status is Grace <==> expires_at <= now < clock.reclaim_time(expires_at)
            &&& status is Reclaimable <==> now >= expires_at && now >= clock.reclaim_time(expires_at)
            &&& stage(status) >= 0
        }),
{
}

/// For one expiry and one clock, a later time never gives an earlier stage.
pub proof fn a_term_never_runs_back(expires_at: u64, clock: LifecycleClock, now: u64, later_now: u64)
    requires
        now <= later_now,
    ensures
        stage(crate::types::lifecycle_at(expires_at, clock, now)) <= stage(
            crate::types::lifecycle_at(expires_at, clock, later_now),
        ),
{
}

/// On the same terms, a later time never gives a name an earlier stage.
pub proof fn a_name_never_runs_back(
    sub: SubAccountEntry,
    tla: TlaEntry,
    notice_ns: u64,
    clock: LifecycleClock,
    tla_suspended_until: u64,
    now: u64,
    later_now: u64,
)
    requires
        now <= later_now,
    ensures
        stage(sub_lifecycle(sub, tla, notice_ns, clock, tla_suspended_until, now)) <= stage(
            sub_lifecycle(sub, tla, notice_ns, clock, tla_suspended_until, later_now),
        ),
{
}

/// What is reclaimable stays so as time goes by, on the same terms.
pub proof fn reclaimable_stays_reclaimable(
    sub: SubAccountEntry,
    tla: TlaEntry,
    notice_ns: u64,
    clock: LifecycleClock,
    tla_suspended_until: u64,
    now: u64,
    later_now: u64,
)
    requires
        now <= later_now,
        sub_lifecycle(sub, tla, notice_ns, clock, tla_suspended_until, now) is Reclaimable,
    ensures
        sub_lifecycle(sub, tla, notice_ns, clock, tla_suspended_until, later_now) is Reclaimable,
{
}

} // verus!
