use crate::clock::clock_unix_timestamp;
use crate::pool::{ErrorCode, MeteorPool};
use vstd::prelude::*;

verus! {

/// What creating a pool works on: the storage slot that receives the record.
/// Funding and signing are settled by the host before the call.
pub struct InitPool {
    pub pool: MeteorPool,
}

/// What an activation attempt works on: the record to switch on.
pub struct Activate {
    pub pool: MeteorPool,
}

/// What setting the simulated time works on: the record to update.
pub struct SetSimulatedTime {
    pub pool: MeteorPool,
}

/// An attempt that read the host's clock: either the clock could not be
/// read and the record is untouched, or the record and result are those of
/// an attempt at some time the clock gave.
pub open spec fn clock_attempt(
    before: MeteorPool,
    after: MeteorPool,
    r: Result<(), ErrorCode>,
) -> bool {
    if r == Err::<(), ErrorCode>(ErrorCode::ClockUnavailable) {
        after == before
    } else {
        exists|now: i64|
            #[trigger] before.attempted_at(now as int) == after
                && r == before.attempt_result(now as int)
    }
}

/// An attempt that prefers the simulated time: with an override present the
/// record and result are those of an attempt at that time; without one the
/// attempt falls back to the host's clock.
pub open spec fn simulated_attempt(
    before: MeteorPool,
    after: MeteorPool,
    r: Result<(), ErrorCode>,
) -> bool {
    match before.simulated_timestamp {
        Some(s) => after == before.attempted_at(s as int) && r == before.attempt_result(s as int),
        None => clock_attempt(before, after, r),
    }
}

/// Sets up a new record: the given activation point, switched off, with no
/// simulated time.
pub fn init_pool(ctx: &mut InitPool, activation_point: i64)
    ensures
        final(ctx).pool == MeteorPool::created(activation_point),
        !final(ctx).pool.is_active,
{
    ctx.pool = MeteorPool { activation_point, is_active: false, simulated_timestamp: None };
}

/// Reads the host's clock and switches the record on if that time has
/// reached the activation point.
pub fn activate(ctx: &mut Activate) -> (r: Result<(), ErrorCode>)
    ensures
        clock_attempt(old(ctx).pool, final(ctx).pool, r),
        r is Ok ==> final(ctx).pool.is_active,
{
    match clock_unix_timestamp() {
        Ok(now) => {
            let r = ctx.pool.activate_at(now);
            assert(old(ctx).pool.attempted_at(now as int) == ctx.pool);
            r
        },
        Err(_) => Err(ErrorCode::ClockUnavailable),
    }
}

/// Replaces the record's simulated time; it never fails.
pub fn set_simulated_time(ctx: &mut SetSimulatedTime, simulated_timestamp: i64)
    ensures
        final(ctx).pool == old(ctx).pool.with_simulated_time(simulated_timestamp),
{
    ctx.pool.simulated_timestamp = Some(simulated_timestamp);
}

/// Switches the record on if the effective time has reached the activation
/// point. The simulated time, when present, is the effective time; otherwise
/// the host's clock is read.
pub fn activate_with_simulation(ctx: &mut Activate) -> (r: Result<(), ErrorCode>)
    ensures
        simulated_attempt(old(ctx).pool, final(ctx).pool, r),
        old(ctx).pool.simulated_timestamp matches Some(s) ==> {
            &&& (r is Ok <==> s >= old(ctx).pool.activation_point)
            &&& r is Err ==> final(ctx).pool == old(ctx).pool
            &&& r is Ok ==> final(ctx).pool.is_active
        },
        r is Ok ==> final(ctx).pool.is_active,
{
    match ctx.pool.simulated_timestamp {
        Some(now) => ctx.pool.activate_at(now),
        None => match clock_unix_timestamp() {
            Ok(now) => {
                let r = ctx.pool.activate_at(now);
                assert(old(ctx).pool.attempted_at(now as int) == ctx.pool);
                r
            },
            Err(_) => Err(ErrorCode::ClockUnavailable),
        },
    }
}

/// Once an activation attempt has succeeded the record is active, and it
/// stays active through any later attempt, whatever time that one reads;
/// neither attempt moves the activation point.
pub proof fn lemma_activation_sticks(
    first: MeteorPool,
    second: MeteorPool,
    third: MeteorPool,
    r1: Result<(), ErrorCode>,
    r2: Result<(), ErrorCode>,
)
    requires
        clock_attempt(first, second, r1),
        r1 is Ok,
        clock_attempt(second, third, r2),
    ensures
        second.is_active,
        third.is_active,
        second.activation_point == first.activation_point,
        third.activation_point == first.activation_point,
{
    if r2 != Err::<(), ErrorCode>(ErrorCode::ClockUnavailable) {
        let now = choose|now: i64|
            #[trigger] second.attempted_at(now as int) == third
                && r2 == second.attempt_result(now as int);
        assert(second.attempted_at(now as int) == third);
    }
}

/// Without a simulated time, an attempt that prefers the simulated time is
/// exactly an attempt on the host's clock.
pub proof fn lemma_no_override_uses_clock(
    before: MeteorPool,
    after: MeteorPool,
    r: Result<(), ErrorCode>,
)
    requires
        before.simulated_timestamp is None,
    ensures
        simulated_attempt(before, after, r) == clock_attempt(before, after, r),
{
}

/// After the simulated time is set to `s`, the next attempt that prefers the
/// simulated time succeeds exactly when `s` has reached the activation point,
/// never reads the clock, and on failure leaves the record as it was.
pub proof fn lemma_simulated_time_decides(
    pool: MeteorPool,
    s: i64,
    after: MeteorPool,
    r: Result<(), ErrorCode>,
)
    requires
        simulated_attempt(pool.with_simulated_time(s), after, r),
    ensures
        r is Ok <==> s >= pool.activation_point,
        r is Ok ==> after.is_active,
        r is Err ==> r == Err::<(), ErrorCode>(ErrorCode::NotActivatedYet)
            && after == pool.with_simulated_time(s),
        after.activation_point == pool.activation_point,
        after.simulated_timestamp == Some(s),
{
}

} // verus!
