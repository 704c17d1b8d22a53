//! Decisions of the two waiting loops: the injector waiting for the game
//! process to appear, and the injected module waiting for the game's
//! scripting module to be loaded. The caller performs the lookup, measures
//! the time since it started, hands both here, and sleeps when told to.

use vstd::prelude::*;

verus! {

/// Pause between two lookups of the game process, in milliseconds.
pub const GAME_POLL_INTERVAL_MS: u64 = 500;

/// Pause between two lookups of the game's scripting module, in milliseconds.
pub const MODULE_POLL_INTERVAL_MS: u64 = 100;

/// How long the injected module waits for the game's scripting module, in
/// milliseconds.
pub const MODULE_WAIT_LIMIT_MS: u64 = 60000;

/// What a waiting loop does after one lookup.
pub enum PollStep<T> {
    /// The lookup found its value: return it.
    Found(T),
    /// The time is up: return nothing.
    GiveUp,
    /// Sleep for the loop's interval and look again.
    Retry,
}

/// Whether the wait for the game process is over without a result.
pub open spec fn game_wait_over(wait_seconds: u64, elapsed_nanos: u128) -> bool {
    wait_seconds == 0 || elapsed_nanos >= wait_seconds * 1_000_000_000
}

/// Whether the wait for the scripting module is over without a result.
pub open spec fn module_wait_over(max_wait_ms: u64, elapsed_nanos: u128) -> bool {
    elapsed_nanos > max_wait_ms * 1_000_000
}

pub open spec fn poll_step_spec<T>(lookup: Option<T>, over: bool) -> PollStep<T> {
    match lookup {
        Some(v) => PollStep::Found(v),
        None => if over {
            PollStep::GiveUp
        } else {
            PollStep::Retry
        },
    }
}

/// The step of the wait for the game process, `elapsed_nanos` after it
/// started, when the latest lookup gave `lookup`. A zero wait gives up after
/// the first unsuccessful lookup.
pub fn game_wait_step<T>(lookup: Option<T>, wait_seconds: u64, elapsed_nanos: u128) -> (r:
    PollStep<T>)
    ensures
        r == poll_step_spec(lookup, game_wait_over(wait_seconds, elapsed_nanos)),
{
    match lookup {
        Some(v) => PollStep::Found(v),
        None => {
            let limit: u128 = (wait_seconds as u128) * 1_000_000_000;
            if wait_seconds == 0 || elapsed_nanos >= limit {
                PollStep::GiveUp
            } else {
                PollStep::Retry
            }
        },
    }
}

/// The step of the wait for the scripting module, `elapsed_nanos` after it
/// started, when the latest lookup gave `lookup`; it gives up once strictly
/// more than `max_wait_ms` have passed.
pub fn module_wait_step<T>(lookup: Option<T>, max_wait_ms: u64, elapsed_nanos: u128) -> (r:
    PollStep<T>)
    ensures
        r == poll_step_spec(lookup, module_wait_over(max_wait_ms, elapsed_nanos)),
{
    match lookup {
        Some(v) => PollStep::Found(v),
        None => {
            let limit: u128 = (max_wait_ms as u128) * 1_000_000;
            if elapsed_nanos > limit {
                PollStep::GiveUp
            } else {
                PollStep::Retry
            }
        },
    }
}

/// The wait for the game process ends: once the loop has slept its interval
/// `2 * wait_seconds` times, so that at least that much time has passed, a
/// failed lookup gives up. The injector thus looks at most
/// `2 * wait_seconds + 1` times.
pub proof fn law_game_wait_is_bounded(wait_seconds: u64, sleeps: nat, elapsed_nanos: u128)
    requires
        sleeps >= 2 * wait_seconds,
        elapsed_nanos >= sleeps * GAME_POLL_INTERVAL_MS * 1_000_000,
    ensures
        game_wait_over(wait_seconds, elapsed_nanos),
{
    assert(sleeps * GAME_POLL_INTERVAL_MS * 1_000_000 >= wait_seconds * 1_000_000_000) by (
    nonlinear_arith)
        requires
            sleeps >= 2 * wait_seconds,
    ;
}

/// The wait for the scripting module ends: once the loop has slept its
/// interval more than `max_wait_ms / 100` times, a failed lookup gives up.
pub proof fn law_module_wait_is_bounded(max_wait_ms: u64, sleeps: nat, elapsed_nanos: u128)
    requires
        sleeps * MODULE_POLL_INTERVAL_MS > max_wait_ms,
        elapsed_nanos >= sleeps * MODULE_POLL_INTERVAL_MS * 1_000_000,
    ensures
        module_wait_over(max_wait_ms, elapsed_nanos),
{
    assert(sleeps * MODULE_POLL_INTERVAL_MS * 1_000_000 > max_wait_ms * 1_000_000) by (
    nonlinear_arith)
        requires
            sleeps * MODULE_POLL_INTERVAL_MS > max_wait_ms,
    ;
}

/// A lookup that succeeds ends either wait with its value, however much time
/// has passed; a lookup that fails never ends the wait for the game process
/// with a value.
pub proof fn law_found_value_is_returned<T>(v: T, wait_seconds: u64, max_wait_ms: u64, elapsed_nanos: u128)
    ensures
        poll_step_spec(Some(v), game_wait_over(wait_seconds, elapsed_nanos)) == PollStep::Found(v),
        poll_step_spec(Some(v), module_wait_over(max_wait_ms, elapsed_nanos)) == PollStep::Found(v),
        !(poll_step_spec(None::<T>, game_wait_over(wait_seconds, elapsed_nanos)) is Found),
{
}

/// The wait for the game process is never cut short: with a positive wait,
/// a failed lookup before `wait_seconds` have passed retries; with a zero
/// wait, a failed lookup gives up at once.
pub proof fn law_game_wait_not_cut_short<T>(wait_seconds: u64, elapsed_nanos: u128)
    ensures
        (wait_seconds > 0 && elapsed_nanos < wait_seconds * 1_000_000_000) ==> (
        !game_wait_over(wait_seconds, elapsed_nanos) && poll_step_spec(
            None::<T>,
            game_wait_over(wait_seconds, elapsed_nanos),
        ) == PollStep::<T>::Retry),
        wait_seconds == 0 ==> poll_step_spec(None::<T>, game_wait_over(wait_seconds, elapsed_nanos))
            == PollStep::<T>::GiveUp,
        elapsed_nanos >= wait_seconds * 1_000_000_000 ==> game_wait_over(wait_seconds, elapsed_nanos),
{
}

/// The wait for the scripting module is never cut short: a failed lookup
/// retries as long as at most `max_wait_ms` have passed, and gives up once
/// more have.
pub proof fn law_module_wait_not_cut_short<T>(max_wait_ms: u64, elapsed_nanos: u128)
    ensures
        elapsed_nanos <= max_wait_ms * 1_000_000 ==> (!module_wait_over(max_wait_ms, elapsed_nanos)
            && poll_step_spec(None::<T>, module_wait_over(max_wait_ms, elapsed_nanos))
            == PollStep::<T>::Retry),
        elapsed_nanos > max_wait_ms * 1_000_000 ==> poll_step_spec(
            None::<T>,
            module_wait_over(max_wait_ms, elapsed_nanos),
        ) == PollStep::<T>::GiveUp,
{
}

} // verus!
