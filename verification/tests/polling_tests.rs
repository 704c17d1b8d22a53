use uma_fps_unlocker::polling::{
    game_wait_step, module_wait_step, PollStep, GAME_POLL_INTERVAL_MS, MODULE_POLL_INTERVAL_MS,
    MODULE_WAIT_LIMIT_MS,
};

/// Runs the waiting loop with a clock that stands still; a retry ends the
/// run with `Err` so that no test sleeps.
fn run_without_sleeping<T>(
    mut lookup: impl FnMut() -> Option<T>,
    wait_seconds: u64,
) -> Result<Option<T>, ()> {
    match game_wait_step(lookup(), wait_seconds, 0) {
        PollStep::Found(v) => Ok(Some(v)),
        PollStep::GiveUp => Ok(None),
        PollStep::Retry => Err(()),
    }
}

#[test]
fn returns_value_on_immediate_lookup() {
    let mut lookups = 0;
    let lookup = || {
        lookups += 1;
        Some(42u32)
    };
    let result = run_without_sleeping(lookup, 30);
    assert_eq!(result, Ok(Some(42)));
    assert_eq!(lookups, 1);
}

#[test]
fn returns_none_after_single_lookup_when_wait_is_zero() {
    let mut lookups = 0;
    let lookup = || {
        lookups += 1;
        None::<u32>
    };
    let result = run_without_sleeping(lookup, 0);
    assert_eq!(result, Ok(None));
    assert_eq!(lookups, 1);
}

#[test]
fn game_wait_gives_up_at_the_limit() {
    assert!(matches!(game_wait_step(None::<u32>, 2, 1_999_999_999), PollStep::Retry));
    assert!(matches!(game_wait_step(None::<u32>, 2, 2_000_000_000), PollStep::GiveUp));
    assert!(matches!(game_wait_step(Some(5u32), 2, u128::MAX), PollStep::Found(5)));
    assert!(matches!(game_wait_step(None::<u32>, u64::MAX, u128::MAX), PollStep::GiveUp));
    assert_eq!(GAME_POLL_INTERVAL_MS, 500);
}

#[test]
fn module_wait_gives_up_after_the_limit() {
    let limit = MODULE_WAIT_LIMIT_MS as u128 * 1_000_000;
    assert!(matches!(module_wait_step(None::<u8>, MODULE_WAIT_LIMIT_MS, limit), PollStep::Retry));
    assert!(matches!(module_wait_step(None::<u8>, MODULE_WAIT_LIMIT_MS, limit + 1), PollStep::GiveUp));
    assert!(matches!(module_wait_step(Some(1u8), 0, limit + 1), PollStep::Found(1)));
    assert!(matches!(module_wait_step(None::<u8>, 0, 0), PollStep::Retry));
    assert_eq!(MODULE_POLL_INTERVAL_MS, 100);
    assert_eq!(MODULE_WAIT_LIMIT_MS, 60000);
}

#[test]
fn game_wait_bounded_number_of_lookups() {
    // A clock that advances by exactly the sleep interval per retry.
    let wait_seconds = 3u64;
    let mut lookups = 0u64;
    let mut elapsed: u128 = 0;
    loop {
        lookups += 1;
        match game_wait_step(None::<u32>, wait_seconds, elapsed) {
            PollStep::Retry => elapsed += GAME_POLL_INTERVAL_MS as u128 * 1_000_000,
            PollStep::GiveUp => break,
            PollStep::Found(_) => unreachable!(),
        }
    }
    assert_eq!(lookups, 2 * wait_seconds + 1);
}

#[test]
fn module_wait_bounded_number_of_lookups() {
    // A clock that advances by exactly the sleep interval per retry.
    let max_wait_ms = 1000u64;
    let mut lookups = 0u64;
    let mut elapsed: u128 = 0;
    loop {
        lookups += 1;
        match module_wait_step(None::<u8>, max_wait_ms, elapsed) {
            PollStep::Retry => elapsed += MODULE_POLL_INTERVAL_MS as u128 * 1_000_000,
            PollStep::GiveUp => break,
            PollStep::Found(_) => unreachable!(),
        }
    }
    assert_eq!(lookups, max_wait_ms / MODULE_POLL_INTERVAL_MS + 2);
}
