use uma_fps_unlocker::hooking::{hook_next, hook_start, HookNext, HookStep};

fn run(outcome: impl Fn(HookStep) -> bool) -> Vec<&'static str> {
    let (mut p, mut step) = hook_start();
    let mut seen = Vec::new();
    loop {
        seen.push(match step {
            HookStep::WaitForModule => "wait",
            HookStep::FindResolver => "resolver",
            HookStep::ResolveFrameRateSetter => "tfr",
            HookStep::ResolveVsyncSetter => "vsync",
            HookStep::DetourFrameRate => "hook_tfr",
            HookStep::DetourVsync => "hook_vsync",
            HookStep::ApplyFrameRate => "apply_tfr",
            HookStep::ApplyVsync => "apply_vsync",
        });
        let (q, next) = hook_next(p, step, outcome(step));
        p = q;
        match next {
            HookNext::Run(s) => step = s,
            HookNext::Stop => return seen,
        }
    }
}

#[test]
fn full_start_up() {
    assert_eq!(
        run(|_| true),
        vec!["wait", "resolver", "tfr", "vsync", "hook_tfr", "hook_vsync", "apply_tfr", "apply_vsync"]
    );
}

#[test]
fn start_up_without_vsync_setter() {
    assert_eq!(
        run(|s| !matches!(s, HookStep::ResolveVsyncSetter)),
        vec!["wait", "resolver", "tfr", "vsync", "hook_tfr", "apply_tfr"]
    );
    assert_eq!(
        run(|s| !matches!(s, HookStep::DetourVsync)),
        vec!["wait", "resolver", "tfr", "vsync", "hook_tfr", "hook_vsync", "apply_tfr"]
    );
}

#[test]
fn start_up_stops_on_failures() {
    assert_eq!(run(|s| !matches!(s, HookStep::WaitForModule)), vec!["wait"]);
    assert_eq!(run(|s| !matches!(s, HookStep::FindResolver)), vec!["wait", "resolver"]);
    assert_eq!(run(|s| !matches!(s, HookStep::ResolveFrameRateSetter)), vec!["wait", "resolver", "tfr"]);
    assert_eq!(
        run(|s| !matches!(s, HookStep::DetourFrameRate)),
        vec!["wait", "resolver", "tfr", "vsync", "hook_tfr"]
    );
}
