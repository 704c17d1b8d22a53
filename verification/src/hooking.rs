//! The start-up sequence of the injected module, after its settings were
//! read: wait for the game's scripting module, resolve the two Unity
//! setters through `il2cpp_resolve_icall`, detour them, and apply the
//! settings once. The caller performs each step and reports its outcome.

use vstd::prelude::*;

verus! {

/// The steps of the module's start-up, in order.
#[derive(Clone, Copy)]
pub enum HookStep {
    /// Wait until `GameAssembly.dll` is loaded.
    WaitForModule,
    /// Find the export `il2cpp_resolve_icall` in it.
    FindResolver,
    /// Resolve `UnityEngine.Application::set_targetFrameRate`.
    ResolveFrameRateSetter,
    /// Resolve `UnityEngine.QualitySettings::set_vSyncCount`.
    ResolveVsyncSetter,
    /// Create and enable the detour of the frame-rate setter.
    DetourFrameRate,
    /// Create and enable the detour of the vertical-sync setter.
    DetourVsync,
    /// Call the original frame-rate setter once with the target frame rate.
    ApplyFrameRate,
    /// Call the original vertical-sync setter once with the setting.
    ApplyVsync,
}

/// What the start-up remembers between steps.
#[derive(Clone, Copy)]
pub struct HookProgress {
    /// The vertical-sync setter was resolved.
    pub vsync_setter_found: bool,
    /// The vertical-sync setter is detoured.
    pub vsync_detoured: bool,
}

/// What the caller does after a step.
pub enum HookNext {
    Run(HookStep),
    /// Nothing more to do (the start-up failed or is complete).
    Stop,
}

pub open spec fn hook_progress_after(p: HookProgress, step: HookStep, ok: bool) -> HookProgress {
    match step {
        HookStep::ResolveVsyncSetter => HookProgress {
            vsync_setter_found: ok,
            vsync_detoured: p.vsync_detoured,
        },
        HookStep::DetourVsync => HookProgress {
            vsync_setter_found: p.vsync_setter_found,
            vsync_detoured: ok,
        },
        _ => p,
    }
}

/// The step after `step`, given the progress after it.
pub open spec fn hook_next_spec(p: HookProgress, step: HookStep, ok: bool) -> HookNext {
    match step {
        HookStep::WaitForModule => if ok {
            HookNext::Run(HookStep::FindResolver)
        } else {
            HookNext::Stop
        },
        HookStep::FindResolver => if ok {
            HookNext::Run(HookStep::ResolveFrameRateSetter)
        } else {
            HookNext::Stop
        },
        HookStep::ResolveFrameRateSetter => if ok {
            HookNext::Run(HookStep::ResolveVsyncSetter)
        } else {
            HookNext::Stop
        },
        HookStep::ResolveVsyncSetter => HookNext::Run(HookStep::DetourFrameRate),
        HookStep::DetourFrameRate => if !ok {
            HookNext::Stop
        } else if p.vsync_setter_found {
            HookNext::Run(HookStep::DetourVsync)
        } else {
            HookNext::Run(HookStep::ApplyFrameRate)
        },
        HookStep::DetourVsync => HookNext::Run(HookStep::ApplyFrameRate),
        HookStep::ApplyFrameRate => if p.vsync_detoured {
            HookNext::Run(HookStep::ApplyVsync)
        } else {
            HookNext::Stop
        },
        HookStep::ApplyVsync => HookNext::Stop,
    }
}

/// How many steps at most remain after `step`.
pub open spec fn hook_steps_left(step: HookStep) -> nat {
    match step {
        HookStep::WaitForModule => 7,
        HookStep::FindResolver => 6,
        HookStep::ResolveFrameRateSetter => 5,
        HookStep::ResolveVsyncSetter => 4,
        HookStep::DetourFrameRate => 3,
        HookStep::DetourVsync => 2,
        HookStep::ApplyFrameRate => 1,
        HookStep::ApplyVsync => 0,
    }
}

/// The first step and the progress before it.
pub fn hook_start() -> (r: (HookProgress, HookStep))
    ensures
        r == (HookProgress { vsync_setter_found: false, vsync_detoured: false },
        HookStep::WaitForModule),
{
    (HookProgress { vsync_setter_found: false, vsync_detoured: false }, HookStep::WaitForModule)
}

/// The progress and the next action after `step` succeeded (`ok`) or failed.
pub fn hook_next(p: HookProgress, step: HookStep, ok: bool) -> (r: (HookProgress, HookNext))
    ensures
        r.0 == hook_progress_after(p, step, ok),
        r.1 == hook_next_spec(hook_progress_after(p, step, ok), step, ok),
{
    let mut q: HookProgress = p;
    let next: HookNext = match step {
        HookStep::WaitForModule => if ok {
            HookNext::Run(HookStep::FindResolver)
        } else {
            HookNext::Stop
        },
        HookStep::FindResolver => if ok {
            HookNext::Run(HookStep::ResolveFrameRateSetter)
        } else {
            HookNext::Stop
        },
        HookStep::ResolveFrameRateSetter => if ok {
            HookNext::Run(HookStep::ResolveVsyncSetter)
        } else {
            HookNext::Stop
        },
        HookStep::ResolveVsyncSetter => {
            q = HookProgress { vsync_setter_found: ok, vsync_detoured: p.vsync_detoured };
            HookNext::Run(HookStep::DetourFrameRate)
        },
        HookStep::DetourFrameRate => if !ok {
            HookNext::Stop
        } else if p.vsync_setter_found {
            HookNext::Run(HookStep::DetourVsync)
        } else {
            HookNext::Run(HookStep::ApplyFrameRate)
        },
        HookStep::DetourVsync => {
            q = HookProgress { vsync_setter_found: p.vsync_setter_found, vsync_detoured: ok };
            HookNext::Run(HookStep::ApplyFrameRate)
        },
        HookStep::ApplyFrameRate => if p.vsync_detoured {
            HookNext::Run(HookStep::ApplyVsync)
        } else {
            HookNext::Stop
        },
        HookStep::ApplyVsync => HookNext::Stop,
    };
    (q, next)
}

/// The start-up always ends: each step performed next has fewer steps left.
pub proof fn law_hook_start_up_ends(p: HookProgress, step: HookStep, ok: bool)
    ensures
        hook_next_spec(hook_progress_after(p, step, ok), step, ok) matches HookNext::Run(s)
            ==> hook_steps_left(s) < hook_steps_left(step),
{
}

/// The settings are applied only once the frame-rate setter is detoured: the
/// frame rate is applied only after a successful detour (directly, or after
/// the attempt on the vertical-sync setter), and vertical sync only when its
/// setter is detoured.
pub proof fn law_settings_applied_after_detours(p: HookProgress, step: HookStep, ok: bool)
    ensures
        hook_next_spec(hook_progress_after(p, step, ok), step, ok) == HookNext::Run(
            HookStep::ApplyFrameRate,
        ) ==> ((step is DetourFrameRate && ok) || step is DetourVsync),
        hook_next_spec(hook_progress_after(p, step, ok), step, ok) == HookNext::Run(
            HookStep::DetourVsync,
        ) ==> (step is DetourFrameRate && ok && p.vsync_setter_found),
        hook_next_spec(hook_progress_after(p, step, ok), step, ok) == HookNext::Run(
            HookStep::ApplyVsync,
        ) ==> (step is ApplyFrameRate && p.vsync_detoured),
{
}

} // verus!
