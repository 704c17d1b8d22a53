//! The injection sequence shared by the console and the windowed injector:
//! which step comes next, which failures end the run, and the texts shown to
//! the user. The caller performs each step (process list, image path, file
//! writes, remote thread) and reports whether it succeeded.
//!
//! Also the decoding of the windowed injector's button notifications.

use vstd::prelude::*;
use crate::text::{i32_text, i32_to_text};
use crate::cli::CliOptions;

verus! {

/// Name of the module that is injected, next to the injector.
pub const DLL_FILE_NAME: &'static str = "uma_unlocker.dll";

/// Caption of the windowed injector and of its message boxes.
pub const WINDOW_TITLE: &'static str = "Uma FPS Unlocker";

/// Control identifiers of the windowed injector.
pub const ID_RADIO_JP: i32 = 1001;
pub const ID_RADIO_GL: i32 = 1002;
pub const ID_EDIT_FPS: i32 = 1003;
pub const ID_CHECK_VSYNC: i32 = 1004;
pub const ID_BTN_INJECT: i32 = 1005;
pub const ID_BTN_QUIT: i32 = 1006;

/// Which injector runs the sequence.
#[derive(Clone, Copy)]
pub enum Frontend {
    Console,
    Window,
}

/// The steps of an injection run, in the order in which they are tried.
#[derive(Clone, Copy)]
pub enum Step {
    /// Find the game process in the process list.
    FindProcess,
    /// Read the path of the game's executable.
    ResolveImagePath,
    /// Write the FPS file into the game folder.
    WriteFps,
    /// Write the vertical-sync file into the game folder.
    WriteVsync,
    /// Check that the module to inject is next to the injector.
    LocateDll,
    /// Load the module into the game process.
    Inject,
}

/// What the caller does after a step.
pub enum Next {
    /// Perform this step.
    Run(Step),
    /// Stop: this step failed; show its failure text.
    Abort(Step),
    /// The module is injected; show the success text.
    Finish,
}

/// A run of the sequence: who runs it and whether the vertical-sync file is
/// written.
pub struct InjectPlan {
    pub frontend: Frontend,
    pub write_vsync: bool,
}

/// The step that follows `step` when it succeeded.
pub open spec fn step_after(plan: InjectPlan, step: Step) -> Next {
    match step {
        Step::FindProcess => Next::Run(Step::ResolveImagePath),
        Step::ResolveImagePath => Next::Run(Step::WriteFps),
        Step::WriteFps => if plan.write_vsync {
            Next::Run(Step::WriteVsync)
        } else {
            Next::Run(Step::LocateDll)
        },
        Step::WriteVsync => Next::Run(Step::LocateDll),
        Step::LocateDll => Next::Run(Step::Inject),
        Step::Inject => Next::Finish,
    }
}

/// Whether a failure of `step` ends the run: the console injector only warns
/// when a configuration file cannot be written and goes on.
pub open spec fn is_fatal(frontend: Frontend, step: Step) -> bool {
    !(frontend is Console && (step is WriteFps || step is WriteVsync))
}

pub open spec fn next_spec(plan: InjectPlan, step: Step, succeeded: bool) -> Next {
    if succeeded || !is_fatal(plan.frontend, step) {
        step_after(plan, step)
    } else {
        Next::Abort(step)
    }
}

/// How many steps at most remain after `step`.
pub open spec fn steps_left(step: Step) -> nat {
    match step {
        Step::FindProcess => 5,
        Step::ResolveImagePath => 4,
        Step::WriteFps => 3,
        Step::WriteVsync => 2,
        Step::LocateDll => 1,
        Step::Inject => 0,
    }
}

/// The text shown when `step` fails. The console injector appends the
/// system's error to the texts of the file writes and of the injection.
pub open spec fn failure_text(frontend: Frontend, step: Step) -> Seq<char> {
    match frontend {
        Frontend::Console => match step {
            Step::FindProcess => "JP process not found (umamusume.exe / umamusumeprettyderby_jpn.exe). Start the game first."@,
            Step::ResolveImagePath => "Could not get game image path."@,
            Step::WriteFps => "Failed writing target FPS file: "@,
            Step::WriteVsync => "Failed writing vsync file: "@,
            Step::LocateDll => "uma_unlocker.dll not found next to the injector."@,
            Step::Inject => "Injection failed: "@,
        },
        Frontend::Window => match step {
            Step::FindProcess => "Game process not found. Start the game first."@,
            Step::ResolveImagePath => "Could not get game image path"@,
            Step::WriteFps => "Failed writing FPS file"@,
            Step::WriteVsync => "Failed writing VSync file"@,
            Step::LocateDll => "uma_unlocker.dll not found next to the GUI executable"@,
            Step::Inject => "Injection failed"@,
        },
    }
}

pub open spec fn on_off_text(on: bool) -> Seq<char> {
    if on {
        "on"@
    } else {
        "off"@
    }
}

/// The text shown after a successful injection.
pub open spec fn success_text(fps: i32, vsync: Option<bool>) -> Seq<char> {
    "Injected. Target FPS = "@ + i32_text(fps) + match vsync {
        Some(on) => ", VSync = "@ + on_off_text(on),
        None => Seq::<char>::empty(),
    }
}

/// The first step of every run.
pub fn first_step() -> (r: Step)
    ensures
        r == Step::FindProcess,
{
    Step::FindProcess
}

/// The plan of the console injector: the vertical-sync file is written only
/// when `--vsync` was given.
pub fn console_plan(opts: &CliOptions) -> (r: InjectPlan)
    ensures
        r == (InjectPlan { frontend: Frontend::Console, write_vsync: opts.vsync is Some }),
{
    InjectPlan { frontend: Frontend::Console, write_vsync: opts.vsync.is_some() }
}

/// The plan of the windowed injector: both files are always written.
pub fn window_plan() -> (r: InjectPlan)
    ensures
        r == (InjectPlan { frontend: Frontend::Window, write_vsync: true }),
{
    InjectPlan { frontend: Frontend::Window, write_vsync: true }
}

/// What to do after `step` ran and succeeded or failed.
pub fn next_step(plan: &InjectPlan, step: Step, succeeded: bool) -> (r: Next)
    ensures
        r == next_spec(*plan, step, succeeded),
{
    let fatal: bool = match plan.frontend {
        Frontend::Console => match step {
            Step::WriteFps => false,
            Step::WriteVsync => false,
            _ => true,
        },
        Frontend::Window => true,
    };
    if !succeeded && fatal {
        return Next::Abort(step);
    }
    match step {
        Step::FindProcess => Next::Run(Step::ResolveImagePath),
        Step::ResolveImagePath => Next::Run(Step::WriteFps),
        Step::WriteFps => if plan.write_vsync {
            Next::Run(Step::WriteVsync)
        } else {
            Next::Run(Step::LocateDll)
        },
        Step::WriteVsync => Next::Run(Step::LocateDll),
        Step::LocateDll => Next::Run(Step::Inject),
        Step::Inject => Next::Finish,
    }
}

/// The text shown when `step` fails.
pub fn failure_message(frontend: &Frontend, step: &Step) -> (r: String)
    ensures
        r@ == failure_text(*frontend, *step),
{
    match frontend {
        Frontend::Console => match step {
            Step::FindProcess => String::from_str(
                "JP process not found (umamusume.exe / umamusumeprettyderby_jpn.exe). Start the game first.",
            ),
            Step::ResolveImagePath => String::from_str("Could not get game image path."),
            Step::WriteFps => String::from_str("Failed writing target FPS file: "),
            Step::WriteVsync => String::from_str("Failed writing vsync file: "),
            Step::LocateDll => String::from_str("uma_unlocker.dll not found next to the injector."),
            Step::Inject => String::from_str("Injection failed: "),
        },
        Frontend::Window => match step {
            Step::FindProcess => String::from_str("Game process not found. Start the game first."),
            Step::ResolveImagePath => String::from_str("Could not get game image path"),
            Step::WriteFps => String::from_str("Failed writing FPS file"),
            Step::WriteVsync => String::from_str("Failed writing VSync file"),
            Step::LocateDll => String::from_str(
                "uma_unlocker.dll not found next to the GUI executable",
            ),
            Step::Inject => String::from_str("Injection failed"),
        },
    }
}

/// The text shown by the windowed injector when the frame-rate box does not
/// hold a positive number.
pub fn invalid_fps_message() -> (r: String)
    ensures
        r@ == "Please enter a valid FPS (> 0)"@,
{
    String::from_str("Please enter a valid FPS (> 0)")
}

/// The text shown after a successful injection; the console injector omits
/// the vertical-sync part when `--vsync` was not given.
pub fn success_message(fps: i32, vsync: Option<bool>) -> (r: String)
    ensures
        r@ == success_text(fps, vsync),
{
    let mut s: String = String::from_str("Injected. Target FPS = ");
    let n: String = i32_to_text(fps);
    s.append(n.as_str());
    match vsync {
        Some(on) => {
            s.append(", VSync = ");
            if on {
                s.append("on");
            } else {
                s.append("off");
            }
        },
        None => {},
    }
    assert(s@ =~= success_text(fps, vsync));
    s
}

/// A `WM_COMMAND` word split into control identifier and notification code.
pub struct CommandWord {
    pub id: i32,
    pub code: u16,
}

/// What a notification asks of the windowed injector.
pub enum GuiCommand {
    Quit,
    Inject,
    Ignore,
}

/// Splits the `wparam` of a `WM_COMMAND` message: the low 16 bits are the
/// control identifier, the next 16 bits the notification code.
pub fn decode_command(wparam: usize) -> (r: CommandWord)
    ensures
        r.id == wparam % 65536,
        r.code == (wparam / 65536) % 65536,
{
    let low: usize = wparam & 0xFFFF;
    let high: usize = (wparam >> 16usize) & 0xFFFF;
    assert(low == wparam % 65536) by (bit_vector)
        requires
            low == wparam & 0xFFFF,
    ;
    assert(high == (wparam / 65536) % 65536) by (bit_vector)
        requires
            high == (wparam >> 16usize) & 0xFFFF,
    ;
    CommandWord { id: low as i32, code: high as u16 }
}

/// The command of a button notification: only clicks on the two buttons
/// count.
pub fn classify_command(word: &CommandWord, clicked: bool) -> (r: GuiCommand)
    ensures
        r == (if clicked && word.id == ID_BTN_QUIT {
            GuiCommand::Quit
        } else if clicked && word.id == ID_BTN_INJECT {
            GuiCommand::Inject
        } else {
            GuiCommand::Ignore
        }),
{
    if clicked && word.id == ID_BTN_QUIT {
        GuiCommand::Quit
    } else if clicked && word.id == ID_BTN_INJECT {
        GuiCommand::Inject
    } else {
        GuiCommand::Ignore
    }
}

// ---------------------------------------------------------------------------
// Laws
// ---------------------------------------------------------------------------

/// Every run ends: each step that is performed next has fewer steps left
/// after it, so a run performs at most six steps.
pub proof fn law_run_always_ends(plan: InjectPlan, step: Step, succeeded: bool)
    ensures
        next_spec(plan, step, succeeded) matches Next::Run(s) ==> steps_left(s) < steps_left(step),
        steps_left(step) <= 5,
{
}

/// The module is injected only after the check for it succeeded, and the run
/// reports success only after the injection succeeded.
pub proof fn law_success_needs_injection(plan: InjectPlan, step: Step, succeeded: bool)
    ensures
        next_spec(plan, step, succeeded) == Next::Run(Step::Inject) ==> (step is LocateDll
            && succeeded),
        next_spec(plan, step, succeeded) == Next::Finish ==> (step is Inject && succeeded),
{
}

/// The windowed injector injects only after both configuration files were
/// written: in its runs, the check that precedes the injection is reached only
/// from a successful vertical-sync write, and that write only from a
/// successful FPS write.
pub proof fn law_window_writes_files_first(step: Step, succeeded: bool)
    ensures
        next_spec(InjectPlan { frontend: Frontend::Window, write_vsync: true }, step, succeeded)
            == Next::Run(Step::LocateDll) ==> (step is WriteVsync && succeeded),
        next_spec(InjectPlan { frontend: Frontend::Window, write_vsync: true }, step, succeeded)
            == Next::Run(Step::WriteVsync) ==> (step is WriteFps && succeeded),
{
}

/// The console injector is never stopped by a configuration file that cannot
/// be written.
pub proof fn law_console_survives_file_errors(plan: InjectPlan, step: Step)
    requires
        plan.frontend is Console,
        step is WriteFps || step is WriteVsync,
    ensures
        next_spec(plan, step, false) == step_after(plan, step),
{
}

/// Every failed step ends the run at that step, except the two
/// configuration-file writes of the console injector; in particular a run
/// without a game process always stops. A step that succeeded never ends the
/// run with a failure, and a failed step never reports success.
pub proof fn law_failures_abort(plan: InjectPlan, step: Step)
    ensures
        !(plan.frontend is Console && (step is WriteFps || step is WriteVsync)) ==> next_spec(
            plan,
            step,
            false,
        ) == Next::Abort(step),
        next_spec(plan, Step::FindProcess, false) == Next::Abort(Step::FindProcess),
        !(next_spec(plan, step, true) is Abort),
        next_spec(plan, step, false) != Next::Finish,
{
}

/// A successful run of the windowed injector tries every step once, in the
/// order process, image path, FPS file, vertical-sync file, module, injection;
/// the console injector skips the vertical-sync file when it was not asked to
/// write it.
pub proof fn law_successful_run_order(plan: InjectPlan)
    ensures
        next_spec(plan, Step::FindProcess, true) == Next::Run(Step::ResolveImagePath),
        next_spec(plan, Step::ResolveImagePath, true) == Next::Run(Step::WriteFps),
        plan.write_vsync ==> next_spec(plan, Step::WriteFps, true) == Next::Run(Step::WriteVsync),
        !plan.write_vsync ==> next_spec(plan, Step::WriteFps, true) == Next::Run(Step::LocateDll),
        next_spec(plan, Step::WriteVsync, true) == Next::Run(Step::LocateDll),
        next_spec(plan, Step::LocateDll, true) == Next::Run(Step::Inject),
        next_spec(plan, Step::Inject, true) == Next::Finish,
{
}

} // verus!
