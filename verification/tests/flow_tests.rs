use uma_fps_unlocker::cli::parse_cli_args;
use uma_fps_unlocker::flow::{
    classify_command, console_plan, decode_command, failure_message, first_step,
    invalid_fps_message, next_step, success_message, window_plan, CommandWord, Frontend,
    GuiCommand, Next, Step, DLL_FILE_NAME, ID_BTN_INJECT, ID_BTN_QUIT, WINDOW_TITLE,
};

fn successful_run(plan: &uma_fps_unlocker::flow::InjectPlan) -> Vec<&'static str> {
    let mut seen = Vec::new();
    let mut step = first_step();
    loop {
        seen.push(match step {
            Step::FindProcess => "find",
            Step::ResolveImagePath => "path",
            Step::WriteFps => "fps",
            Step::WriteVsync => "vsync",
            Step::LocateDll => "dll",
            Step::Inject => "inject",
        });
        match next_step(plan, step, true) {
            Next::Run(s) => step = s,
            Next::Finish => return seen,
            Next::Abort(_) => panic!("aborted"),
        }
    }
}

#[test]
fn successful_runs_visit_steps_in_order() {
    assert_eq!(successful_run(&window_plan()), vec!["find", "path", "fps", "vsync", "dll", "inject"]);
    let no_vsync = console_plan(&parse_cli_args(&vec![]));
    assert_eq!(successful_run(&no_vsync), vec!["find", "path", "fps", "dll", "inject"]);
    let with_vsync = console_plan(&parse_cli_args(&vec!["--vsync".to_string(), "on".to_string()]));
    assert!(with_vsync.write_vsync);
}

#[test]
fn window_stops_at_any_failure() {
    let plan = window_plan();
    assert!(matches!(next_step(&plan, Step::FindProcess, false), Next::Abort(Step::FindProcess)));
    assert!(matches!(next_step(&plan, Step::WriteFps, false), Next::Abort(Step::WriteFps)));
    assert!(matches!(next_step(&plan, Step::WriteVsync, false), Next::Abort(Step::WriteVsync)));
    assert!(matches!(next_step(&plan, Step::Inject, false), Next::Abort(Step::Inject)));
}

#[test]
fn console_goes_on_after_file_errors() {
    let plan = console_plan(&parse_cli_args(&vec!["--vsync".to_string(), "off".to_string()]));
    assert!(matches!(next_step(&plan, Step::WriteFps, false), Next::Run(Step::WriteVsync)));
    assert!(matches!(next_step(&plan, Step::WriteVsync, false), Next::Run(Step::LocateDll)));
    assert!(matches!(next_step(&plan, Step::LocateDll, false), Next::Abort(Step::LocateDll)));
    assert!(matches!(next_step(&plan, Step::ResolveImagePath, false), Next::Abort(_)));
}

#[test]
fn messages() {
    assert_eq!(success_message(144, Some(false)), "Injected. Target FPS = 144, VSync = off");
    assert_eq!(success_message(60, Some(true)), "Injected. Target FPS = 60, VSync = on");
    assert_eq!(success_message(120, None), "Injected. Target FPS = 120");
    assert_eq!(invalid_fps_message(), "Please enter a valid FPS (> 0)");
    assert_eq!(
        failure_message(&Frontend::Console, &Step::FindProcess),
        "JP process not found (umamusume.exe / umamusumeprettyderby_jpn.exe). Start the game first."
    );
    assert_eq!(failure_message(&Frontend::Window, &Step::LocateDll),
        "uma_unlocker.dll not found next to the GUI executable");
    assert_eq!(failure_message(&Frontend::Console, &Step::Inject), "Injection failed: ");
    assert_eq!(DLL_FILE_NAME, "uma_unlocker.dll");
    assert_eq!(WINDOW_TITLE, "Uma FPS Unlocker");
}

#[test]
fn command_words() {
    let w = decode_command(0x0000_0000_0000_03ED);
    assert_eq!((w.id, w.code), (1005, 0));
    let w = decode_command(0x1234_0005_03EE);
    assert_eq!((w.id, w.code), (0x03EE, 5));
    assert!(matches!(classify_command(&CommandWord { id: ID_BTN_QUIT, code: 0 }, true), GuiCommand::Quit));
    assert!(matches!(classify_command(&CommandWord { id: ID_BTN_INJECT, code: 0 }, true), GuiCommand::Inject));
    assert!(matches!(classify_command(&CommandWord { id: ID_BTN_INJECT, code: 1 }, false), GuiCommand::Ignore));
    assert!(matches!(classify_command(&CommandWord { id: 1001, code: 0 }, true), GuiCommand::Ignore));
}
