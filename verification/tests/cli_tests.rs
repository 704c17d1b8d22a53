use uma_fps_unlocker::cli::parse_cli_args;

fn args(a: &[&str]) -> Vec<String> {
    a.iter().map(|s| s.to_string()).collect()
}

#[test]
fn defaults_without_arguments() {
    let o = parse_cli_args(&args(&[]));
    assert_eq!(o.fps, 120);
    assert_eq!(o.vsync, None);
    assert_eq!(o.wait_seconds, 0);
}

#[test]
fn flags_are_read() {
    let o = parse_cli_args(&args(&["--fps", "144", "--vsync", "OFF", "--wait", "60"]));
    assert_eq!(o.fps, 144);
    assert_eq!(o.vsync, Some(false));
    assert_eq!(o.wait_seconds, 60);
    let o = parse_cli_args(&args(&["--vsync", "Enabled"]));
    assert_eq!(o.vsync, Some(true));
}

#[test]
fn fps_is_at_least_one() {
    assert_eq!(parse_cli_args(&args(&["--fps", "0"])).fps, 1);
    assert_eq!(parse_cli_args(&args(&["--fps", "-30"])).fps, 1);
    assert_eq!(parse_cli_args(&args(&["--fps", "abc"])).fps, 120);
    assert_eq!(parse_cli_args(&args(&["--fps", " 60"])).fps, 120);
}

#[test]
fn flag_takes_next_argument_whatever_it_is() {
    let o = parse_cli_args(&args(&["--fps", "--vsync", "on"]));
    assert_eq!(o.fps, 120);
    assert_eq!(o.vsync, None);
    let o = parse_cli_args(&args(&["--vsync", "maybe", "--fps", "90", "--fps"]));
    assert_eq!(o.vsync, None);
    assert_eq!(o.fps, 90);
}

#[test]
fn later_flags_win_and_unknown_arguments_are_skipped() {
    let o = parse_cli_args(&args(&["x", "--fps", "60", "-v", "--fps", "75", "--wait", "-1"]));
    assert_eq!(o.fps, 75);
    assert_eq!(o.wait_seconds, 0);
    let o = parse_cli_args(&args(&["--vsync", "1", "--vsync", "disabled"]));
    assert_eq!(o.vsync, Some(false));
}
