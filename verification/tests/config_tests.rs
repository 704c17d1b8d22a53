use uma_fps_unlocker::config::{
    fps_file_contents, parse_positive_fps, parse_vsync_setting, vsync_file_contents, DllSettings,
    DEFAULT_TARGET_FPS, FPS_FILE_NAME, VSYNC_FILE_NAME,
};

#[test]
fn file_names_and_default() {
    assert_eq!(FPS_FILE_NAME, "unlocker_fps.txt");
    assert_eq!(VSYNC_FILE_NAME, "unlocker_vsync.txt");
    assert_eq!(DEFAULT_TARGET_FPS, 120);
}

#[test]
fn fps_file_round_trip() {
    for n in [1, 60, 120, 144, 240, i32::MAX] {
        let text = fps_file_contents(n);
        assert_eq!(text, n.to_string());
        assert_eq!(parse_positive_fps(&text), Some(n));
    }
    for n in [0, -1, i32::MIN] {
        assert_eq!(parse_positive_fps(&fps_file_contents(n)), None);
    }
}

#[test]
fn vsync_file_round_trip() {
    assert_eq!(vsync_file_contents(true), "1");
    assert_eq!(vsync_file_contents(false), "0");
    assert!(parse_vsync_setting(&vsync_file_contents(true)));
    assert!(!parse_vsync_setting(&vsync_file_contents(false)));
}

#[test]
fn fps_text_is_trimmed_and_must_be_positive() {
    assert_eq!(parse_positive_fps(" 165\r\n"), Some(165));
    assert_eq!(parse_positive_fps("0"), None);
    assert_eq!(parse_positive_fps("-60"), None);
    assert_eq!(parse_positive_fps("abc"), None);
    assert_eq!(parse_positive_fps(""), None);
    assert_eq!(parse_positive_fps("6 0"), None);
}

#[test]
fn vsync_words() {
    for w in ["1", "true", "on", "enable", "enabled", " ON\n", "Enabled", "TRUE "] {
        assert!(parse_vsync_setting(w), "{:?}", w);
    }
    for w in ["0", "false", "off", "yes", "", "enabledd", "2"] {
        assert!(!parse_vsync_setting(w), "{:?}", w);
    }
}

#[test]
fn settings_loading() {
    let mut s = DllSettings::new();
    assert_eq!(s.target_fps, 120);
    assert!(!s.vsync_enabled);
    s.load_fps_file(None);
    assert_eq!(s.target_fps, 120);
    s.load_fps_file(Some("garbage"));
    assert_eq!(s.target_fps, 120);
    s.load_fps_file(Some("0"));
    assert_eq!(s.target_fps, 120);
    s.load_fps_file(Some("144\n"));
    assert_eq!(s.target_fps, 144);
    s.load_vsync_file(Some("on"));
    assert!(s.vsync_enabled);
    s.load_vsync_file(Some("maybe"));
    assert!(!s.vsync_enabled);
    s.load_vsync_file(Some("1"));
    s.load_vsync_file(None);
    assert!(!s.vsync_enabled);
}

#[test]
fn written_settings_are_loaded() {
    let mut s = DllSettings::new();
    s.load_fps_file(Some(&fps_file_contents(90)));
    s.load_vsync_file(Some(&vsync_file_contents(true)));
    assert_eq!(s.target_fps, 90);
    assert!(s.vsync_enabled);
}

#[test]
fn detours_force_settings() {
    let s = DllSettings { target_fps: 144, vsync_enabled: false };
    assert_eq!(s.frame_rate_for(30), 144);
    assert_eq!(s.frame_rate_for(-1), 144);
    assert_eq!(s.vsync_count_for(1), 0);
    assert_eq!(s.vsync_count_for(2), 0);
    assert_eq!(s.initial_frame_rate(), Some(144));
    assert_eq!(s.initial_vsync_count(), 0);
    let on = DllSettings { target_fps: 60, vsync_enabled: true };
    assert_eq!(on.vsync_count_for(2), 2);
    assert_eq!(on.initial_vsync_count(), 1);
    let odd = DllSettings { target_fps: 0, vsync_enabled: true };
    assert_eq!(odd.frame_rate_for(30), 30);
    assert_eq!(odd.initial_frame_rate(), None);
}
