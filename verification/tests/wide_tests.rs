use uma_fps_unlocker::wide::{
    c_byte_name, exe_name_from_bytes, image_path_from_buffer, image_path_from_buffer_lossy,
    load_library_payload, module_path_from_buffer, text_from_units_lossy, to_wide_nul,
};

fn buf(s: &str, cap: usize) -> (Vec<u16>, usize) {
    let mut v: Vec<u16> = s.encode_utf16().collect();
    let len = v.len();
    v.resize(cap, 0);
    (v, len)
}

#[test]
fn image_path_decodes_filled_units() {
    let (b, len) = buf("C:\\Games\\umamusume.exe", 260);
    assert_eq!(image_path_from_buffer(&b, len), Some("C:\\Games\\umamusume.exe".to_string()));
    assert_eq!(image_path_from_buffer(&b, 0), None);
    let (b2, len2) = buf("D:\\ウマ娘\\𝄞.exe", 260);
    assert_eq!(image_path_from_buffer(&b2, len2), Some("D:\\ウマ娘\\𝄞.exe".to_string()));
}

#[test]
fn image_path_rejects_unpaired_surrogate() {
    let b: Vec<u16> = vec![0x41, 0xD800, 0x42, 0];
    assert_eq!(image_path_from_buffer(&b, 3), None);
    let b2: Vec<u16> = vec![0xDC00];
    assert_eq!(image_path_from_buffer(&b2, 1), None);
}

#[test]
fn image_path_drops_final_nul() {
    let b: Vec<u16> = vec![0x41, 0x42, 0, 0];
    assert_eq!(image_path_from_buffer(&b, 3), Some("AB".to_string()));
    assert_eq!(image_path_from_buffer(&b, 2), Some("AB".to_string()));
}

#[test]
fn lossy_image_path_replaces_unpaired_surrogates() {
    let b: Vec<u16> = vec![0x41, 0xD800, 0x42, 0xD834, 0xDD1E, 0xDD1E];
    assert_eq!(image_path_from_buffer_lossy(&b, 6), Some("A\u{FFFD}B𝄞\u{FFFD}".to_string()));
    assert_eq!(image_path_from_buffer_lossy(&b, 0), None);
    assert_eq!(image_path_from_buffer_lossy(&b, 1), Some("A".to_string()));
}

#[test]
fn module_path_needs_room_left() {
    let (b, len) = buf("C:\\g\\game.exe", 260);
    assert_eq!(module_path_from_buffer(&b, len), Some("C:\\g\\game.exe".to_string()));
    assert_eq!(module_path_from_buffer(&b, 0), None);
    assert_eq!(module_path_from_buffer(&b, 260), None);
    assert_eq!(module_path_from_buffer(&b, 300), None);
}

#[test]
fn wide_nul_strings() {
    assert_eq!(to_wide_nul("ab"), Some(vec![97, 98, 0]));
    assert_eq!(to_wide_nul(""), Some(vec![0]));
    assert_eq!(to_wide_nul("a\0b"), None);
    assert_eq!(to_wide_nul("ab\0"), Some(vec![97, 98, 0]));
    assert_eq!(to_wide_nul("𝄞"), Some(vec![0xD834, 0xDD1E, 0]));
}

#[test]
fn load_library_payload_counts_bytes() {
    let (v, n) = load_library_payload("C:\\x\\uma_unlocker.dll").unwrap();
    assert_eq!(v.len(), 22);
    assert_eq!(n, 44);
    assert_eq!(*v.last().unwrap(), 0);
    assert_eq!(load_library_payload("a\0b"), None);
}

#[test]
fn exe_names_stop_at_nul() {
    let mut raw = vec![0u8; 260];
    raw[..13].copy_from_slice(b"umamusume.exe");
    assert_eq!(c_byte_name(&raw), b"umamusume.exe".to_vec());
    assert_eq!(exe_name_from_bytes(&raw), "umamusume.exe");
    let raw2 = vec![b'a', 0xFF, b'b', 0, b'z'];
    assert_eq!(exe_name_from_bytes(&raw2), "a\u{FFFD}b");
    assert_eq!(exe_name_from_bytes(&vec![0u8, 65]), "");
}

#[test]
fn control_text_is_decoded_lossily() {
    let b: Vec<u16> = vec![0x31, 0x34, 0x34, 0xD800, 0];
    assert_eq!(text_from_units_lossy(&b, 3), "144");
    assert_eq!(text_from_units_lossy(&b, 4), "144\u{FFFD}");
    assert_eq!(text_from_units_lossy(&b, 0), "");
}
