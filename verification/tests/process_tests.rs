use uma_fps_unlocker::process::{
    find_pid_by_names, first_pid_among, process_names, ProcessEntry, Server,
};

fn entry(name: &str, pid: u32) -> ProcessEntry {
    ProcessEntry { exe_name: name.to_string(), pid }
}

#[test]
fn release_names() {
    assert_eq!(process_names(Server::Jp), vec!["umamusume.exe", "umamusumeprettyderby_jpn.exe"]);
    assert_eq!(process_names(Server::Global), vec!["umamusumeprettyderby.exe"]);
}

#[test]
fn search_ignores_case_and_takes_first_match() {
    let list = vec![
        entry("System", 4),
        entry("explorer.exe", 100),
        entry("UmaMusumePrettyDerby_Jpn.EXE", 200),
        entry("umamusume.exe", 300),
    ];
    let jp = process_names(Server::Jp);
    assert_eq!(find_pid_by_names(&list, &jp), Some(200));
    let gl = process_names(Server::Global);
    assert_eq!(find_pid_by_names(&list, &gl), None);
    let upper = vec!["EXPLORER.EXE".to_string()];
    assert_eq!(find_pid_by_names(&list, &upper), Some(100));
    assert_eq!(find_pid_by_names(&Vec::new(), &jp), None);
    assert_eq!(find_pid_by_names(&list, &Vec::new()), None);
}

#[test]
fn search_lowercases_beyond_ascii() {
    let list = vec![entry("ÜMA.EXE", 7)];
    let names = vec!["üma.exe".to_string()];
    assert_eq!(find_pid_by_names(&list, &names), Some(7));
}

#[test]
fn exact_search_on_lowered_names() {
    let list = vec![entry("Game.exe", 1), entry("game.exe", 2)];
    let names = vec!["game.exe".to_string()];
    assert_eq!(first_pid_among(&list, &names), Some(2));
    assert_eq!(first_pid_among(&list, &vec!["other".to_string()]), None);
}

#[test]
fn search_same_for_equivalent_name_lists() {
    let list = vec![entry("a.exe", 1), entry("UmaMusume.exe", 2), entry("umamusumeprettyderby_jpn.exe", 3)];
    let names: Vec<String> = vec!["umamusume.exe".into(), "umamusumeprettyderby_jpn.exe".into()];
    let names2: Vec<String> = vec![
        "UMAMUSUMEPRETTYDERBY_JPN.EXE".into(),
        "UmaMusume.exe".into(),
        "umamusume.exe".into(),
    ];
    assert_eq!(find_pid_by_names(&list, &names), Some(2));
    assert_eq!(find_pid_by_names(&list, &names2), find_pid_by_names(&list, &names));
}
