use obs_clip::error::ClipError;
use obs_clip::window::{
    get_process_name_from_pid, get_window_name, identity_source, is_window_fullscreen,
    normalize_name, IdentitySource, ProcessEntry, Rect, WindowSnapshot,
};

fn processes() -> Vec<ProcessEntry> {
    vec![
        ProcessEntry { pid: 4, exe_file: "System".to_string() },
        ProcessEntry { pid: 812, exe_file: "game.exe".to_string() },
        ProcessEntry { pid: 900, exe_file: "C:\\Tools\\my.tool.v2.exe".to_string() },
        ProcessEntry { pid: 812, exe_file: "shadow.exe".to_string() },
        ProcessEntry { pid: 901, exe_file: "C:/broken/".to_string() },
        ProcessEntry { pid: 902, exe_file: ".hidden".to_string() },
    ]
}

#[test]
fn normalize_keeps_allowed_characters() {
    let name = "AZaz09 ._-";
    assert_eq!(normalize_name(name), name);
}

#[test]
fn normalize_replaces_each_other_character() {
    assert_eq!(normalize_name("Doc: a/b\\c*?.txt"), "Doc_ a_b_c__.txt");
    assert_eq!(normalize_name("a:b"), "a_b");
    assert_eq!(normalize_name(""), "");
}

#[test]
fn normalize_counts_characters_not_bytes() {
    let out = normalize_name("héllo wörld ✓");
    assert_eq!(out, "h_llo w_rld _");
    assert_eq!(out.chars().count(), "héllo wörld ✓".chars().count());
}

#[test]
fn normalize_twice_is_normalize_once() {
    let once = normalize_name("Some <Title> | here");
    assert_eq!(normalize_name(&once), once);
}

#[test]
fn fullscreen_when_all_edges_meet() {
    let monitor = Rect { left: 0, top: 0, right: 1920, bottom: 1080 };
    assert!(is_window_fullscreen(&monitor, &monitor));
}

#[test]
fn fullscreen_when_edges_exceed() {
    let monitor = Rect { left: 0, top: 0, right: 1920, bottom: 1080 };
    let window = Rect { left: -8, top: -8, right: 1928, bottom: 1088 };
    assert!(is_window_fullscreen(&window, &monitor));
}

#[test]
fn not_fullscreen_when_one_edge_is_short() {
    let monitor = Rect { left: 0, top: 0, right: 1920, bottom: 1080 };
    let full = Rect { left: 0, top: 0, right: 1920, bottom: 1080 };
    assert!(!is_window_fullscreen(&Rect { left: 1, ..full }, &monitor));
    assert!(!is_window_fullscreen(&Rect { top: 1, ..full }, &monitor));
    assert!(!is_window_fullscreen(&Rect { right: 1919, ..full }, &monitor));
    assert!(!is_window_fullscreen(&Rect { bottom: 1079, ..full }, &monitor));
}

#[test]
fn fullscreen_on_a_second_monitor() {
    let monitor = Rect { left: -1920, top: 0, right: 0, bottom: 1080 };
    let window = Rect { left: -1920, top: 0, right: 0, bottom: 1080 };
    assert!(is_window_fullscreen(&window, &monitor));
    let primary = Rect { left: 0, top: 0, right: 1920, bottom: 1080 };
    assert!(!is_window_fullscreen(&window, &primary));
}

#[test]
fn process_name_is_the_executable_stem() {
    assert_eq!(get_process_name_from_pid(&processes(), 812), Ok("game".to_string()));
    assert_eq!(get_process_name_from_pid(&processes(), 4), Ok("System".to_string()));
}

#[test]
fn process_name_drops_directories_and_last_extension_only() {
    assert_eq!(get_process_name_from_pid(&processes(), 900), Ok("my.tool.v2".to_string()));
}

#[test]
fn process_name_of_a_dot_file_is_the_whole_name() {
    assert_eq!(get_process_name_from_pid(&processes(), 902), Ok(".hidden".to_string()));
}

#[test]
fn process_name_of_an_unlisted_pid_is_not_found() {
    assert_eq!(get_process_name_from_pid(&processes(), 7), Err(ClipError::NotFound));
    assert_eq!(get_process_name_from_pid(&Vec::new(), 812), Err(ClipError::NotFound));
}

#[test]
fn process_name_without_a_file_name_is_a_resolution_error() {
    assert_eq!(get_process_name_from_pid(&processes(), 901), Err(ClipError::ResolutionError));
}

#[test]
fn identity_source_follows_the_owning_process() {
    assert_eq!(identity_source(0), IdentitySource::WindowTitle);
    assert_eq!(identity_source(1), IdentitySource::OwningProcess);
    assert_eq!(identity_source(u32::MAX), IdentitySource::OwningProcess);
}

#[test]
fn window_without_process_is_named_by_its_title() {
    let window = WindowSnapshot { pid: 0, title: Some("Program Manager: 1/2".to_string()) };
    assert_eq!(get_window_name(&window, &processes()), Ok("Program Manager_ 1_2".to_string()));
}

#[test]
fn window_without_process_and_title_is_a_resolution_error() {
    let window = WindowSnapshot { pid: 0, title: None };
    assert_eq!(get_window_name(&window, &processes()), Err(ClipError::ResolutionError));
}

#[test]
fn window_with_process_ignores_its_title() {
    let plain = WindowSnapshot { pid: 812, title: Some("Level 3 <boss>".to_string()) };
    let other = WindowSnapshot { pid: 812, title: None };
    assert_eq!(get_window_name(&plain, &processes()), Ok("game".to_string()));
    assert_eq!(get_window_name(&other, &processes()), Ok("game".to_string()));
}

#[test]
fn window_with_unlisted_process_is_not_found() {
    let window = WindowSnapshot { pid: 5000, title: Some("Title".to_string()) };
    assert_eq!(get_window_name(&window, &processes()), Err(ClipError::NotFound));
}
