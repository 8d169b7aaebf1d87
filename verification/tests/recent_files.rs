use kdbx_commands::app_state::AppState;
use kdbx_commands::preference::Preference;
use kdbx_commands::recent_list::MAX_RECENT_FILES;

fn names(list: &[&str]) -> Vec<String> {
    list.iter().map(|s| s.to_string()).collect()
}

#[test]
fn new_preferences_have_no_recent_file() {
    let p = Preference::new("{\"theme\":\"dark\"}".to_string());
    assert!(p.recent_files().is_empty());
    assert_eq!(p.settings(), "{\"theme\":\"dark\"}");
}

#[test]
fn default_preferences_are_empty() {
    let p = Preference::default();
    assert!(p.recent_files().is_empty());
    assert_eq!(p.settings(), "");
}

#[test]
fn add_puts_path_in_front() {
    let mut p = Preference::new(String::new());
    p.add_recent_file("/a/x.kdbx");
    assert_eq!(p.recent_files(), names(&["/a/x.kdbx"]));
    p.add_recent_file("/a/y.kdbx");
    assert_eq!(p.recent_files(), names(&["/a/y.kdbx", "/a/x.kdbx"]));
    p.add_recent_file("/a/z.kdbx");
    assert_eq!(p.recent_files(), names(&["/a/z.kdbx", "/a/y.kdbx", "/a/x.kdbx"]));
}

#[test]
fn add_moves_known_path_to_front() {
    let mut p = Preference::new(String::new());
    p.add_recent_file("/a/x.kdbx");
    p.add_recent_file("/a/y.kdbx");
    p.add_recent_file("/a/z.kdbx");
    p.add_recent_file("/a/x.kdbx");
    assert_eq!(p.recent_files(), names(&["/a/x.kdbx", "/a/z.kdbx", "/a/y.kdbx"]));
}

#[test]
fn add_repeated_is_one_add() {
    let mut once = Preference::new(String::new());
    once.add_recent_file("/a/y.kdbx");
    once.add_recent_file("/a/x.kdbx");
    let mut many = Preference::new(String::new());
    many.add_recent_file("/a/y.kdbx");
    for _ in 0..7 {
        many.add_recent_file("/a/x.kdbx");
    }
    assert_eq!(many.recent_files(), once.recent_files());
    let list = many.recent_files();
    assert_eq!(list[0], "/a/x.kdbx");
    assert_eq!(list.iter().filter(|p| p.as_str() == "/a/x.kdbx").count(), 1);
}

#[test]
fn add_keeps_settings() {
    let mut p = Preference::new("s".to_string());
    p.add_recent_file("/a/x.kdbx");
    p.remove_recent_file("/a/x.kdbx");
    assert_eq!(p.settings(), "s");
}

#[test]
fn add_evicts_oldest_beyond_cap() {
    assert_eq!(MAX_RECENT_FILES, 10);
    let mut p = Preference::new(String::new());
    for i in 0..11 {
        p.add_recent_file(&format!("/db/{}.kdbx", i));
    }
    let list = p.recent_files();
    assert_eq!(list.len(), 10);
    assert_eq!(list[0], "/db/10.kdbx");
    assert_eq!(list[9], "/db/1.kdbx");
    assert!(!p.is_recent("/db/0.kdbx"));
    assert!(p.is_recent("/db/1.kdbx"));
}

#[test]
fn add_known_path_at_cap_evicts_nothing() {
    let mut p = Preference::new(String::new());
    for i in 0..10 {
        p.add_recent_file(&format!("/db/{}.kdbx", i));
    }
    p.add_recent_file("/db/0.kdbx");
    let list = p.recent_files();
    assert_eq!(list.len(), 10);
    assert_eq!(list[0], "/db/0.kdbx");
    assert_eq!(list[1], "/db/9.kdbx");
    assert_eq!(list[9], "/db/1.kdbx");
}

#[test]
fn remove_takes_path_out() {
    let mut p = Preference::new(String::new());
    p.add_recent_file("/a/x.kdbx");
    p.add_recent_file("/a/y.kdbx");
    p.add_recent_file("/a/z.kdbx");
    p.remove_recent_file("/a/y.kdbx");
    assert_eq!(p.recent_files(), names(&["/a/z.kdbx", "/a/x.kdbx"]));
    assert!(!p.is_recent("/a/y.kdbx"));
}

#[test]
fn remove_absent_path_changes_nothing() {
    let mut p = Preference::new(String::new());
    p.add_recent_file("/a/x.kdbx");
    p.remove_recent_file("/a/other.kdbx");
    assert_eq!(p.recent_files(), names(&["/a/x.kdbx"]));
    let mut empty = Preference::new(String::new());
    empty.remove_recent_file("/a/x.kdbx");
    assert!(empty.recent_files().is_empty());
}

#[test]
fn paths_are_compared_exactly() {
    let mut p = Preference::new(String::new());
    p.add_recent_file("/a/x.kdbx");
    p.add_recent_file("/a/X.kdbx");
    p.add_recent_file("/a/x.kdbx ");
    assert_eq!(p.recent_files().len(), 3);
    assert!(!p.is_recent("/a/x"));
}

#[test]
fn is_recent_tells_members() {
    let mut p = Preference::new(String::new());
    assert!(!p.is_recent("/a/x.kdbx"));
    p.add_recent_file("/a/x.kdbx");
    assert!(p.is_recent("/a/x.kdbx"));
    assert!(!p.is_recent("/a/y.kdbx"));
}

#[test]
fn restore_keeps_well_formed_list() {
    let p = Preference::restore(names(&["/a/x.kdbx", "/a/y.kdbx", "/a/z.kdbx"]), "s".to_string());
    assert_eq!(p.recent_files(), names(&["/a/x.kdbx", "/a/y.kdbx", "/a/z.kdbx"]));
    assert_eq!(p.settings(), "s");
}

#[test]
fn restore_drops_later_duplicates() {
    let p = Preference::restore(
        names(&["/a/x.kdbx", "/a/y.kdbx", "/a/x.kdbx", "/a/z.kdbx", "/a/y.kdbx"]),
        String::new(),
    );
    assert_eq!(p.recent_files(), names(&["/a/x.kdbx", "/a/y.kdbx", "/a/z.kdbx"]));
}

#[test]
fn restore_cuts_at_cap() {
    let stored: Vec<String> = (0..15).map(|i| format!("/db/{}.kdbx", i)).collect();
    let p = Preference::restore(stored.clone(), String::new());
    assert_eq!(p.recent_files(), stored[..10].to_vec());
}

#[test]
fn restore_of_nothing_is_empty() {
    let p = Preference::restore(Vec::new(), String::new());
    assert!(p.recent_files().is_empty());
}

#[test]
fn snapshot_is_independent() {
    let mut p = Preference::new("s".to_string());
    p.add_recent_file("/a/x.kdbx");
    let copy = p.snapshot();
    p.add_recent_file("/a/y.kdbx");
    assert_eq!(copy.recent_files(), names(&["/a/x.kdbx"]));
    assert_eq!(copy.settings(), "s");
    assert_eq!(p.recent_files(), names(&["/a/y.kdbx", "/a/x.kdbx"]));
}

#[test]
fn any_run_of_changes_keeps_list_well_formed() {
    let mut state = AppState::new(Preference::new(String::new()));
    let mut seed: u32 = 12345;
    for _ in 0..500 {
        seed = seed.wrapping_mul(1664525).wrapping_add(1013904223);
        let path = format!("/db/{}.kdbx", (seed >> 8) % 14);
        if (seed >> 24) % 3 == 0 {
            state.remove_recent_file(&path);
            assert!(!state.preference.is_recent(&path));
        } else {
            state.add_recent_file(&path);
            assert_eq!(state.preference.recent_files()[0], path);
        }
        let list = state.preference.recent_files();
        assert!(list.len() <= MAX_RECENT_FILES);
        for i in 0..list.len() {
            for j in (i + 1)..list.len() {
                assert_ne!(list[i], list[j]);
            }
        }
    }
}

#[test]
fn app_state_changes_its_preferences() {
    let mut state = AppState::new(Preference::new("s".to_string()));
    state.add_recent_file("/a/x.kdbx");
    state.add_recent_file("/a/y.kdbx");
    state.remove_recent_file("/a/x.kdbx");
    assert_eq!(state.preference.recent_files(), names(&["/a/y.kdbx"]));
    assert_eq!(state.read().recent_files(), names(&["/a/y.kdbx"]));
    assert_eq!(state.read().settings(), "s");
}

#[test]
fn backup_file_is_beside_the_database() {
    let state = AppState::new(Preference::new(String::new()));
    assert_eq!(state.get_backup_file("/a/x.kdbx"), Some("/a/x.kdbx.bak".to_string()));
    assert_eq!(state.get_backup_file("x"), Some("x.bak".to_string()));
}

#[test]
fn backup_file_of_empty_key_is_none() {
    let state = AppState::new(Preference::new(String::new()));
    assert_eq!(state.get_backup_file(""), None);
}

#[test]
fn backup_file_is_same_for_same_key_and_reads_only() {
    let mut state = AppState::new(Preference::new("s".to_string()));
    state.add_recent_file("/a/x.kdbx");
    let first = state.get_backup_file("/a/y.kdbx");
    state.add_recent_file("/a/z.kdbx");
    state.remove_recent_file("/a/x.kdbx");
    let second = state.get_backup_file("/a/y.kdbx");
    assert_eq!(first, second);
    assert_eq!(state.preference.recent_files(), names(&["/a/z.kdbx"]));
    assert_eq!(state.preference.settings(), "s");
}
