use pathte::path::{Path, PathType};
use pathte::path_selection::{PathSelection, PathSelectionInfo};

fn shown(info: &PathSelectionInfo) -> Vec<(String, String)> {
    info.options.iter().map(|entry| (entry.label.clone(), entry.path.clone())).collect()
}

fn pair(label: &str, path: &str) -> (String, String) {
    (label.to_string(), path.to_string())
}

#[test]
fn windows_text_gives_three_renderings() {
    let mut selection = PathSelection::new("C:\\Users\\test\\file.txt".to_string()).unwrap();
    let info = selection.get_info();
    assert_eq!(
        shown(&info),
        vec![
            pair("Win", "C:\\Users\\test\\file.txt"),
            pair("Unix", "C:/Users/test/file.txt"),
            pair("WSL", "/mnt/c/Users/test/file.txt"),
        ]
    );
    assert_eq!(info.selected, 0);
    assert_eq!(selection.get_selected_path_string(), "C:\\Users\\test\\file.txt");

    selection.next();
    assert_eq!(selection.get_selected_path_string(), "C:/Users/test/file.txt");
    assert_eq!(selection.get_info().selected, 1);
}

#[test]
fn three_advances_come_back() {
    let mut selection = PathSelection::new("C:\\Users\\a".to_string()).unwrap();
    assert_eq!(selection.get_info().options.len(), 3);
    let start = selection.get_info().selected;
    selection.next();
    assert_eq!(selection.get_info().selected, 1);
    selection.next();
    assert_eq!(selection.get_info().selected, 2);
    selection.next();
    assert_eq!(selection.get_info().selected, start);
}

#[test]
fn advance_then_retreat_changes_nothing() {
    for text in vec!["C:\\Users\\a", "/home/a", "/mnt/c/a", "C:"] {
        let mut selection = PathSelection::new(text.to_string()).unwrap();
        let count = selection.get_info().options.len();
        for _ in 0..count {
            let before = selection.get_info().selected;
            selection.next();
            selection.previous();
            assert_eq!(selection.get_info().selected, before);
            selection.previous();
            selection.next();
            assert_eq!(selection.get_info().selected, before);
            selection.next();
        }
    }
}

#[test]
fn retreat_wraps_to_the_last() {
    let mut selection = PathSelection::new("C:\\a".to_string()).unwrap();
    selection.previous();
    assert_eq!(selection.get_info().selected, 2);
    assert_eq!(selection.get_selected_path_string(), "/mnt/c/a");
    selection.previous();
    assert_eq!(selection.get_selected_path_string(), "C:/a");
    selection.previous();
    assert_eq!(selection.get_selected_path_string(), "C:\\a");
}

#[test]
fn unix_text_starts_at_its_own_rendering() {
    let mut selection = PathSelection::new("/home/a/f.txt".to_string()).unwrap();
    let info = selection.get_info();
    assert_eq!(
        shown(&info),
        vec![pair("Win", "\\home\\a\\f.txt"), pair("Unix", "/home/a/f.txt")]
    );
    assert_eq!(info.selected, 1);
    assert_eq!(selection.get_selected_path_string(), "/home/a/f.txt");
    selection.next();
    assert_eq!(selection.get_selected_path_string(), "\\home\\a\\f.txt");
    selection.next();
    assert_eq!(selection.get_selected_path_string(), "/home/a/f.txt");
}

#[test]
fn wsl_text_starts_at_its_own_rendering() {
    let selection = PathSelection::new("/mnt/c/Users/a".to_string()).unwrap();
    let info = selection.get_info();
    assert_eq!(
        shown(&info),
        vec![
            pair("Win", "C:\\Users\\a"),
            pair("Unix", "/Users/a"),
            pair("WSL", "/mnt/c/Users/a"),
        ]
    );
    assert_eq!(info.selected, 2);
    assert_eq!(selection.get_selected_path_string(), "/mnt/c/Users/a");
}

#[test]
fn wsl_text_without_windows_rendering() {
    let selection = PathSelection::new("/mnt/c/what?".to_string()).unwrap();
    let info = selection.get_info();
    assert_eq!(shown(&info), vec![pair("Unix", "/what?"), pair("WSL", "/mnt/c/what?")]);
    assert_eq!(info.selected, 1);
}

#[test]
fn bare_drive_skips_unix() {
    let selection = PathSelection::new("C:".to_string()).unwrap();
    let info = selection.get_info();
    assert_eq!(shown(&info), vec![pair("Win", "C:"), pair("WSL", "/mnt/c")]);
    assert_eq!(info.selected, 0);
}

#[test]
fn windows_without_drive_skips_wsl() {
    let selection = PathSelection::new("\\Users\\test\\".to_string()).unwrap();
    let info = selection.get_info();
    assert_eq!(shown(&info), vec![pair("Win", "\\Users\\test\\"), pair("Unix", "/Users/test/")]);
    assert_eq!(info.selected, 0);
}

#[test]
fn no_selection_without_a_path() {
    for text in vec!["", "Users", "hello world", "multi\nline", "a/b\0", "// Comment", "x/http:"] {
        assert!(PathSelection::new(text.to_string()).is_none());
        assert!(PathSelection::get_initial_path(text.to_string()).is_none());
    }
}

#[test]
fn no_selection_with_a_single_rendering() {
    // Unix paths that name no drive and hold what Windows forbids.
    for text in vec!["/home/a?/f.txt", "a/b:c", "/tmp/<x>", "/a|b"] {
        assert!(PathSelection::get_initial_path(text.to_string()).is_some());
        assert!(PathSelection::new(text.to_string()).is_none());
    }
    // Windows paths without a drive whose Unix form would double a slash.
    for text in vec!["a\\\\b", "\\\\server\\share"] {
        assert!(PathSelection::get_initial_path(text.to_string()).is_some());
        assert!(PathSelection::new(text.to_string()).is_none());
    }
}

#[test]
fn initial_path_has_the_classified_convention() {
    let w = PathSelection::get_initial_path("C:\\a".to_string()).unwrap();
    assert_eq!(w.get_type(), PathType::Windows);
    assert_eq!(w.as_string(), "C:\\a");
    let u = PathSelection::get_initial_path("a/b\\c".to_string()).unwrap();
    assert_eq!(u.get_type(), PathType::Unix);
    assert_eq!(u.as_string(), "a/b\\c");
    let l = PathSelection::get_initial_path("/mnt/c".to_string()).unwrap();
    assert_eq!(l.get_type(), PathType::Wsl);
    assert_eq!(l.as_string(), "/mnt/c");
}

#[test]
fn snapshot_is_a_copy() {
    let mut selection = PathSelection::new("C:\\a".to_string()).unwrap();
    let info = selection.get_info();
    let copy = info.clone();
    selection.next();
    assert_eq!(info.selected, 0);
    assert_eq!(copy.selected, 0);
    assert_eq!(shown(&copy), shown(&info));
    assert_eq!(selection.get_info().selected, 1);
    let entry = copy.options[2].clone();
    assert_eq!(entry.label, "WSL");
    assert_eq!(entry.path, "/mnt/c/a");
}

#[test]
fn selection_can_cross_threads() {
    fn is_send<T: Send>(_: &T) {}
    let selection = PathSelection::new("C:\\a".to_string()).unwrap();
    is_send(&selection);
    is_send(&selection.get_info());
}
