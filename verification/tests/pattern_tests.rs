use pathte::path::{Path, UnixPath, WindowsPath, WslPath};
use regex::{Captures, Regex};

fn samples() -> Vec<&'static str> {
    vec![
        "",
        "/",
        "\\",
        "C:",
        "C:\\",
        "c:/",
        "C:Users",
        "Users",
        "/home/user/file.txt",
        "home/user",
        "/mnt",
        "/mnt/",
        "/mnt/c",
        "/mnt/c/",
        "/mnt/D/Users/test",
        "/mnt/drive/Users",
        "mnt/c/Users",
        "/mnt/c//x",
        "// Comment",
        "a//b",
        "a/b\\c",
        "h\0me/user",
        "/mnt/c/\0",
        "multi\nline",
        "/multi\nline",
        "C:\\Users\\test\\file.txt",
        "\\test\\file.txt",
        "test\\",
        "a<b\\c",
        "C:\\a:b",
        "C:\\a?b",
        "\"a\"\\b",
        "a|b\\c",
        "*\\",
        "\u{e9}/\u{4e2d}",
        "\u{e9}\\\u{4e2d}",
        "/mnt/\u{e9}/x",
    ]
}

fn is_special(text: &str) -> bool {
    text.contains('\r')
        || ["http:", "https:", "ftp:", "sftp:", "file:"].iter().any(|scheme| text.ends_with(scheme))
}

#[test]
fn wsl_agrees_with_its_pattern() {
    let pattern = Regex::new(r#"^/mnt/(([A-Za-z]/?$)|([A-Za-z]/[^\x00]*))$"#).unwrap();
    for text in samples() {
        assert!(!is_special(text));
        let expected = !text.contains("//") && !text.contains('\n') && pattern.is_match(text);
        assert_eq!(WslPath::is_wsl_path(text), expected, "{:?}", text);
    }
}

#[test]
fn unix_agrees_with_its_pattern() {
    let pattern = Regex::new(r"^[^\x00]*/[^\x00]*$").unwrap();
    for text in samples() {
        let expected = !text.contains("//") && !text.contains('\n') && pattern.is_match(text);
        assert_eq!(UnixPath::is_unix_path(text), expected, "{:?}", text);
    }
}

#[test]
fn windows_agrees_with_its_pattern() {
    let pattern = Regex::new(
        r#"^(?:[A-Za-z]:\\?|(?:[A-Za-z]:)?[^<>:"|?*]*\\[^<>:"|?*]*)$"#,
    )
    .unwrap();
    for text in samples() {
        let expected = !text.contains('\n') && !text.contains('\0') && pattern.is_match(text);
        assert_eq!(WindowsPath::is_windows_path(text), expected, "{:?}", text);
    }
}

#[test]
fn drive_rewriting_agrees_with_its_patterns() {
    let drive = Regex::new(r"^([A-Za-z]):").unwrap();
    let mount = Regex::new(r"^/mnt/([A-Za-z])").unwrap();
    for text in samples() {
        if let Ok(path) = WindowsPath::new(text.to_string()) {
            let rewritten = drive
                .replace(text, |captures: &Captures| {
                    format!("/mnt/{}", &captures[1].to_lowercase())
                })
                .replace('\\', "/");
            match path.to_wsl() {
                Ok(wsl) => assert_eq!(wsl.as_string(), rewritten),
                Err(_) => assert!(!WslPath::is_wsl_path(&rewritten), "{:?}", text),
            }
        }
        if let Ok(path) = WslPath::new(text.to_string()) {
            let rewritten = mount
                .replace(text, |captures: &Captures| format!("{}:", &captures[1].to_uppercase()))
                .replace('/', "\\");
            match path.to_windows() {
                Ok(windows) => assert_eq!(windows.as_string(), rewritten),
                Err(_) => assert!(!WindowsPath::is_windows_path(&rewritten), "{:?}", text),
            }
        }
    }
}
