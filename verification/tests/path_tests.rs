use pathte::path::{ConversionError, Path, PathType, UnixPath, WindowsPath, WslPath};

#[test]
fn test_path_creation() {
    let windows_path = WindowsPath::new(r"C:\Users\test\file.txt".to_string()).unwrap();
    assert_eq!(windows_path.get_type(), PathType::Windows);

    let unix_path = UnixPath::new("/home/user/file.txt".to_string()).unwrap();
    assert_eq!(unix_path.get_type(), PathType::Unix);

    let wsl_path = WslPath::new("/mnt/c/Users/test/file.txt".to_string()).unwrap();
    assert_eq!(wsl_path.get_type(), PathType::Wsl);
}

#[test]
fn test_windows_matching() {
    let matching_paths = vec![
        r"C:\Users\test\file.txt",
        r"C:",
        r"d:\",
        r"\test\file.txt",
        r"test\file.txt",
        r"test\",
        r"\test",
    ];
    for path in matching_paths {
        assert!(WindowsPath::new(path.to_string()).is_ok());
    }

    let non_matching_paths = vec!["Users", "C:Users", "C:/Users/test/file.txt", "multi\nline"];
    for path in non_matching_paths {
        assert!(WindowsPath::new(path.to_string()).is_err());
    }
}

#[test]
fn test_unix_matching() {
    let matching_paths = vec![
        "/home/user/file.txt",
        "/home/user/",
        "home/user",
        "/",
        "C:/",
    ];
    for path in matching_paths {
        assert!(UnixPath::new(path.to_string()).is_ok());
    }

    let non_matching_paths = vec!["Users", "h\0me/user", "// Comment", "multi\nline"];
    for path in non_matching_paths {
        assert!(UnixPath::new(path.to_string()).is_err());
    }
}

#[test]
fn test_wsl_matching() {
    let matching_paths = vec![
        "/mnt/c/Users/test/file.txt",
        "/mnt/c/Users/",
        "/mnt/c/Users",
        "/mnt/D/",
        "/mnt/D",
    ];
    for path in matching_paths {
        assert!(WslPath::new(path.to_string()).is_ok());
    }

    let non_matching_paths = vec![
        "/mnt/drive/Users",
        "mnt/c/Users",
        "// Comment",
        "multi\nline",
    ];
    for path in non_matching_paths {
        assert!(WslPath::new(path.to_string()).is_err());
    }
}

#[test]
fn test_windows_to_unix_conversion() {
    let pairs = vec![
        (r"C:\Users\test\file.txt", "C:/Users/test/file.txt"),
        (r"c:\", "c:/"),
        (r"\Users\test\", "/Users/test/"),
    ];

    for (input, expected) in pairs {
        let windows_path = WindowsPath::new(input.to_string()).unwrap();
        let unix_path = windows_path.to_unix().unwrap();
        assert_eq!(unix_path.as_string(), expected);
    }
}

#[test]
fn test_unix_to_windows_conversion() {
    let pairs = vec![
        ("/home/user/file.txt", r"\home\user\file.txt"),
        ("home/user/", r"home\user\"),
        ("/", r"\"),
        ("C:/", r"C:\"),
        ("d:/", r"d:\"),
    ];

    for (input, expected) in pairs {
        let unix_path = UnixPath::new(input.to_string()).unwrap();
        let windows_path = unix_path.to_windows().unwrap();
        assert_eq!(windows_path.as_string(), expected);
    }
}

#[test]
fn test_wsl_to_windows_conversion() {
    let pairs = vec![
        ("/mnt/c/Users/test/file.txt", r"C:\Users\test\file.txt"),
        ("/mnt/c/Users/", r"C:\Users\"),
        ("/mnt/D/", r"D:\"),
        ("/mnt/D", r"D:"),
    ];

    for (input, expected) in pairs {
        let wsl_path = WslPath::new(input.to_string()).unwrap();
        let windows_path = wsl_path.to_windows().unwrap();
        assert_eq!(windows_path.as_string(), expected);
    }
}

#[test]
fn test_windows_to_wsl_conversion() {
    let pairs = vec![
        (r"c:\Users\test\file.txt", "/mnt/c/Users/test/file.txt"),
        (r"C:\", "/mnt/c/"),
        (r"D:", "/mnt/d"),
    ];

    for (input, expected) in pairs {
        let windows_path = WindowsPath::new(input.to_string()).unwrap();
        let wsl_path = windows_path.to_wsl().unwrap();
        assert_eq!(wsl_path.as_string(), expected);
    }
}

#[test]
fn test_unix_to_wsl_conversion() {
    // A Unix path names no drive: it has no WSL rendering of its own making.
    for input in vec!["C:/", "d:/", "/home/user/file.txt", "home/user"] {
        let unix_path = UnixPath::new(input.to_string()).unwrap();
        assert_eq!(unix_path.to_wsl().err(), Some(ConversionError::NoDriveAnchor));
    }

    // One that already is a WSL path is taken as it stands.
    for input in vec!["/mnt/c/Users/test/file.txt", "/mnt/D/", "/mnt/D"] {
        let unix_path = UnixPath::new(input.to_string()).unwrap();
        let wsl_path = unix_path.to_wsl().unwrap();
        assert_eq!(wsl_path.as_string(), input);
    }
}

#[test]
fn test_wsl_to_unix_conversion() {
    // The mount prefix is dropped; the root of a drive is written `/`.
    let pairs = vec![
        ("/mnt/c/Users/test/file.txt", "/Users/test/file.txt"),
        ("/mnt/c/Users/", "/Users/"),
        ("/mnt/D/", "/"),
        ("/mnt/D", "/"),
    ];

    for (input, expected) in pairs {
        let wsl_path = WslPath::new(input.to_string()).unwrap();
        let unix_path = wsl_path.to_unix().unwrap();
        assert_eq!(unix_path.as_string(), expected);
    }
}
