use mimi_ime::config::paths::{PathEnv, app_config_dir, app_data_dir, config_path, is_absolute, join_path, log_dir};

fn env(home: Option<&str>, config: Option<&str>, data: Option<&str>) -> PathEnv {
    PathEnv {
        home: home.map(|s| s.to_string()),
        xdg_config_home: config.map(|s| s.to_string()),
        xdg_data_home: data.map(|s| s.to_string()),
    }
}

#[test]
fn home_fallbacks() {
    let e = env(Some("/home/mimi"), None, None);
    assert_eq!(app_config_dir(&e), "/home/mimi/.config/mimi-ime");
    assert_eq!(config_path(&e), "/home/mimi/.config/mimi-ime/config.toml");
    assert_eq!(app_data_dir(&e), "/home/mimi/.local/share/mimi-ime");
    assert_eq!(log_dir(&e), "/home/mimi/.local/share/mimi-ime/logs");
}

#[test]
fn absolute_xdg_directories_are_used() {
    let e = env(None, Some("/cfg"), Some("/data/"));
    assert_eq!(config_path(&e), "/cfg/mimi-ime/config.toml");
    assert_eq!(log_dir(&e), "/data/mimi-ime/logs");
}

#[test]
fn relative_xdg_directories_are_ignored() {
    let e = env(Some("/home/u/"), Some("cfg"), Some(""));
    assert_eq!(app_config_dir(&e), "/home/u/.config/mimi-ime");
    assert_eq!(app_data_dir(&e), "/home/u/.local/share/mimi-ime");
}

#[test]
fn join_and_absolute() {
    assert_eq!(join_path("", "a"), "a");
    assert_eq!(join_path("/", "a"), "/a");
    assert_eq!(join_path("/x", "a/b"), "/x/a/b");
    assert!(is_absolute("/x"));
    assert!(!is_absolute("x/"));
    assert!(!is_absolute(""));
}

#[test]
fn join_matches_std_for_relative_parts() {
    for base in ["", "/", "/home", "/home/", "rel", "rel/"] {
        for part in ["a", ".config", "x/y"] {
            let expected = std::path::Path::new(base).join(part);
            assert_eq!(join_path(base, part), expected.to_str().unwrap());
        }
    }
}

#[test]
fn directories_are_available_when_home_or_absolute_xdg_is_set() {
    assert!(env(Some("/h"), None, None).has_config_dir());
    assert!(env(None, Some("/c"), None).has_config_dir());
    assert!(!env(None, Some("c"), None).has_config_dir());
    assert!(!env(None, None, Some("d")).has_data_dir());
    assert!(env(None, None, Some("/d")).has_data_dir());
}
