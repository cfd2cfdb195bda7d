use browser_flags::loader::{extract_config_path, load_config, ConfigError};
use browser_flags::record::Config;
use browser_flags::resolve::{parse_flags, Env};
use browser_flags::sanitize::clean_args;

fn args(s: &str) -> Vec<String> {
    s.split_whitespace().map(String::from).collect()
}

fn parse(a: &Vec<String>) -> browser_flags::resolve::Flags {
    parse_flags(Config::default(), &Env::empty(), a)
}

#[test]
fn test_parse_headers_flag() {
    let flags = parse(&args(r#"open example.com --headers {"Auth":"token"}"#));
    assert_eq!(flags.headers, Some(r#"{"Auth":"token"}"#.to_string()));
}

#[test]
fn test_parse_headers_flag_with_spaces() {
    let input: Vec<String> = vec![
        "open".to_string(),
        "example.com".to_string(),
        "--headers".to_string(),
        r#"{"Authorization": "Bearer token"}"#.to_string(),
    ];
    let flags = parse(&input);
    assert_eq!(
        flags.headers,
        Some(r#"{"Authorization": "Bearer token"}"#.to_string())
    );
}

#[test]
fn test_parse_no_headers_flag() {
    let flags = parse(&args("open example.com"));
    assert!(flags.headers.is_none());
}

#[test]
fn test_clean_args_removes_headers() {
    let input: Vec<String> = vec![
        "open".to_string(),
        "example.com".to_string(),
        "--headers".to_string(),
        r#"{"Auth":"token"}"#.to_string(),
    ];
    let clean = clean_args(&input);
    assert_eq!(clean, vec!["open", "example.com"]);
}

#[test]
fn test_clean_args_removes_headers_at_start() {
    let input: Vec<String> = vec![
        "--headers".to_string(),
        r#"{"Auth":"token"}"#.to_string(),
        "open".to_string(),
        "example.com".to_string(),
    ];
    let clean = clean_args(&input);
    assert_eq!(clean, vec!["open", "example.com"]);
}

#[test]
fn test_headers_with_other_flags() {
    let input: Vec<String> = vec![
        "open".to_string(),
        "example.com".to_string(),
        "--headers".to_string(),
        r#"{"Auth":"token"}"#.to_string(),
        "--json".to_string(),
        "--headed".to_string(),
    ];
    let flags = parse(&input);
    assert_eq!(flags.headers, Some(r#"{"Auth":"token"}"#.to_string()));
    assert!(flags.json);
    assert!(flags.headed);

    let clean = clean_args(&input);
    assert_eq!(clean, vec!["open", "example.com"]);
}

#[test]
fn test_parse_executable_path_flag() {
    let flags = parse(&args("--executable-path /path/to/chromium open example.com"));
    assert_eq!(flags.executable_path, Some("/path/to/chromium".to_string()));
}

#[test]
fn test_parse_executable_path_flag_no_value() {
    let flags = parse(&args("--executable-path"));
    assert_eq!(flags.executable_path, None);
}

#[test]
fn test_clean_args_removes_executable_path() {
    let cleaned = clean_args(&args("--executable-path /path/to/chromium open example.com"));
    assert_eq!(cleaned, vec!["open", "example.com"]);
}

#[test]
fn test_clean_args_removes_executable_path_with_other_flags() {
    let cleaned = clean_args(&args(
        "--json --executable-path /path/to/chromium --headed open example.com",
    ));
    assert_eq!(cleaned, vec!["open", "example.com"]);
}

#[test]
fn test_parse_flags_with_session_and_executable_path() {
    let flags = parse(&args(
        "--session test --executable-path /custom/chrome open example.com",
    ));
    assert_eq!(flags.session, "test");
    assert_eq!(flags.executable_path, Some("/custom/chrome".to_string()));
}

#[test]
fn test_cli_executable_path_tracking() {
    let flags = parse(&args("--executable-path /path/to/chrome snapshot"));
    assert!(flags.cli_executable_path);
    assert_eq!(flags.executable_path, Some("/path/to/chrome".to_string()));
}

#[test]
fn test_cli_executable_path_not_set_without_flag() {
    let flags = parse(&args("snapshot"));
    assert!(!flags.cli_executable_path);
}

#[test]
fn test_cli_extension_tracking() {
    let flags = parse(&args("--extension /path/to/ext snapshot"));
    assert!(flags.cli_extensions);
}

#[test]
fn test_cli_profile_tracking() {
    let flags = parse(&args("--profile /path/to/profile snapshot"));
    assert!(flags.cli_profile);
}

#[test]
fn test_cli_multiple_flags_tracking() {
    let flags = parse(&args(
        "--executable-path /chrome --profile /profile --proxy http://proxy snapshot",
    ));
    assert!(flags.cli_executable_path);
    assert!(flags.cli_profile);
    assert!(flags.cli_proxy);
    assert!(!flags.cli_extensions);
    assert!(!flags.cli_state);
}

#[test]
fn test_config_merge_project_overrides_user() {
    let user = Config {
        headed: Some(true),
        proxy: Some("http://user-proxy:8080".to_string()),
        profile: Some("/user/profile".to_string()),
        ..Config::default()
    };
    let project = Config {
        proxy: Some("http://project-proxy:9090".to_string()),
        debug: Some(true),
        ..Config::default()
    };
    let merged = user.merge(project);
    assert_eq!(merged.headed, Some(true));
    assert_eq!(merged.proxy.as_deref(), Some("http://project-proxy:9090"));
    assert_eq!(merged.profile.as_deref(), Some("/user/profile"));
    assert_eq!(merged.debug, Some(true));
}

#[test]
fn test_config_merge_none_does_not_override() {
    let user = Config {
        headed: Some(true),
        proxy: Some("http://proxy:8080".to_string()),
        ..Config::default()
    };
    let project = Config::default();
    let merged = user.merge(project);
    assert_eq!(merged.headed, Some(true));
    assert_eq!(merged.proxy.as_deref(), Some("http://proxy:8080"));
}

#[test]
fn test_extract_config_path() {
    assert_eq!(
        extract_config_path(&args("--config ./my-config.json open example.com")),
        Some("./my-config.json".to_string())
    );
}

#[test]
fn test_extract_config_path_missing() {
    assert_eq!(extract_config_path(&args("open example.com")), None);
}

#[test]
fn test_extract_config_path_no_value() {
    assert_eq!(extract_config_path(&args("--config")), None);
}

#[test]
fn test_clean_args_removes_config() {
    let cleaned = clean_args(&args("--config ./config.json open example.com"));
    assert_eq!(cleaned, vec!["open", "example.com"]);
}

#[test]
fn test_no_headed_flag() {
    let flags = parse(&args("--headed --no-headed open example.com"));
    assert!(!flags.headed);
}

#[test]
fn test_no_debug_flag() {
    let flags = parse(&args("--debug --no-debug open example.com"));
    assert!(!flags.debug);
}

#[test]
fn test_no_json_flag() {
    let flags = parse(&args("--json --no-json open example.com"));
    assert!(!flags.json);
}

#[test]
fn test_no_ignore_https_errors_flag() {
    let flags = parse(&args("--ignore-https-errors --no-ignore-https-errors open"));
    assert!(!flags.ignore_https_errors);
}

#[test]
fn test_no_allow_file_access_flag() {
    let flags = parse(&args("--allow-file-access --no-allow-file-access open"));
    assert!(!flags.allow_file_access);
}

#[test]
fn test_no_auto_connect_flag() {
    let flags = parse(&args("--auto-connect --no-auto-connect open"));
    assert!(!flags.auto_connect);
}

#[test]
fn test_clean_args_removes_no_flags() {
    let cleaned = clean_args(&args("--no-headed --no-debug open example.com"));
    assert_eq!(cleaned, vec!["open", "example.com"]);
}

#[test]
fn test_config_merge_extensions_concatenated() {
    let user = Config {
        extensions: Some(vec!["/ext1".to_string()]),
        ..Config::default()
    };
    let project = Config {
        extensions: Some(vec!["/ext2".to_string(), "/ext3".to_string()]),
        ..Config::default()
    };
    let merged = user.merge(project);
    assert_eq!(
        merged.extensions,
        Some(vec![
            "/ext1".to_string(),
            "/ext2".to_string(),
            "/ext3".to_string()
        ])
    );
}

#[test]
fn test_config_merge_extensions_user_only() {
    let user = Config {
        extensions: Some(vec!["/ext1".to_string()]),
        ..Config::default()
    };
    let project = Config::default();
    let merged = user.merge(project);
    assert_eq!(merged.extensions, Some(vec!["/ext1".to_string()]));
}

#[test]
fn test_config_merge_extensions_project_only() {
    let user = Config::default();
    let project = Config {
        extensions: Some(vec!["/ext2".to_string()]),
        ..Config::default()
    };
    let merged = user.merge(project);
    assert_eq!(merged.extensions, Some(vec!["/ext2".to_string()]));
}

#[test]
fn test_merge_false_boolean_still_overrides() {
    let user = Config {
        headed: Some(true),
        ..Config::default()
    };
    let project = Config {
        headed: Some(false),
        ..Config::default()
    };
    let merged = user.merge(project);
    assert_eq!(merged.headed, Some(false));
}

#[test]
fn test_toggle_negation_then_positive_wins() {
    let flags = parse(&args("--no-headed --headed open"));
    assert!(flags.headed);
}

#[test]
fn test_env_extensions_override_splits_and_trims() {
    let config = Config {
        extensions: Some(vec!["/from-file".to_string()]),
        ..Config::default()
    };
    let env = Env {
        extensions: Some("/a, /b ,,/c".to_string()),
        ..Env::empty()
    };
    let flags = parse_flags(config, &env, &args("open"));
    assert_eq!(flags.extensions, vec!["/a", "/b", "/c"]);
}

#[test]
fn test_env_extensions_blank_falls_back_to_file() {
    let config = Config {
        extensions: Some(vec!["/from-file".to_string()]),
        ..Config::default()
    };
    let env = Env {
        extensions: Some(" , ,".to_string()),
        ..Env::empty()
    };
    let flags = parse_flags(config, &env, &args("open"));
    assert_eq!(flags.extensions, vec!["/from-file"]);
}

#[test]
fn test_cli_extension_appends_to_env_list() {
    let env = Env {
        extensions: Some("/a".to_string()),
        ..Env::empty()
    };
    let flags = parse_flags(Config::default(), &env, &args("--extension /b open"));
    assert_eq!(flags.extensions, vec!["/a", "/b"]);
}

#[test]
fn test_env_absent_falls_back_to_file_cli_overrides() {
    let config = Config {
        profile: Some("/file-profile".to_string()),
        ..Config::default()
    };
    let flags = parse_flags(config, &Env::empty(), &args("open"));
    assert_eq!(flags.profile.as_deref(), Some("/file-profile"));

    let config2 = Config {
        profile: Some("/file-profile".to_string()),
        ..Config::default()
    };
    let env2 = Env {
        profile: Some("/env-profile".to_string()),
        ..Env::empty()
    };
    let flags2 = parse_flags(config2, &env2, &args("--profile /cli-profile open"));
    assert_eq!(flags2.profile.as_deref(), Some("/cli-profile"));
    assert!(flags2.cli_profile);
}

#[test]
fn test_profile_env_only_leaves_provenance_unset() {
    let env = Env {
        profile: Some("/env-profile".to_string()),
        ..Env::empty()
    };
    let flags = parse_flags(Config::default(), &env, &args("open"));
    assert_eq!(flags.profile.as_deref(), Some("/env-profile"));
    assert!(!flags.cli_profile);
}

#[test]
fn test_allow_file_access_env_presence_counts_as_true() {
    let env = Env {
        allow_file_access: Some(String::new()),
        ..Env::empty()
    };
    let flags = parse_flags(Config::default(), &env, &args("open"));
    assert!(flags.allow_file_access);
}

#[test]
fn test_allow_file_access_cli_marked_even_when_negated_later() {
    let flags = parse(&args("--allow-file-access --no-allow-file-access open"));
    assert!(!flags.allow_file_access);
    assert!(flags.cli_allow_file_access);
}

#[test]
fn test_session_defaults_and_env_beats_file() {
    let flags = parse(&args("open"));
    assert_eq!(flags.session, "default");

    let config = Config {
        session: Some("file-session".to_string()),
        ..Config::default()
    };
    let env = Env {
        session: Some("env-session".to_string()),
        ..Env::empty()
    };
    let flags2 = parse_flags(config, &env, &args("open"));
    assert_eq!(flags2.session, "env-session");
}

#[test]
fn test_load_config_explicit_missing_is_fatal() {
    let r = load_config(true, None, Some(Config::default()), Some(Config::default()));
    match r {
        Err(e) => assert_eq!(e, ConfigError::ExplicitLayerFailed),
        Ok(_) => panic!("an unreadable explicit config layer must be fatal"),
    }
}

#[test]
fn test_load_config_explicit_layer_is_exclusive() {
    let explicit = Config {
        headed: Some(true),
        ..Config::default()
    };
    let user = Config {
        debug: Some(true),
        ..Config::default()
    };
    let r = load_config(true, Some(explicit), Some(user), None).unwrap();
    assert_eq!(r.headed, Some(true));
    assert_eq!(r.debug, None);
}

#[test]
fn test_load_config_layers_project_over_user() {
    let user = Config {
        headed: Some(true),
        proxy: Some("http://user:1".to_string()),
        ..Config::default()
    };
    let project = Config {
        proxy: Some("http://project:2".to_string()),
        ..Config::default()
    };
    let r = load_config(false, None, Some(user), Some(project)).unwrap();
    assert_eq!(r.headed, Some(true));
    assert_eq!(r.proxy.as_deref(), Some("http://project:2"));
}

#[test]
fn test_value_flag_consumes_flag_like_value() {
    let cleaned = clean_args(&args("--session --headed open"));
    assert_eq!(cleaned, vec!["open"]);
    let flags = parse(&args("--session --headed open"));
    assert_eq!(flags.session, "--headed");
    assert!(!flags.headed);
}
