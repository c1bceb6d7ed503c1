use gitsync::config::{current_value_line, entered_or_current, prompt_text, Config};
use gitsync::store::{ConfigLocation, FileOp, StoredConfig};

fn sample() -> Config {
    Config {
        github_token: "old_token".to_string(),
        github_repo: "old/repo".to_string(),
        directory_path: "/old/path".to_string(),
    }
}

#[test]
fn test_prompt_with_default() {
    let message = "Test prompt";
    let default = "default_value";
    let expected = format!("{} [{}]: ", message, default);

    assert_eq!(format!("{} [{}]: ", message, default), expected);
}

#[test]
fn test_empty_config() {
    let config = Config {
        github_token: String::new(),
        github_repo: String::new(),
        directory_path: String::new(),
    };

    assert!(config.github_token.is_empty());
    assert!(config.github_repo.is_empty());
    assert!(config.directory_path.is_empty());
}

#[test]
fn empty_constructor_has_empty_fields() {
    let config = Config::empty();
    assert!(config.github_token.is_empty());
    assert!(config.github_repo.is_empty());
    assert!(config.directory_path.is_empty());
}

#[test]
fn setup_with_empty_lines_keeps_everything() {
    let config = Config::setup(Some(sample()), "", "", "");
    assert_eq!(config.github_token, "old_token");
    assert_eq!(config.github_repo, "old/repo");
    assert_eq!(config.directory_path, "/old/path");
}

#[test]
fn setup_with_whitespace_lines_keeps_everything() {
    let config = Config::setup(Some(sample()), "\n", "  \n", "\t");
    assert_eq!(config.github_token, "old_token");
    assert_eq!(config.github_repo, "old/repo");
    assert_eq!(config.directory_path, "/old/path");
}

#[test]
fn setup_changes_only_the_entered_field() {
    let config = Config::setup(Some(sample()), "", "new/repo\n", "");
    assert_eq!(config.github_token, "old_token");
    assert_eq!(config.github_repo, "new/repo");
    assert_eq!(config.directory_path, "/old/path");
}

#[test]
fn setup_trims_entered_values() {
    let config = Config::setup(Some(sample()), "  new_token \n", "", " /new/path\n");
    assert_eq!(config.github_token, "new_token");
    assert_eq!(config.github_repo, "old/repo");
    assert_eq!(config.directory_path, "/new/path");
}

#[test]
fn setup_without_existing_config_starts_empty() {
    let config = Config::setup(None, "tok\n", "", "");
    assert_eq!(config.github_token, "tok");
    assert_eq!(config.github_repo, "");
    assert_eq!(config.directory_path, "");
}

#[test]
fn with_entries_replaces_non_empty_entries() {
    let config = sample().with_entries(String::new(), "a/b".to_string(), String::new());
    assert_eq!(config.github_token, "old_token");
    assert_eq!(config.github_repo, "a/b");
    assert_eq!(config.directory_path, "/old/path");
}

#[test]
fn entered_value_wins_over_current() {
    assert_eq!(entered_or_current("cur".to_string(), "new".to_string()), "new");
    assert_eq!(entered_or_current("cur".to_string(), String::new()), "cur");
}

#[test]
fn prompt_text_appends_colon() {
    assert_eq!(prompt_text("Enter value"), "Enter value: ");
}

#[test]
fn current_value_line_only_for_set_values() {
    assert_eq!(current_value_line("Current repository", "user/repo"), Some("Current repository: user/repo".to_string()));
    assert_eq!(current_value_line("Current repository", ""), None);
}

#[test]
fn location_inside_directory() {
    let loc = ConfigLocation::in_dir("/home/u/.config/gitsync");
    assert_eq!(loc.dir, "/home/u/.config/gitsync");
    assert_eq!(loc.file, "/home/u/.config/gitsync/config.json");
    assert_eq!(loc.temp, "/home/u/.config/gitsync/config.json.tmp");
    assert_eq!(loc.backup, "/home/u/.config/gitsync/config.json.bak");
}

#[test]
fn location_with_trailing_slash() {
    let loc = ConfigLocation::in_dir("/cfg/");
    assert_eq!(loc.file, "/cfg/config.json");
}

#[test]
fn load_missing_file_gives_none_and_no_ops() {
    let loc = ConfigLocation::in_dir("/cfg");
    let out = Config::load(&loc, StoredConfig::Absent);
    assert!(out.config.is_none());
    assert!(out.ops.is_empty());
    assert!(out.warning.is_none());
}

#[test]
fn load_parsed_file_gives_config() {
    let loc = ConfigLocation::in_dir("/cfg");
    let out = Config::load(&loc, StoredConfig::Parsed(sample()));
    let config = out.config.expect("config");
    assert_eq!(config.github_repo, "old/repo");
    assert!(out.ops.is_empty());
    assert!(out.warning.is_none());
}

#[test]
fn load_corrupted_file_backs_it_up() {
    let loc = ConfigLocation::in_dir("/cfg");
    let out = Config::load(&loc, StoredConfig::Malformed { reason: "expected value".to_string() });
    assert!(out.config.is_none());
    assert_eq!(out.ops.len(), 1);
    match &out.ops[0] {
        FileOp::Copy { from, to } => {
            assert_eq!(from, "/cfg/config.json");
            assert_eq!(to, "/cfg/config.json.bak");
        }
        other => panic!("unexpected op {:?}", other),
    }
    assert_eq!(out.warning, Some("Warning: Config file is corrupted: expected value".to_string()));
}

#[test]
fn load_unreadable_file_warns() {
    let loc = ConfigLocation::in_dir("/cfg");
    let out = Config::load(&loc, StoredConfig::Unreadable { reason: "denied".to_string() });
    assert!(out.config.is_none());
    assert!(out.ops.is_empty());
    assert_eq!(out.warning, Some("Warning: Could not read config file: denied".to_string()));
}

#[test]
fn save_writes_temp_then_renames() {
    let loc = ConfigLocation::in_dir("/cfg");
    let ops = Config::save(&loc, "{}".to_string());
    assert_eq!(ops.len(), 3);
    match &ops[0] {
        FileOp::CreateDirAll { path } => assert_eq!(path, "/cfg"),
        other => panic!("unexpected op {:?}", other),
    }
    match &ops[1] {
        FileOp::Write { path, contents } => {
            assert_eq!(path, "/cfg/config.json.tmp");
            assert_eq!(contents, "{}");
        }
        other => panic!("unexpected op {:?}", other),
    }
    match &ops[2] {
        FileOp::Rename { from, to } => {
            assert_eq!(from, "/cfg/config.json.tmp");
            assert_eq!(to, "/cfg/config.json");
        }
        other => panic!("unexpected op {:?}", other),
    }
}
