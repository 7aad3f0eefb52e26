use maintos::env_file::{parse_env_file, parse_env_line};
use maintos::settings::{env_file_path, get_project_settings, maint_file_path};

#[test]
fn line_splits_on_first_equals_only() {
    let vars = parse_env_file("FOO=bar=baz");
    assert_eq!(vars.len(), 1);
    assert_eq!(vars[0].key, "FOO");
    assert_eq!(vars[0].value, "bar=baz");
}

#[test]
fn line_without_equals_is_dropped() {
    let vars = parse_env_file("FOO=1\nnot an entry\nBAR=2");
    assert_eq!(vars.len(), 2);
    assert_eq!(vars[0].key, "FOO");
    assert_eq!(vars[0].value, "1");
    assert_eq!(vars[1].key, "BAR");
    assert_eq!(vars[1].value, "2");
}

#[test]
fn empty_file_yields_empty_list() {
    assert_eq!(parse_env_file("").len(), 0);
}

#[test]
fn trailing_newline_adds_no_entry() {
    let vars = parse_env_file("A=1\n");
    assert_eq!(vars.len(), 1);
    assert_eq!(vars[0].key, "A");
    assert_eq!(vars[0].value, "1");
}

#[test]
fn blank_lines_are_dropped() {
    let vars = parse_env_file("\n\nA=1\n\nB=2\n\n");
    assert_eq!(vars.len(), 2);
    assert_eq!(vars[0].key, "A");
    assert_eq!(vars[1].key, "B");
}

#[test]
fn empty_key_and_empty_value_are_kept() {
    let vars = parse_env_file("=v\nk=");
    assert_eq!(vars.len(), 2);
    assert_eq!(vars[0].key, "");
    assert_eq!(vars[0].value, "v");
    assert_eq!(vars[1].key, "k");
    assert_eq!(vars[1].value, "");
}

#[test]
fn duplicate_keys_stay_as_separate_entries() {
    let vars = parse_env_file("K=1\nK=2");
    assert_eq!(vars.len(), 2);
    assert_eq!(vars[0].value, "1");
    assert_eq!(vars[1].value, "2");
}

#[test]
fn parse_env_line_variants() {
    let entry = parse_env_line("PORT=8080").unwrap();
    assert_eq!(entry.key, "PORT");
    assert_eq!(entry.value, "8080");
    assert!(parse_env_line("no delimiter here").is_none());
    assert!(parse_env_line("").is_none());
}

#[test]
fn missing_maint_file_defaults_to_current_dir() {
    let settings = get_project_settings(None);
    assert_eq!(settings.deploy_dir, ".");
}

#[test]
fn maint_file_contents_are_trimmed() {
    let settings = get_project_settings(Some("dist\n"));
    assert_eq!(settings.deploy_dir, "dist");
    let settings = get_project_settings(Some("  spaced  "));
    assert_eq!(settings.deploy_dir, "spaced");
}

#[test]
fn settings_and_env_paths() {
    assert_eq!(maint_file_path("/deployments", "proj"), "/deployments/proj/.maint");
    assert_eq!(env_file_path("/deployments", "proj", "dist"), "/deployments/proj/dist/.env");
    assert_eq!(env_file_path("/deployments", "proj", "."), "/deployments/proj/./.env");
}
