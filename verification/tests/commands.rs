use zelix::commands::find::{find, is_hidden, FindArgs};
use zelix::commands::find_in_helix::{self, FindInHelixArgs};
use zelix::commands::helpers::{write_chars_and_rel_path_to_helix, write_chars_to_helix};
use zelix::commands::open::{
    choose_config_dir, delete_session_ok, launch_plan, zellij_launch_args, LaunchPlan,
    ZellijConfigDir,
};
use zelix::commands::open_in_helix::{open_in_helix, OpenInHelixArgs};
use zelix::config::{Config, FindSection, HiddenMethod, OpenSection};
use zelix::errors::PathError;

fn owned(args: Vec<&str>) -> Vec<String> {
    args.into_iter().map(String::from).collect()
}

fn expected_plan(chars: &str) -> Vec<Vec<String>> {
    vec![
        owned(vec!["write", "27"]),
        owned(vec!["move-focus", "right"]),
        owned(vec!["write", "27"]),
        owned(vec!["write-chars", chars]),
        owned(vec!["write", "13"]),
    ]
}

#[test]
fn write_plan_has_five_actions() {
    let plan = write_chars_to_helix(" fsrc/main.rs".to_string());
    assert_eq!(plan, expected_plan(" fsrc/main.rs"));
}

#[test]
fn helper_prefixes_method_and_relative_path() {
    let plan = write_chars_and_rel_path_to_helix(":o ", "/p", "/p/a/b.rs").unwrap();
    assert_eq!(plan, expected_plan(":o a/b.rs"));
}

#[test]
fn helper_fails_outside_project() {
    let err = write_chars_and_rel_path_to_helix(":o ", "/p", "/q/a.rs").unwrap_err();
    assert_eq!(err, PathError::NotUnderRoot);
}

#[test]
fn find_in_helix_uses_the_picker() {
    let args = FindInHelixArgs {
        project_dir: "/p".to_string(),
        full_path_of_file: "/p/src/lib.rs".to_string(),
    };
    let plan = find_in_helix::find_in_helix(&args).unwrap();
    assert_eq!(plan, expected_plan(" fsrc/lib.rs"));
}

#[test]
fn legacy_find_matches_find_in_helix() {
    let args = FindInHelixArgs {
        project_dir: "/p".to_string(),
        full_path_of_file: "/p/src/lib.rs".to_string(),
    };
    assert_eq!(
        find_in_helix::find(&args).unwrap(),
        find_in_helix::find_in_helix(&args).unwrap()
    );
}

#[test]
fn open_in_helix_uses_the_open_command() {
    let args = OpenInHelixArgs {
        project_dir: "/p".to_string(),
        full_path_of_file: "/p/notes.md".to_string(),
    };
    let plan = open_in_helix(&args).unwrap();
    assert_eq!(plan, expected_plan(":o notes.md"));
}

#[test]
fn is_hidden_checks_the_file_name() {
    assert_eq!(is_hidden("/p/.env"), Some(true));
    assert_eq!(is_hidden("/p/main.rs"), Some(false));
    assert_eq!(is_hidden("/p/a/.."), None);
}

fn find_args(file: &str) -> FindArgs {
    FindArgs {
        project_dir: "/p".to_string(),
        full_path_of_file: format!("/p/{}", file),
    }
}

#[test]
fn find_visible_file_uses_the_picker() {
    let plan = find(&find_args("src/main.rs"), &None).unwrap();
    assert_eq!(plan, expected_plan(" fsrc/main.rs"));
}

#[test]
fn find_hidden_file_defaults_to_open() {
    let plan = find(&find_args(".env"), &None).unwrap();
    assert_eq!(plan, expected_plan(":o .env"));
    let plan = find(&find_args(".env"), &Some(HiddenMethod::Open)).unwrap();
    assert_eq!(plan, expected_plan(":o .env"));
}

#[test]
fn find_hidden_file_with_picker_method() {
    let plan = find(&find_args(".env"), &Some(HiddenMethod::Picker)).unwrap();
    assert_eq!(plan, expected_plan(" f.env"));
}

#[test]
fn find_unknown_hidden_state_uses_open() {
    let plan = find(&find_args("a/.."), &Some(HiddenMethod::Picker)).unwrap();
    assert_eq!(plan, expected_plan(":o a/.."));
}

#[test]
fn find_outside_project_fails() {
    let args = FindArgs {
        project_dir: "/p".to_string(),
        full_path_of_file: "/q/x".to_string(),
    };
    assert_eq!(find(&args, &None).unwrap_err(), PathError::NotUnderRoot);
}

fn config(
    session: Option<&str>,
    terminal: Option<Vec<&str>>,
    hidden: Option<HiddenMethod>,
) -> Config {
    Config {
        session: session.map(String::from),
        open: OpenSection {
            terminal: terminal.map(owned),
        },
        find: FindSection {
            hidden_method: hidden,
        },
    }
}

#[test]
fn merge_prefers_local_settings() {
    let mut local = config(Some("a"), None, Some(HiddenMethod::Picker));
    let home = config(Some("b"), Some(vec!["kitty"]), Some(HiddenMethod::Open));
    local.merge(home);
    assert_eq!(local.session, Some("a".to_string()));
    assert_eq!(local.open.terminal, Some(vec!["kitty".to_string()]));
    assert_eq!(local.find.hidden_method, Some(HiddenMethod::Picker));
}

#[test]
fn merge_fills_unset_settings_from_home() {
    let mut local = config(None, None, None);
    let home = config(Some("b"), Some(vec!["kitty", "-e"]), Some(HiddenMethod::Open));
    local.merge(home);
    assert_eq!(local.session, Some("b".to_string()));
    assert_eq!(local.open.terminal, Some(owned(vec!["kitty", "-e"])));
    assert_eq!(local.find.hidden_method, Some(HiddenMethod::Open));
}

#[test]
fn config_dir_prefers_the_local_one() {
    assert_eq!(choose_config_dir(true, true), Some(ZellijConfigDir::Local));
    assert_eq!(choose_config_dir(true, false), Some(ZellijConfigDir::Local));
    assert_eq!(choose_config_dir(false, true), Some(ZellijConfigDir::Home));
    assert_eq!(choose_config_dir(false, false), None);
}

#[test]
fn delete_session_accepts_exited_and_absent_sessions() {
    assert!(delete_session_ok(Some(0)));
    assert!(delete_session_ok(Some(2)));
    assert!(!delete_session_ok(Some(1)));
    assert!(!delete_session_ok(Some(3)));
    assert!(!delete_session_ok(None));
}

#[test]
fn launch_args_name_session_and_config_dir() {
    assert_eq!(
        zellij_launch_args("s", "/cfg"),
        owned(vec!["--session", "s", "--config-dir", "/cfg"])
    );
}

#[test]
fn launch_plan_without_terminal_runs_in_foreground() {
    match launch_plan(&None, "s", "/cfg") {
        LaunchPlan::Foreground(argv) => {
            assert_eq!(argv, owned(vec!["--session", "s", "--config-dir", "/cfg"]));
        }
        other => panic!("expected a foreground plan, got {:?}", other),
    }
    match launch_plan(&Some(Vec::new()), "s", "/cfg") {
        LaunchPlan::Foreground(_) => {}
        other => panic!("expected a foreground plan, got {:?}", other),
    }
}

#[test]
fn launch_plan_with_terminal_spawns_it() {
    let terminal = Some(owned(vec!["kitty", "-e"]));
    match launch_plan(&terminal, "s", "/cfg") {
        LaunchPlan::Terminal(argv) => {
            assert_eq!(
                argv,
                owned(vec![
                    "kitty",
                    "-e",
                    "zellij",
                    "--session",
                    "s",
                    "--config-dir",
                    "/cfg",
                ])
            );
        }
        other => panic!("expected a terminal plan, got {:?}", other),
    }
}
