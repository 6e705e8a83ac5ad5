use gg::{
    build_command_line, build_command_tokens, builtin_names, plan_run, resolve_tokens, Config,
    Error, FileRead, LoadedConfig, OptionalLoadedConfig, Resolution, RunError, Script,
};

fn config_with(names: &[&str]) -> Config {
    Config {
        gg: None,
        scripts: names.iter().map(|n| (n.to_string(), Script {})).collect(),
    }
}

fn argv(words: &[&str]) -> Vec<String> {
    words.iter().map(|w| w.to_string()).collect()
}

#[test]
fn test_builtin_names() {
    assert_eq!(builtin_names(), vec!["run"]);
}

#[test]
fn test_script_token_redispatches_as_run() {
    let config = config_with(&["build"]);
    let r = resolve_tokens(&argv(&["gg", "build", "--fast", "x"]), &builtin_names(), &config);
    match r {
        Resolution::RunScript(v) => {
            assert_eq!(v, vec!["gg", "run", "build", "--fast", "x"]);
        }
        _ => panic!("expected a script re-dispatch"),
    }
}

#[test]
fn test_unknown_token_is_unknown() {
    let config = config_with(&["build"]);
    let r = resolve_tokens(&argv(&["gg", "deploy"]), &builtin_names(), &config);
    assert!(matches!(r, Resolution::Unknown));
    assert_eq!(
        gg::unknown_subcommand_message(&"deploy".to_string()),
        "unknown subcommand deploy"
    );
}

#[test]
fn test_builtin_beats_script_of_the_same_name() {
    let config = config_with(&["run", "build"]);
    let r = resolve_tokens(&argv(&["gg", "run", "build"]), &builtin_names(), &config);
    assert!(matches!(r, Resolution::Builtin));
}

#[test]
fn test_tokenized_command() {
    let base = "echo hi".to_string();
    let tokens = build_command_tokens(&base, &argv(&["there"])).unwrap();
    assert_eq!(tokens, vec!["echo", "hi", "there"]);
}

#[test]
fn test_argument_with_a_space_survives_the_round_trip() {
    let base = "echo".to_string();
    let line = build_command_line(&base, &argv(&["a b"])).unwrap();
    assert_eq!(line, "echo 'a b'");
    let tokens = build_command_tokens(&base, &argv(&["a b"])).unwrap();
    assert_eq!(tokens, vec!["echo", "a b"]);
}

#[test]
fn test_nul_argument_is_rejected() {
    let base = "echo".to_string();
    let e = build_command_tokens(&base, &argv(&["a\0b"])).unwrap_err();
    assert!(matches!(e, RunError::NulArgument));
    assert_eq!(e.message(), "argument contains a nul byte");
}

#[test]
fn test_unclosed_quote_is_rejected() {
    let base = "echo 'unclosed".to_string();
    let e = build_command_tokens(&base, &argv(&[])).unwrap_err();
    assert!(matches!(e, RunError::BadCommand));
}

fn loaded_with(names: &[&str]) -> Result<Option<LoadedConfig>, Error> {
    Ok(Some(LoadedConfig { path: "/repo/.ggrc.json".to_string(), config: config_with(names) }))
}

#[test]
fn test_plan_run() {
    let plan = plan_run(
        &argv(&["build", "x"]),
        &loaded_with(&["build"]),
        &Some("/repo".to_string()),
        &"/cwd".to_string(),
        &"echo hi".to_string(),
    )
    .unwrap();
    assert_eq!(plan.workdir, "/repo");
    assert_eq!(plan.command_line, "echo hi x");
    assert_eq!(plan.tokens, vec!["echo", "hi", "x"]);
}

#[test]
fn test_plan_run_without_a_root_uses_the_working_directory() {
    let plan = plan_run(
        &argv(&["build"]),
        &loaded_with(&["build"]),
        &None,
        &"/cwd".to_string(),
        &"true".to_string(),
    )
    .unwrap();
    assert_eq!(plan.workdir, "/cwd");
}

#[test]
fn test_plan_run_empty_invocation() {
    let e = plan_run(&argv(&[]), &loaded_with(&["a"]), &None, &"/c".to_string(), &"x".to_string())
        .unwrap_err();
    assert!(matches!(e, RunError::NoScript));
    assert_eq!(e.message(), "no script specified");
}

#[test]
fn test_plan_run_script_not_found() {
    let e = plan_run(
        &argv(&["deploy"]),
        &loaded_with(&["build"]),
        &None,
        &"/c".to_string(),
        &"x".to_string(),
    )
    .unwrap_err();
    assert!(matches!(e, RunError::ScriptNotFound { .. }));
    assert_eq!(e.message(), "script 'deploy' not found");
}

#[test]
fn test_plan_run_with_no_configuration_found() {
    let e = plan_run(&argv(&["a"]), &Ok(None), &None, &"/c".to_string(), &"x".to_string())
        .unwrap_err();
    assert!(matches!(e, RunError::ScriptNotFound { .. }));
}

#[test]
fn test_plan_run_load_failure_is_fatal() {
    let loaded = Err(Error::Json { message: "boom".to_string() });
    let e = plan_run(&argv(&["a"]), &loaded, &None, &"/c".to_string(), &"x".to_string())
        .unwrap_err();
    match &e {
        RunError::LoadFailed { message } => {
            assert_eq!(message, "json error: boom");
        }
        _ => panic!("expected a load failure"),
    }
    assert_eq!(e.message(), "failed to load config: json error: boom");
}

#[test]
fn test_plan_run_empty_command_line() {
    let e = plan_run(
        &argv(&["a"]),
        &loaded_with(&["a"]),
        &None,
        &"/c".to_string(),
        &"".to_string(),
    )
    .unwrap_err();
    assert!(matches!(e, RunError::EmptyCommand));
}

#[test]
fn test_optional_loaded_config_get() {
    let loaded = loaded_with(&["a"]).unwrap();
    assert_eq!(loaded.get().scripts.len(), 1);
}

#[test]
fn test_git_handle_and_root_output() {
    let g = gg::G::new("/somewhere");
    assert_eq!(g.dir, "/somewhere");

    assert_eq!(gg::root_from_stdout("/a/b\n"), "/a/b");
    assert_eq!(gg::root_from_stdout("  /a b/c \t\r\n"), "  /a b/c");
    assert_eq!(gg::root_from_stdout(""), "");
    assert_eq!(gg::root_from_stdout(" \n"), "");
}
