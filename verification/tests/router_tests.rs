use rusty_containers::router::Command;
use rusty_containers::router::Dispatch;
use rusty_containers::router::MissingKind;
use rusty_containers::router::UsageError;
use rusty_containers::router::dispatch;
use rusty_containers::router::parse_args;
use rusty_containers::router::usage_message;

fn args(tokens: &[&str]) -> Vec<String> {
    tokens.iter().map(|t| t.to_string()).collect()
}

#[test]
fn ls_parses_to_list() {
    let r = parse_args(&args(&["ls"]));
    assert!(matches!(r, Ok(Command::List)));
}

#[test]
fn pull_parses_image() {
    let r = parse_args(&args(&["pull", "busybox"]));
    match r {
        Ok(Command::Pull { image }) => assert_eq!(image, "busybox"),
        _ => panic!("expected Pull"),
    }
}

#[test]
fn run_parses_image_env_and_volume() {
    let r = parse_args(&args(&["run", "myimage", "-e", "A=B", "--volume", "/h:/c"]));
    match r {
        Ok(Command::Run { image, envs, volumes }) => {
            assert_eq!(image, "myimage");
            assert_eq!(envs, vec!["A=B".to_string()]);
            assert_eq!(volumes, vec!["/h:/c".to_string()]);
        }
        _ => panic!("expected Run"),
    }
}

#[test]
fn run_parses_repeated_flags_in_any_order() {
    let r = parse_args(&args(&[
        "run", "img", "--volume", "/a:/b", "--env", "X=1", "-e", "Y=2", "--volume", "/c:/d",
    ]));
    match r {
        Ok(Command::Run { image, envs, volumes }) => {
            assert_eq!(image, "img");
            assert_eq!(envs, vec!["X=1".to_string(), "Y=2".to_string()]);
            assert_eq!(volumes, vec!["/a:/b".to_string(), "/c:/d".to_string()]);
        }
        _ => panic!("expected Run"),
    }
}

#[test]
fn run_with_only_image_has_empty_lists() {
    let r = parse_args(&args(&["run", "img"]));
    match r {
        Ok(Command::Run { image, envs, volumes }) => {
            assert_eq!(image, "img");
            assert!(envs.is_empty());
            assert!(volumes.is_empty());
        }
        _ => panic!("expected Run"),
    }
}

#[test]
fn stop_parses_container_id() {
    let r = parse_args(&args(&["stop", "abc123"]));
    match r {
        Ok(Command::Stop { container_id }) => assert_eq!(container_id, "abc123"),
        _ => panic!("expected Stop"),
    }
}

#[test]
fn logs_without_flag_does_not_follow() {
    let r = parse_args(&args(&["logs", "abc123"]));
    match r {
        Ok(Command::Logs { container_id, follow }) => {
            assert_eq!(container_id, "abc123");
            assert!(!follow);
        }
        _ => panic!("expected Logs"),
    }
}

#[test]
fn logs_follows_with_short_and_long_flag() {
    for flag in ["-f", "--follow"] {
        let r = parse_args(&args(&["logs", "abc123", flag]));
        match r {
            Ok(Command::Logs { container_id, follow }) => {
                assert_eq!(container_id, "abc123");
                assert!(follow);
            }
            _ => panic!("expected Logs"),
        }
    }
}

#[test]
fn exec_parses_command_tokens_after_separator() {
    let r = parse_args(&args(&["exec", "abc123", "--", "echo", "hi"]));
    match r {
        Ok(Command::Exec { container_id, cmd }) => {
            assert_eq!(container_id, "abc123");
            assert_eq!(cmd, vec!["echo".to_string(), "hi".to_string()]);
        }
        _ => panic!("expected Exec"),
    }
}

#[test]
fn no_arguments_is_a_usage_error() {
    let r = parse_args(&Vec::new());
    assert!(matches!(
        r,
        Err(UsageError::Missing { what: MissingKind::Subcommand })
    ));
}

#[test]
fn pull_without_image_is_a_usage_error() {
    let r = parse_args(&args(&["pull"]));
    assert!(matches!(r, Err(UsageError::Missing { what: MissingKind::Image })));
}

#[test]
fn run_without_image_is_a_usage_error() {
    let r = parse_args(&args(&["run"]));
    assert!(matches!(r, Err(UsageError::Missing { what: MissingKind::Image })));
}

#[test]
fn run_with_dangling_env_flag_is_a_usage_error() {
    let r = parse_args(&args(&["run", "img", "-e"]));
    assert!(matches!(r, Err(UsageError::Missing { what: MissingKind::EnvValue })));
}

#[test]
fn run_with_dangling_volume_flag_is_a_usage_error() {
    let r = parse_args(&args(&["run", "img", "--volume"]));
    assert!(matches!(
        r,
        Err(UsageError::Missing { what: MissingKind::VolumeValue })
    ));
}

#[test]
fn stop_without_id_is_a_usage_error() {
    let r = parse_args(&args(&["stop"]));
    assert!(matches!(
        r,
        Err(UsageError::Missing { what: MissingKind::ContainerId })
    ));
}

#[test]
fn logs_without_id_is_a_usage_error() {
    let r = parse_args(&args(&["logs"]));
    assert!(matches!(
        r,
        Err(UsageError::Missing { what: MissingKind::ContainerId })
    ));
}

#[test]
fn exec_without_id_is_a_usage_error() {
    let r = parse_args(&args(&["exec"]));
    assert!(matches!(
        r,
        Err(UsageError::Missing { what: MissingKind::ContainerId })
    ));
}

#[test]
fn exec_without_command_is_a_usage_error() {
    for a in [vec!["exec", "abc"], vec!["exec", "abc", "--"]] {
        let r = parse_args(&args(&a));
        assert!(matches!(
            r,
            Err(UsageError::Missing { what: MissingKind::ExecCommand })
        ));
    }
}

#[test]
fn exec_without_separator_is_a_usage_error() {
    let r = parse_args(&args(&["exec", "abc", "echo"]));
    match r {
        Err(UsageError::UnexpectedToken { token }) => assert_eq!(token, "echo"),
        _ => panic!("expected UnexpectedToken"),
    }
}

#[test]
fn unknown_subcommand_is_named_in_the_error() {
    let r = parse_args(&args(&["launch", "img"]));
    match r {
        Err(UsageError::UnknownSubcommand { token }) => assert_eq!(token, "launch"),
        _ => panic!("expected UnknownSubcommand"),
    }
}

#[test]
fn extra_token_after_ls_is_named_in_the_error() {
    let r = parse_args(&args(&["ls", "extra"]));
    match r {
        Err(UsageError::UnexpectedToken { token }) => assert_eq!(token, "extra"),
        _ => panic!("expected UnexpectedToken"),
    }
}

#[test]
fn run_rejects_a_bare_positional_after_the_image() {
    let r = parse_args(&args(&["run", "img", "stray"]));
    match r {
        Err(UsageError::UnexpectedToken { token }) => assert_eq!(token, "stray"),
        _ => panic!("expected UnexpectedToken"),
    }
}

#[test]
fn usage_messages_name_what_was_wrong() {
    assert_eq!(
        usage_message(&UsageError::Missing { what: MissingKind::Image }),
        "usage error: missing required image"
    );
    assert_eq!(
        usage_message(&UsageError::UnknownSubcommand { token: "launch".to_string() }),
        "usage error: unknown subcommand 'launch'"
    );
    assert_eq!(
        usage_message(&UsageError::UnexpectedToken { token: "stray".to_string() }),
        "usage error: unexpected argument 'stray'"
    );
}

#[test]
fn usage_error_dispatches_to_a_report_and_no_runtime_call() {
    let d = dispatch(parse_args(&args(&["pull"])));
    match d {
        Dispatch::ReportUsage { line } => {
            assert_eq!(line, "usage error: missing required image");
        }
        _ => panic!("a usage error must not reach a runtime call"),
    }
}

#[test]
fn each_command_dispatches_to_its_own_call() {
    assert!(matches!(
        dispatch(parse_args(&args(&["ls"]))),
        Dispatch::CallListContainers
    ));
    match dispatch(parse_args(&args(&["pull", "busybox"]))) {
        Dispatch::CallPullImage { image } => assert_eq!(image, "busybox"),
        _ => panic!("expected CallPullImage"),
    }
    match dispatch(parse_args(&args(&["stop", "abc"]))) {
        Dispatch::CallStopContainer { container_id } => assert_eq!(container_id, "abc"),
        _ => panic!("expected CallStopContainer"),
    }
    match dispatch(parse_args(&args(&["logs", "abc", "-f"]))) {
        Dispatch::CallFetchLogs { container_id, follow } => {
            assert_eq!(container_id, "abc");
            assert!(follow);
        }
        _ => panic!("expected CallFetchLogs"),
    }
    match dispatch(parse_args(&args(&["exec", "abc", "--", "echo", "hi"]))) {
        Dispatch::CallCreateExec { container_id, cmd } => {
            assert_eq!(container_id, "abc");
            assert_eq!(cmd, vec!["echo".to_string(), "hi".to_string()]);
        }
        _ => panic!("expected CallCreateExec"),
    }
}

#[test]
fn run_dispatch_builds_the_create_spec() {
    match dispatch(parse_args(&args(&["run", "myimage", "-e", "A=B", "--volume", "/h:/c"]))) {
        Dispatch::CallCreateContainer { spec } => {
            assert_eq!(spec.image, "myimage");
            assert_eq!(spec.env, Some(vec!["A=B".to_string()]));
            assert_eq!(spec.binds, Some(vec!["/h:/c".to_string()]));
        }
        _ => panic!("expected CallCreateContainer"),
    }
    match dispatch(parse_args(&args(&["run", "myimage"]))) {
        Dispatch::CallCreateContainer { spec } => {
            assert_eq!(spec.image, "myimage");
            assert_eq!(spec.env, None);
            assert_eq!(spec.binds, None);
        }
        _ => panic!("expected CallCreateContainer"),
    }
}
