use boxlite::cli::ManagementFlags;
use boxlite::cli::ProcessFlags;
use boxlite::cli::ResourceFlags;
use boxlite::command::cli_exit_code;
use boxlite::command::BoxCommand;
use boxlite::command::ExecResult;
use boxlite::error::BoxliteError;
use boxlite::options::RootfsSpec;
use boxlite::run::parse_command_args;
use boxlite::run::Completion;
use boxlite::run::ForwardedSignal;
use boxlite::run::RunArgs;
use boxlite::run::WaitAction;
use boxlite::run::WaitEvent;

fn args(command: Vec<&str>, tty: bool, interactive: bool) -> RunArgs {
    RunArgs {
        process: ProcessFlags {
            interactive,
            tty,
            env: vec!["A=1".to_string(), "HOST".to_string(), "GONE".to_string()],
            workdir: Some("/w".to_string()),
        },
        resource: ResourceFlags {
            cpus: Some(4),
            memory: None,
        },
        management: ManagementFlags {
            name: Some("n".to_string()),
            detach: true,
            rm: false,
        },
        image: "alpine:latest".to_string(),
        command: command.into_iter().map(|c| c.to_string()).collect(),
    }
}

#[test]
fn test_parse_command_args_defaults() {
    let empty: Vec<String> = vec![];
    assert_eq!(parse_command_args(&empty), ("sh", &[] as &[String]));
}

#[test]
fn test_parse_command_args_explicit() {
    let input = vec!["echo".to_string(), "hello".to_string()];
    assert_eq!(
        parse_command_args(&input),
        ("echo", &["hello".to_string()] as &[String])
    );
}

#[test]
fn test_prepare_command() {
    let cmd = args(vec!["sh", "-c", "exit 42"], true, false).prepare_command();
    assert_eq!(cmd.program, "sh");
    assert_eq!(cmd.args, vec!["-c".to_string(), "exit 42".to_string()]);
    assert!(cmd.tty);
    assert_eq!(cmd.env, None);
    assert_eq!(cmd.working_dir, None);
    let cmd = args(vec![], false, false).prepare_command();
    assert_eq!(cmd.program, "sh");
    assert!(cmd.args.is_empty());
    assert!(!cmd.tty);
}

#[test]
fn test_run_box_options() {
    let run = args(vec!["echo"], false, false);
    let (options, skipped) = run.box_options(&vec![None, Some("h".to_string()), None]);
    assert_eq!(options.cpus, Some(4));
    assert_eq!(options.memory_mib, None);
    assert!(options.detach);
    assert!(!options.auto_remove);
    assert_eq!(options.working_dir.as_deref(), Some("/w"));
    assert_eq!(
        options.env,
        vec![
            ("A".to_string(), "1".to_string()),
            ("HOST".to_string(), "h".to_string())
        ]
    );
    assert!(matches!(options.rootfs, RootfsSpec::Image(ref i) if i == "alpine:latest"));
    assert!(options.volumes.is_empty());
    assert!(options.ports.is_empty());
    assert_eq!(skipped, vec!["GONE".to_string()]);
    assert!(!run.wants_raw_mode());
    assert!(args(vec![], true, true).wants_raw_mode());
    assert!(!args(vec![], true, false).wants_raw_mode());
    assert!(!args(vec![], false, true).wants_raw_mode());
}

#[test]
fn test_configure_command() {
    let flags = ProcessFlags {
        interactive: false,
        tty: true,
        env: vec!["K=V".to_string(), "HOST".to_string(), "GONE".to_string()],
        workdir: Some("/w".to_string()),
    };
    let cmd = flags.configure_command(
        BoxCommand::new("sh").env("FIRST", "0"),
        &vec![None, Some("h".to_string()), None],
    );
    assert_eq!(
        cmd.env,
        Some(vec![
            ("FIRST".to_string(), "0".to_string()),
            ("K".to_string(), "V".to_string()),
            ("HOST".to_string(), "h".to_string()),
        ])
    );
    assert_eq!(cmd.working_dir.as_deref(), Some("/w"));
    assert!(cmd.tty);

    let plain = ProcessFlags {
        interactive: false,
        tty: false,
        env: vec!["GONE".to_string()],
        workdir: None,
    };
    let cmd = plain.configure_command(BoxCommand::new("sh").working_dir("/own").tty(true), &vec![None]);
    assert_eq!(cmd.env, None);
    assert_eq!(cmd.working_dir.as_deref(), Some("/own"));
    assert!(cmd.tty);
}

#[test]
fn test_exit_code_mapping() {
    assert_eq!(cli_exit_code(0), 0);
    assert_eq!(cli_exit_code(1), 1);
    assert_eq!(cli_exit_code(42), 42);
    assert_eq!(cli_exit_code(125), 125);
    assert_eq!(cli_exit_code(255), 255);
    assert_eq!(cli_exit_code(i32::MAX), i32::MAX);
    assert_eq!(cli_exit_code(-2), 130);
    assert_eq!(cli_exit_code(-9), 137);
    assert_eq!(cli_exit_code(-15), 143);
    assert_eq!(cli_exit_code(-1), 129);
    assert_eq!(cli_exit_code(-64), 192);
    assert_eq!(cli_exit_code(-(i32::MAX - 128)), i32::MAX);
    assert_eq!(cli_exit_code(-(i32::MAX - 129)), i32::MAX - 1);
    assert_eq!(cli_exit_code(i32::MIN), i32::MAX);
    let killed = ExecResult { exit_code: -9 };
    assert_eq!(killed.cli_exit_code(), 137);
    assert_eq!(killed.signal(), Some(9));
    assert!(!killed.success());
    let ok = ExecResult { exit_code: 0 };
    assert!(ok.success());
    assert_eq!(ok.signal(), None);
    assert_eq!(ExecResult { exit_code: i32::MIN }.signal(), Some(2_147_483_648));
}

#[test]
fn test_waiting_ends_when_exit_and_output_are_both_in() {
    let status = ExecResult { exit_code: 42 };
    let mut c = Completion::new();
    assert!(matches!(
        c.on_event(WaitEvent::Exited { status }),
        WaitAction::StopInput
    ));
    assert_eq!(c.exit_status, Some(status));
    assert!(!c.io_done);
    assert!(matches!(
        c.on_event(WaitEvent::OutputDrained),
        WaitAction::Finish { status: s } if s == status
    ));

    let mut c = Completion::new();
    assert!(matches!(
        c.on_event(WaitEvent::OutputDrained),
        WaitAction::Continue
    ));
    assert!(c.io_done);
    assert!(matches!(
        c.on_event(WaitEvent::Exited { status }),
        WaitAction::StopInputAndFinish { status: s } if s == status
    ));
    assert!(matches!(
        c.on_event(WaitEvent::Exited {
            status: ExecResult { exit_code: 1 }
        }),
        WaitAction::Continue
    ));
    assert_eq!(c.exit_status, Some(status));
    assert!(matches!(
        c.on_event(WaitEvent::OutputDrained),
        WaitAction::Continue
    ));
}

#[test]
fn test_waiting_forwards_signals_and_sizes() {
    let mut c = Completion::new();
    assert!(matches!(
        c.on_event(WaitEvent::Signal {
            signal: ForwardedSignal::Interrupt
        }),
        WaitAction::ForwardSignal { number: 2 }
    ));
    assert!(matches!(
        c.on_event(WaitEvent::Signal {
            signal: ForwardedSignal::Terminate
        }),
        WaitAction::ForwardSignal { number: 15 }
    ));
    assert!(matches!(
        c.on_event(WaitEvent::Signal {
            signal: ForwardedSignal::Hangup
        }),
        WaitAction::ForwardSignal { number: 1 }
    ));
    assert!(matches!(
        c.on_event(WaitEvent::WindowChanged {
            size: Some((80, 24))
        }),
        WaitAction::ResizeTty { rows: 24, cols: 80 }
    ));
    assert!(matches!(
        c.on_event(WaitEvent::WindowChanged { size: None }),
        WaitAction::Continue
    ));
    assert_eq!(c, Completion::new());
    match c.on_event(WaitEvent::WaitFailed {
        error: BoxliteError::Guest("stream closed".to_string()),
    }) {
        WaitAction::Fail { error } => assert_eq!(error.message(), "stream closed"),
        other => panic!("unexpected {:?}", other),
    }
    c.on_event(WaitEvent::Exited {
        status: ExecResult { exit_code: 0 },
    });
    assert!(matches!(
        c.on_event(WaitEvent::WaitFailed {
            error: BoxliteError::Guest("late".to_string())
        }),
        WaitAction::Continue
    ));
}
