use muxw::cli::{
    choose_shell, get_shell, get_shell_completion_file, Cli, CliError, CliHandleOutcome, CliSub,
    CliSubQuery, ShellKind,
};

#[test]
fn shells_are_detected_by_file_name() {
    assert_eq!(get_shell(Some("/bin/bash")).unwrap(), ShellKind::Bash);
    assert_eq!(get_shell(Some("/usr/bin/zsh")).unwrap(), ShellKind::Zsh);
    assert_eq!(get_shell(Some("/usr/bin/fish")).unwrap(), ShellKind::Fish);
    assert_eq!(get_shell(Some("elvish")).unwrap(), ShellKind::Elvish);
    assert_eq!(get_shell(Some("/opt/rbash")).unwrap(), ShellKind::Bash);
    assert!(matches!(get_shell(None), Err(CliError::ShellNotDetected)));
    assert!(matches!(get_shell(Some("/")), Err(CliError::ShellNotDetected)));
    match get_shell(Some("/bin/tcsh")) {
        Err(CliError::ShellNotSupported { shell }) => assert_eq!(shell, "tcsh"),
        other => panic!("unexpected {other:?}"),
    }
}

#[test]
fn requested_shell_is_the_target() {
    assert_eq!(choose_shell(Some(ShellKind::Fish), Some("/bin/bash")).unwrap(), ShellKind::Fish);
    assert_eq!(choose_shell(None, Some("/bin/zsh")).unwrap(), ShellKind::Zsh);
    assert_eq!(choose_shell(Some(ShellKind::Fish), None).unwrap(), ShellKind::Fish);
    assert_eq!(choose_shell(Some(ShellKind::Zsh), Some("/bin/tcsh")).unwrap(), ShellKind::Zsh);
    assert!(matches!(choose_shell(None, None), Err(CliError::ShellNotDetected)));
}

#[test]
fn completion_files() {
    assert_eq!(get_shell_completion_file(ShellKind::Bash), "/usr/share/bash-completion/completions/muxw");
    assert_eq!(get_shell_completion_file(ShellKind::Zsh), "/usr/share/zsh/site-functions/_muxw");
    assert_eq!(get_shell_completion_file(ShellKind::Fish), "/usr/share/fish/completions/muxw.fish");
    assert_eq!(get_shell_completion_file(ShellKind::Elvish), "/usr/share/elvish/lib/muxw.elv");
}

#[test]
fn outcomes() {
    let cli = |s| Cli { config: None, subcommand: s };
    assert_eq!(cli(None).outcome(), CliHandleOutcome::Continue);
    assert_eq!(cli(Some(CliSub::Exit)).outcome(), CliHandleOutcome::Exit);
    assert_eq!(
        cli(Some(CliSub::Query { query: CliSubQuery::Inputs, json: true })).outcome(),
        CliHandleOutcome::Exit
    );
    assert_eq!(cli(Some(CliSub::Validate { config: None })).outcome(), CliHandleOutcome::Exit);
    assert_eq!(
        cli(Some(CliSub::MakeCompletion { shell: None, stdout: true })).outcome(),
        CliHandleOutcome::Exit
    );
}
