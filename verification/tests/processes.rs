use spin_clean::manifest::{CleanConfig, ComponentManifest};
use spin_clean::run::{CleanRun, Progress};
use spin_clean::runner::{ExitStatus, ProcessOutcome, RunError, ShellCommand};
use subprocess::{Exec, Redirection};

fn cleaning(id: &str, command: &str, workdir: Option<&str>) -> ComponentManifest {
    ComponentManifest {
        id: id.to_string(),
        build: None,
        clean: Some(CleanConfig {
            command: command.to_string(),
            workdir: workdir.map(|w| w.to_string()),
        }),
    }
}

fn status(s: subprocess::ExitStatus) -> ExitStatus {
    match s {
        subprocess::ExitStatus::Exited(code) => ExitStatus::Exited(code),
        subprocess::ExitStatus::Signaled(signal) => ExitStatus::Signaled(signal),
        subprocess::ExitStatus::Other(raw) => ExitStatus::Other(raw),
        subprocess::ExitStatus::Undetermined => ExitStatus::Undetermined,
    }
}

/// Runs the command through the shell and waits for it.
fn spawn(command: &ShellCommand) -> ProcessOutcome {
    let started = Exec::shell(&command.command)
        .cwd(&command.workdir)
        .stdout(Redirection::None)
        .stderr(Redirection::None)
        .stdin(Redirection::None)
        .popen();
    match started {
        Err(e) => ProcessOutcome::SpawnFailed { detail: e.to_string() },
        Ok(mut process) => match process.wait() {
            Err(e) => ProcessOutcome::WaitFailed { detail: e.to_string() },
            Ok(s) => ProcessOutcome::Terminated(status(s)),
        },
    }
}

fn clean_all(mut run: CleanRun) -> (usize, Result<(), RunError>) {
    let mut spawned = 0;
    loop {
        match run.advance() {
            Progress::Finished => return (spawned, Ok(())),
            Progress::Failed(e) => return (spawned, Err(e)),
            Progress::Spawn(pending) => {
                spawned += 1;
                let outcome = spawn(pending.command());
                match pending.complete(outcome) {
                    Ok(next) => run = next,
                    Err(e) => return (spawned, Err(e)),
                }
            },
        }
    }
}

#[test]
fn real_commands_that_succeed() {
    let run = CleanRun::new(vec![cleaning("a", "true", None), cleaning("b", "exit 0", None)], "/".to_string());
    assert_eq!(clean_all(run), (2, Ok(())));
}

#[test]
fn real_command_that_fails_ends_the_run() {
    let run = CleanRun::new(vec![cleaning("a", "exit 3", None), cleaning("b", "true", None)], "/".to_string());
    let (spawned, result) = clean_all(run);
    assert_eq!(spawned, 1);
    let err = result.unwrap_err();
    assert_eq!(
        err,
        RunError::Execution {
            component_id: "a".to_string(),
            command: "exit 3".to_string(),
            status: ExitStatus::Exited(3),
        }
    );
    assert_eq!(err.message(), "Build command for component a failed with status Exited(3)");
}

#[test]
fn real_command_is_read_by_the_shell() {
    let run = CleanRun::new(vec![cleaning("a", "test \"$(pwd)\" = / && exit 7", None)], "/".to_string());
    let (_, result) = clean_all(run);
    assert!(matches!(
        result,
        Err(RunError::Execution { status: ExitStatus::Exited(7), .. })
    ));
}

#[test]
fn real_command_in_a_missing_directory_cannot_be_started() {
    let run = CleanRun::new(
        vec![cleaning("a", "true", Some("no/such/dir/anywhere")), cleaning("b", "true", None)],
        "/".to_string(),
    );
    let (spawned, result) = clean_all(run);
    assert_eq!(spawned, 1);
    assert!(matches!(result, Err(RunError::Spawn { .. })));
}
