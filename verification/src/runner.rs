//! The command runner: which clean command is started next, and what the end
//! of a command means for the run.
//!
//! The runner starts no process. It hands out one command at a time, in the
//! order of the manifest, and is told how each ended. A command that did not
//! end with exit status 0 ends the run with an error; no later component is
//! looked at.

use vstd::prelude::*;
use crate::manifest::{ComponentManifest, ComponentView};
use crate::paths::{construct_workdir, invalid_workdir_message, resolved_workdir};
use crate::text::{debug_format, debug_text, decimal, decimal_text, int_text, signed_decimal};

verus! {

/// How a process ended.
#[derive(Debug, Clone, Copy, PartialEq, Eq)]
pub enum ExitStatus {
    /// It exited with this code.
    Exited(u32),
    /// A signal with this number ended it.
    Signaled(u8),
    /// It ended in a way that neither of the two above describes.
    Other(i32),
    /// It ended, but its status is not available.
    Undetermined,
}

impl ExitStatus {
    /// A process succeeded when it exited with code 0.
    pub open spec fn is_success(self) -> bool {
        self == ExitStatus::Exited(0)
    }

    /// Whether the process exited with code 0.
    pub fn success(&self) -> (ok: bool)
        ensures
            ok == self.is_success(),
    {
        match self {
            ExitStatus::Exited(code) => *code == 0,
            _ => false,
        }
    }
}

/// An exit status as text: the name of its kind and, in brackets, its number.
pub open spec fn status_text(status: ExitStatus) -> Seq<char> {
    match status {
        ExitStatus::Exited(code) => "Exited("@ + decimal_text(code as nat) + ")"@,
        ExitStatus::Signaled(signal) => "Signaled("@ + decimal_text(signal as nat) + ")"@,
        ExitStatus::Other(raw) => "Other("@ + int_text(raw as int) + ")"@,
        ExitStatus::Undetermined => "Undetermined"@,
    }
}

impl ExitStatus {
    /// The status as text.
    pub fn describe(&self) -> (r: String)
        ensures
            r@ == status_text(*self),
    {
        match self {
            ExitStatus::Exited(code) => {
                let mut r = "Exited(".to_owned();
                r.append(decimal(*code as u64).as_str());
                r.append(")");
                r
            },
            ExitStatus::Signaled(signal) => {
                let mut r = "Signaled(".to_owned();
                r.append(decimal(*signal as u64).as_str());
                r.append(")");
                r
            },
            ExitStatus::Other(raw) => {
                let mut r = "Other(".to_owned();
                r.append(signed_decimal(*raw as i64).as_str());
                r.append(")");
                r
            },
            ExitStatus::Undetermined => "Undetermined".to_owned(),
        }
    }
}

/// What came of starting a command and waiting for it.
#[derive(Debug, PartialEq, Eq)]
pub enum ProcessOutcome {
    /// The process could not be started.
    SpawnFailed { detail: String },
    /// The process was started, but waiting for it failed.
    WaitFailed { detail: String },
    /// The process ran and ended.
    Terminated(ExitStatus),
}

/// The mathematical value of a [`ProcessOutcome`].
pub ghost enum ProcessOutcomeView {
    SpawnFailed { detail: Seq<char> },
    WaitFailed { detail: Seq<char> },
    Terminated(ExitStatus),
}

impl View for ProcessOutcome {
    type V = ProcessOutcomeView;

    open spec fn view(&self) -> ProcessOutcomeView {
        match self {
            ProcessOutcome::SpawnFailed { detail } => ProcessOutcomeView::SpawnFailed {
                detail: detail@,
            },
            ProcessOutcome::WaitFailed { detail } => ProcessOutcomeView::WaitFailed {
                detail: detail@,
            },
            ProcessOutcome::Terminated(status) => ProcessOutcomeView::Terminated(*status),
        }
    }
}

/// A command to run: one shell command line, to be handed to the shell as it
/// is, in the directory `workdir`, for the component `component_id`.
#[derive(Debug, PartialEq, Eq)]
pub struct ShellCommand {
    pub component_id: String,
    pub command: String,
    pub workdir: String,
}

/// The mathematical value of a [`ShellCommand`].
pub ghost struct ShellCommandView {
    pub component_id: Seq<char>,
    pub command: Seq<char>,
    pub workdir: Seq<char>,
}

impl View for ShellCommand {
    type V = ShellCommandView;

    open spec fn view(&self) -> ShellCommandView {
        ShellCommandView {
            component_id: self.component_id@,
            command: self.command@,
            workdir: self.workdir@,
        }
    }
}

/// Why the clean command of a component failed.
#[derive(Debug, PartialEq, Eq)]
pub enum RunError {
    /// The configured working directory has a root. No process was started.
    InvalidWorkdir { component_id: String, command: String, workdir: String },
    /// The process could not be started.
    Spawn { component_id: String, command: String, detail: String },
    /// The process was started, but waiting for it failed.
    Wait { component_id: String, command: String, detail: String },
    /// The process ran and did not end with exit status 0.
    Execution { component_id: String, command: String, status: ExitStatus },
}

/// The mathematical value of a [`RunError`].
pub ghost enum RunErrorView {
    InvalidWorkdir { component_id: Seq<char>, command: Seq<char>, workdir: Seq<char> },
    Spawn { component_id: Seq<char>, command: Seq<char>, detail: Seq<char> },
    Wait { component_id: Seq<char>, command: Seq<char>, detail: Seq<char> },
    Execution { component_id: Seq<char>, command: Seq<char>, status: ExitStatus },
}

impl View for RunError {
    type V = RunErrorView;

    open spec fn view(&self) -> RunErrorView {
        match self {
            RunError::InvalidWorkdir { component_id, command, workdir } => {
                RunErrorView::InvalidWorkdir {
                    component_id: component_id@,
                    command: command@,
                    workdir: workdir@,
                }
            },
            RunError::Spawn { component_id, command, detail } => RunErrorView::Spawn {
                component_id: component_id@,
                command: command@,
                detail: detail@,
            },
            RunError::Wait { component_id, command, detail } => RunErrorView::Wait {
                component_id: component_id@,
                command: command@,
                detail: detail@,
            },
            RunError::Execution { component_id, command, status } => RunErrorView::Execution {
                component_id: component_id@,
                command: command@,
                status: *status,
            },
        }
    }
}

/// The diagnostic for a process that could not be started, where
/// `quoted_command` is the command line as `std::fmt::Debug` writes it.
pub open spec fn spawn_message(
    quoted_command: Seq<char>,
    component_id: Seq<char>,
    detail: Seq<char>,
) -> Seq<char> {
    "Cannot spawn build process '"@ + quoted_command + "' for component "@ + component_id + ": "@
        + detail
}

/// The diagnostic for a process that ran and did not end with exit status 0.
pub open spec fn execution_message(component_id: Seq<char>, status: ExitStatus) -> Seq<char> {
    "Build command for component "@ + component_id + " failed with status "@ + status_text(
        status,
    )
}

/// The diagnostic for a failed clean command. It tells a process that could
/// not be started from one that ran and failed; where waiting failed it is
/// the detail alone.
pub open spec fn run_error_message(e: RunErrorView) -> Seq<char> {
    match e {
        RunErrorView::InvalidWorkdir { .. } => invalid_workdir_message(),
        RunErrorView::Spawn { component_id, command, detail } => spawn_message(
            debug_text(command),
            component_id,
            detail,
        ),
        RunErrorView::Wait { detail, .. } => detail,
        RunErrorView::Execution { component_id, status, .. } => execution_message(
            component_id,
            status,
        ),
    }
}

/// Writes the diagnostic for a process that could not be started, where
/// `quoted_command` is the command line as `std::fmt::Debug` writes it.
pub fn spawn_error_message(quoted_command: &str, component_id: &str, detail: &str) -> (msg: String)
    ensures
        msg@ == spawn_message(quoted_command@, component_id@, detail@),
{
    let mut msg = "Cannot spawn build process '".to_owned();
    msg.append(quoted_command);
    msg.append("' for component ");
    msg.append(component_id);
    msg.append(": ");
    msg.append(detail);
    msg
}

/// Writes the diagnostic for a process that ran and did not end with exit
/// status 0.
pub fn execution_error_message(component_id: &str, status: ExitStatus) -> (msg: String)
    ensures
        msg@ == execution_message(component_id@, status),
{
    let mut msg = "Build command for component ".to_owned();
    msg.append(component_id);
    msg.append(" failed with status ");
    msg.append(status.describe().as_str());
    msg
}

impl RunError {
    /// The diagnostic.
    pub fn message(&self) -> (msg: String)
        ensures
            msg@ == run_error_message(self@),
    {
        match self {
            RunError::InvalidWorkdir { .. } => {
                "The workdir specified in the application file must be relative.".to_owned()
            },
            RunError::Spawn { component_id, command, detail } => spawn_error_message(
                debug_format(command.as_str()).as_str(),
                component_id.as_str(),
                detail.as_str(),
            ),
            RunError::Wait { detail, .. } => detail.clone(),
            RunError::Execution { component_id, status, .. } => execution_error_message(
                component_id.as_str(),
                *status,
            ),
        }
    }
}

/// What is to be done for one component.
#[derive(Debug, PartialEq, Eq)]
pub enum CleanStep {
    /// The component defines no clean command: nothing to do.
    Skip,
    /// The clean command cannot be run. No process is started for it.
    Refuse(RunError),
    /// This command is to be run.
    Run(ShellCommand),
}

/// The mathematical value of a [`CleanStep`].
pub ghost enum CleanStepView {
    Skip,
    Refuse(RunErrorView),
    Run(ShellCommandView),
}

impl View for CleanStep {
    type V = CleanStepView;

    open spec fn view(&self) -> CleanStepView {
        match self {
            CleanStep::Skip => CleanStepView::Skip,
            CleanStep::Refuse(e) => CleanStepView::Refuse(e@),
            CleanStep::Run(c) => CleanStepView::Run(c@),
        }
    }
}

/// What is to be done for a component of an application rooted at `app_dir`:
/// nothing where it defines no clean command; a refusal where the working
/// directory of the command cannot be resolved; else the command, in its
/// resolved directory.
pub open spec fn clean_step(component: ComponentView, app_dir: Seq<char>) -> CleanStepView {
    match component.clean {
        None => CleanStepView::Skip,
        Some(clean) => match resolved_workdir(app_dir, clean.workdir) {
            Some(dir) => CleanStepView::Run(
                ShellCommandView {
                    component_id: component.id,
                    command: clean.command,
                    workdir: dir,
                },
            ),
            None => CleanStepView::Refuse(
                RunErrorView::InvalidWorkdir {
                    component_id: component.id,
                    command: clean.command,
                    workdir: clean.workdir.unwrap(),
                },
            ),
        },
    }
}

/// Whether a command succeeded: its process ran and exited with code 0.
pub open spec fn succeeded(outcome: ProcessOutcomeView) -> bool {
    outcome matches ProcessOutcomeView::Terminated(status) && status.is_success()
}

/// What the end of a command means: success where the process ran and exited
/// with code 0, else the error that tells a process which could not be
/// started from one which ran and failed.
pub open spec fn command_result(command: ShellCommandView, outcome: ProcessOutcomeView) -> Result<
    (),
    RunErrorView,
> {
    match outcome {
        ProcessOutcomeView::SpawnFailed { detail } => Err(
            RunErrorView::Spawn {
                component_id: command.component_id,
                command: command.command,
                detail: detail,
            },
        ),
        ProcessOutcomeView::WaitFailed { detail } => Err(
            RunErrorView::Wait {
                component_id: command.component_id,
                command: command.command,
                detail: detail,
            },
        ),
        ProcessOutcomeView::Terminated(status) => if status.is_success() {
            Ok(())
        } else {
            Err(
                RunErrorView::Execution {
                    component_id: command.component_id,
                    command: command.command,
                    status: status,
                },
            )
        },
    }
}

/// The value of the result of a command.
pub open spec fn result_view(r: Result<(), RunError>) -> Result<(), RunErrorView> {
    match r {
        Ok(()) => Ok(()),
        Err(e) => Err(e@),
    }
}

/// Decides what is to be done to clean one component of an application rooted
/// at `app_dir`. It starts nothing: a command that is to be run is handed
/// back.
pub fn clean_component(component: &ComponentManifest, app_dir: &str) -> (step: CleanStep)
    ensures
        step@ == clean_step(component@, app_dir@),
{
    match &component.clean {
        None => CleanStep::Skip,
        Some(clean) => {
            let workdir: Option<&str> = match &clean.workdir {
                Some(w) => Some(w.as_str()),
                None => None,
            };
            match construct_workdir(app_dir, workdir) {
                Ok(dir) => CleanStep::Run(
                    ShellCommand {
                        component_id: component.id.clone(),
                        command: clean.command.clone(),
                        workdir: dir,
                    },
                ),
                Err(e) => CleanStep::Refuse(
                    RunError::InvalidWorkdir {
                        component_id: component.id.clone(),
                        command: clean.command.clone(),
                        workdir: e.workdir,
                    },
                ),
            }
        },
    }
}

/// Turns the end of `command` into the result of cleaning its component.
pub fn conclude(command: &ShellCommand, outcome: ProcessOutcome) -> (r: Result<(), RunError>)
    ensures
        result_view(r) == command_result(command@, outcome@),
{
    match outcome {
        ProcessOutcome::SpawnFailed { detail } => Err(
            RunError::Spawn {
                component_id: command.component_id.clone(),
                command: command.command.clone(),
                detail,
            },
        ),
        ProcessOutcome::WaitFailed { detail } => Err(
            RunError::Wait {
                component_id: command.component_id.clone(),
                command: command.command.clone(),
                detail,
            },
        ),
        ProcessOutcome::Terminated(status) => {
            if status.success() {
                Ok(())
            } else {
                Err(
                    RunError::Execution {
                        component_id: command.component_id.clone(),
                        command: command.command.clone(),
                        status,
                    },
                )
            }
        },
    }
}

} // verus!
