//! A run over the components of an application: the clean commands are handed
//! out one at a time, in the order of the manifest, and the first failure ends
//! the run.
//!
//! A [`CleanRun`] is ready to go on. [`CleanRun::advance`] passes over the
//! components that define no clean command and stops at the first that does:
//! it hands out a [`PendingCommand`], or ends the run. The caller runs the
//! command and reports how it ended with [`PendingCommand::complete`], which
//! gives the run back only where the command succeeded.

use vstd::prelude::*;
use crate::manifest::{component_views, texts, ApplicationManifest, ComponentManifest, ComponentView};
use crate::runner::{
    clean_component, clean_step, command_result, conclude, CleanStep, CleanStepView,
    ProcessOutcome, ProcessOutcomeView, RunError, RunErrorView, ShellCommand, ShellCommandView,
};
use crate::select::{
    none_has_clean, nothing_to_clean, select_components, selection, unknown_ids,
    UnknownComponentError,
};

verus! {

/// A run that is ready to go on: the components, the application root and
/// the index of the next component to look at.
#[derive(Debug)]
pub struct CleanRun {
    components: Vec<ComponentManifest>,
    app_dir: String,
    cursor: usize,
}

/// The mathematical value of a [`CleanRun`].
pub ghost struct CleanRunView {
    pub components: Seq<ComponentView>,
    pub app_dir: Seq<char>,
    pub cursor: nat,
}

impl View for CleanRun {
    type V = CleanRunView;

    closed spec fn view(&self) -> CleanRunView {
        CleanRunView {
            components: component_views(self.components@),
            app_dir: self.app_dir@,
            cursor: self.cursor as nat,
        }
    }
}

/// A run that waits for the end of the command it handed out.
#[derive(Debug)]
pub struct PendingCommand {
    run: CleanRun,
    command: ShellCommand,
}

/// The mathematical value of a [`PendingCommand`]: the run, whose cursor
/// stands at the component that the command belongs to, and the command.
pub ghost struct PendingCommandView {
    pub run: CleanRunView,
    pub command: ShellCommandView,
}

impl View for PendingCommand {
    type V = PendingCommandView;

    closed spec fn view(&self) -> PendingCommandView {
        PendingCommandView { run: self.run@, command: self.command@ }
    }
}

/// How far a run got.
#[derive(Debug)]
pub enum Progress {
    /// This command is to be run next.
    Spawn(PendingCommand),
    /// Every component was passed: the run is over and succeeded.
    Finished,
    /// The run is over and failed.
    Failed(RunError),
}

/// The mathematical value of a [`Progress`].
pub ghost enum ProgressView {
    Spawn(PendingCommandView),
    Finished,
    Failed(RunErrorView),
}

impl View for Progress {
    type V = ProgressView;

    open spec fn view(&self) -> ProgressView {
        match self {
            Progress::Spawn(p) => ProgressView::Spawn(p@),
            Progress::Finished => ProgressView::Finished,
            Progress::Failed(e) => ProgressView::Failed(e@),
        }
    }
}

/// The run `run` with its cursor at `cursor`.
pub open spec fn at_cursor(run: CleanRunView, cursor: nat) -> CleanRunView {
    CleanRunView { components: run.components, app_dir: run.app_dir, cursor: cursor }
}

/// How far a run gets from where it stands without a command being run: it
/// passes over the components without a clean command, and stops at the first
/// component with one, either to hand out its command or, where that command
/// is refused, to fail.
pub open spec fn advance_of(run: CleanRunView) -> ProgressView
    decreases run.components.len() - run.cursor,
{
    if run.cursor >= run.components.len() {
        ProgressView::Finished
    } else {
        match clean_step(run.components[run.cursor as int], run.app_dir) {
            CleanStepView::Skip => advance_of(at_cursor(run, run.cursor + 1)),
            CleanStepView::Refuse(e) => ProgressView::Failed(e),
            CleanStepView::Run(command) => ProgressView::Spawn(
                PendingCommandView { run: run, command: command },
            ),
        }
    }
}

/// What the end of a pending command means for the run: on success the run
/// goes on behind the component of the command, else it is over with the
/// error.
pub open spec fn complete_of(pending: PendingCommandView, outcome: ProcessOutcomeView) -> Result<
    CleanRunView,
    RunErrorView,
> {
    match command_result(pending.command, outcome) {
        Ok(()) => Ok(at_cursor(pending.run, pending.run.cursor + 1)),
        Err(e) => Err(e),
    }
}

impl CleanRun {
    #[verifier::type_invariant]
    spec fn within(&self) -> bool {
        self.cursor <= self.components.len()
    }

    /// A run over `components`, in their order, for an application rooted at
    /// `app_dir`. It stands before the first component.
    pub fn new(components: Vec<ComponentManifest>, app_dir: String) -> (run: CleanRun)
        ensures
            run@ == (CleanRunView {
                components: component_views(components@),
                app_dir: app_dir@,
                cursor: 0,
            }),
    {
        CleanRun { components, app_dir, cursor: 0 }
    }

    /// Goes on to the next clean command. No process is started here: where
    /// a command is to be run, it is handed out and the run waits for its end.
    pub fn advance(self) -> (progress: Progress)
        ensures
            progress@ == advance_of(self@),
    {
        proof {
            use_type_invariant(&self);
        }
        let ghost start = self@;
        let mut i: usize = self.cursor;
        while i < self.components.len()
            invariant
                self.cursor <= i <= self.components.len(),
                start == self@,
                advance_of(start) == advance_of(at_cursor(start, i as nat)),
            decreases self.components.len() - i,
        {
            assert(component_views(self.components@)[i as int] == self.components@[i as int]@);
            match clean_component(&self.components[i], self.app_dir.as_str()) {
                CleanStep::Skip => {
                    i += 1;
                },
                CleanStep::Refuse(e) => {
                    return Progress::Failed(e);
                },
                CleanStep::Run(command) => {
                    let run = CleanRun {
                        components: self.components,
                        app_dir: self.app_dir,
                        cursor: i,
                    };
                    return Progress::Spawn(PendingCommand { run, command });
                },
            }
        }
        Progress::Finished
    }
}

impl PendingCommand {
    #[verifier::type_invariant]
    spec fn within(&self) -> bool {
        self.run.cursor < self.run.components.len()
    }

    /// The command that is to be run.
    pub fn command(&self) -> (command: &ShellCommand)
        ensures
            command@ == self@.command,
    {
        &self.command
    }

    /// Takes the end of the command. Where the process ran and exited with
    /// code 0 the run goes on behind this component. Any other end is the
    /// error of the whole run: the run is gone, and with it every later
    /// component.
    pub fn complete(self, outcome: ProcessOutcome) -> (r: Result<CleanRun, RunError>)
        ensures
            match complete_of(self@, outcome@) {
                Ok(next) => r matches Ok(run) && run@ == next,
                Err(error) => r matches Err(e) && e@ == error,
            },
    {
        proof {
            use_type_invariant(&self);
        }
        match conclude(&self.command, outcome) {
            Ok(()) => Ok(
                CleanRun {
                    components: self.run.components,
                    app_dir: self.run.app_dir,
                    cursor: self.run.cursor + 1,
                },
            ),
            Err(e) => Err(e),
        }
    }
}

/// What is to be done for an application: nothing, where no selected component
/// defines a clean command, else a run over the selected components.
#[derive(Debug)]
pub enum Plan {
    /// None of the selected components has a clean command. This is no error:
    /// there is nothing to do, and no process is started.
    NothingToClean,
    /// The clean commands of these components are to be run.
    Clean(CleanRun),
}

/// The mathematical value of a [`Plan`].
pub ghost enum PlanView {
    NothingToClean,
    Clean(CleanRunView),
}

impl View for Plan {
    type V = PlanView;

    open spec fn view(&self) -> PlanView {
        match self {
            Plan::NothingToClean => PlanView::NothingToClean,
            Plan::Clean(run) => PlanView::Clean(run@),
        }
    }
}

/// The plan for the selected components `chosen` of an application rooted at
/// `app_dir`.
pub open spec fn plan_of(chosen: Seq<ComponentView>, app_dir: Seq<char>) -> PlanView {
    if none_has_clean(chosen) {
        PlanView::NothingToClean
    } else {
        PlanView::Clean(CleanRunView { components: chosen, app_dir: app_dir, cursor: 0 })
    }
}

/// Plans the cleaning of an application rooted at `app_dir`.
///
/// The request selects the components; a request that names an unknown id
/// fails with every such id. Where none of the selected components defines a
/// clean command there is nothing to do. Else the plan is a run over the
/// selected components, in the order of the manifest, that stands before the
/// first of them.
pub fn plan_clean(manifest: ApplicationManifest, requested: &Vec<String>, app_dir: String) -> (r:
    Result<Plan, UnknownComponentError>)
    ensures
        r is Ok <==> unknown_ids(manifest@, texts(requested@)).len() == 0,
        r matches Ok(plan) ==> plan@ == plan_of(
            selection(manifest@, texts(requested@)),
            app_dir@,
        ),
        r matches Err(e) ==> texts(e.unknown@) == unknown_ids(manifest@, texts(requested@)),
{
    match select_components(manifest.components, requested) {
        Err(e) => Err(e),
        Ok(chosen) => {
            if nothing_to_clean(&chosen) {
                Ok(Plan::NothingToClean)
            } else {
                Ok(Plan::Clean(CleanRun::new(chosen, app_dir)))
            }
        },
    }
}

} // verus!
