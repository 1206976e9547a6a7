//! What holds of selection, of working directories and of a run, for every
//! manifest and every request.

use vstd::prelude::*;
use crate::manifest::ComponentView;
use crate::paths::{invalid_workdir_message, path_has_root, path_join, resolved_workdir};
use crate::run::{
    advance_of, at_cursor, complete_of, plan_of, CleanRunView, PendingCommandView, PlanView,
    ProgressView,
};
use crate::runner::{
    clean_step, run_error_message, succeeded, CleanStepView, ProcessOutcomeView, RunErrorView,
};
use crate::select::{
    is_requested, is_unknown, known_id, none_has_clean, selection, unknown_ids, unknown_message,
};
use crate::text::{joined, lemma_occurs_in_middle, lemma_part_occurs_in_joined, occurs_in};

verus! {

/// An empty request selects every component, in the order of the manifest.
pub proof fn law_empty_request_selects_all(all: Seq<ComponentView>)
    ensures
        selection(all, Seq::empty()) == all,
        unknown_ids(all, Seq::empty()).len() == 0,
{
    reveal(Seq::filter);
}

/// The unknown ids of a request are exactly the requested ids that no
/// component has: none is left out and none is added.
pub proof fn law_unknown_ids_are_exact(
    all: Seq<ComponentView>,
    requested: Seq<Seq<char>>,
    id: Seq<char>,
)
    ensures
        unknown_ids(all, requested).contains(id) <==> requested.contains(id) && !known_id(all, id),
{
    let unknown = unknown_ids(all, requested);
    let test = is_unknown(all);
    if unknown.contains(id) {
        let k = choose|k: int| 0 <= k < unknown.len() && unknown[k] == id;
        requested.lemma_filter_pred(test, k);
        requested.lemma_filter_contains_rev(test, id);
    }
    if requested.contains(id) && !known_id(all, id) {
        let k = choose|k: int| 0 <= k < requested.len() && requested[k] == id;
        assert(test(requested[k]));
        requested.lemma_filter_contains(test, k);
    }
}

/// A request that names an id which no component has is refused, and the
/// diagnostic names that id: every unknown id, not only the first.
pub proof fn law_unknown_id_is_reported(
    all: Seq<ComponentView>,
    requested: Seq<Seq<char>>,
    id: Seq<char>,
)
    requires
        requested.contains(id),
        !known_id(all, id),
    ensures
        unknown_ids(all, requested).len() > 0,
        unknown_ids(all, requested).contains(id),
        occurs_in(id, unknown_message(unknown_ids(all, requested))),
{
    let unknown = unknown_ids(all, requested);
    law_unknown_ids_are_exact(all, requested, id);
    let k = choose|k: int| 0 <= k < unknown.len() && unknown[k] == id;
    lemma_part_occurs_in_joined(unknown, ", "@, k);
    lemma_occurs_in_middle(id, "Unknown component(s) "@, joined(unknown, ", "@), Seq::empty());
    assert(unknown_message(unknown) =~= "Unknown component(s) "@ + joined(unknown, ", "@)
        + Seq::<char>::empty());
}

/// Selection goes by which ids a request names, not by their order in the
/// request nor by how often it names them.
pub proof fn law_selection_ignores_request_order(
    all: Seq<ComponentView>,
    first: Seq<Seq<char>>,
    second: Seq<Seq<char>>,
)
    requires
        first.len() > 0,
        second.len() > 0,
        forall|id: Seq<char>| first.contains(id) <==> second.contains(id),
    ensures
        selection(all, first) == selection(all, second),
{
    assert(is_requested(first) =~= is_requested(second));
}

/// A component is selected by a request that is not empty exactly when the
/// manifest holds it and the request names its id.
pub proof fn law_selected_are_the_requested(
    all: Seq<ComponentView>,
    requested: Seq<Seq<char>>,
    component: ComponentView,
)
    requires
        requested.len() > 0,
    ensures
        selection(all, requested).contains(component) <==> all.contains(component)
            && requested.contains(component.id),
{
    let test = is_requested(requested);
    let chosen = selection(all, requested);
    if chosen.contains(component) {
        let k = choose|k: int| 0 <= k < chosen.len() && chosen[k] == component;
        all.lemma_filter_pred(test, k);
        all.lemma_filter_contains_rev(test, component);
    }
    if all.contains(component) && requested.contains(component.id) {
        let k = choose|k: int| 0 <= k < all.len() && all[k] == component;
        assert(test(all[k]));
        all.lemma_filter_contains(test, k);
    }
}

/// Without a configured working directory a command runs in the application
/// root itself.
pub proof fn law_no_workdir_is_app_root(app_dir: Seq<char>)
    ensures
        resolved_workdir(app_dir, None) == Some(app_dir),
{
}

/// A configured working directory without a root is joined to the
/// application root.
pub proof fn law_relative_workdir_is_joined(app_dir: Seq<char>, workdir: Seq<char>)
    requires
        !path_has_root(workdir),
    ensures
        resolved_workdir(app_dir, Some(workdir)) == Some(path_join(app_dir, workdir)),
{
}

/// A clean command whose working directory has a root is refused as it is
/// reached: the run fails there, with the error that names the component and
/// the directory, and hands out no command.
pub proof fn law_rooted_workdir_is_refused(run: CleanRunView, workdir: Seq<char>)
    requires
        run.cursor < run.components.len(),
        run.components[run.cursor as int].clean matches Some(clean) && clean.workdir == Some(
            workdir,
        ),
        path_has_root(workdir),
    ensures
        resolved_workdir(run.app_dir, Some(workdir)) is None,
        advance_of(run) == ProgressView::Failed(
            RunErrorView::InvalidWorkdir {
                component_id: run.components[run.cursor as int].id,
                command: run.components[run.cursor as int].clean->Some_0.command,
                workdir: workdir,
            },
        ),
        run_error_message(advance_of(run)->Failed_0) == invalid_workdir_message(),
{
}

/// The command that a run hands out belongs to the first component, at or
/// behind the cursor, that defines a clean command: the run stands at that
/// component, every component it passed has none, and the command is the
/// clean command of that component in its resolved directory. So a run goes
/// by the order of the manifest, and never hands out a command whose
/// configured working directory has a root.
pub proof fn law_next_command_is_first_in_order(run: CleanRunView)
    requires
        advance_of(run) is Spawn,
    ensures
        ({
            let pending = advance_of(run)->Spawn_0;
            let at = pending.run.cursor as int;
            &&& pending.run == at_cursor(run, pending.run.cursor)
            &&& run.cursor <= at < run.components.len()
            &&& forall|k: int| run.cursor <= k < at ==> (#[trigger] run.components[k]).clean is None
            &&& run.components[at].clean matches Some(clean) && {
                &&& pending.command.component_id == run.components[at].id
                &&& pending.command.command == clean.command
                &&& Some(pending.command.workdir) == resolved_workdir(run.app_dir, clean.workdir)
                &&& clean.workdir matches Some(w) ==> !path_has_root(w)
            }
        }),
    decreases run.components.len() - run.cursor,
{
    if run.cursor < run.components.len() {
        match clean_step(run.components[run.cursor as int], run.app_dir) {
            CleanStepView::Skip => {
                law_next_command_is_first_in_order(at_cursor(run, run.cursor + 1));
            },
            _ => {},
        }
    }
}

/// A run is finished without a command exactly when no component at or
/// behind the cursor defines a clean command.
pub proof fn law_finished_when_nothing_left(run: CleanRunView)
    ensures
        advance_of(run) is Finished <==> (forall|k: int|
            run.cursor <= k < run.components.len() ==> (#[trigger] run.components[k]).clean
                is None),
    decreases run.components.len() - run.cursor,
{
    if run.cursor < run.components.len() {
        law_finished_when_nothing_left(at_cursor(run, run.cursor + 1));
        if advance_of(run) is Finished {
            assert forall|k: int| run.cursor <= k < run.components.len() implies (
            #[trigger] run.components[k]).clean is None by {
                if k > run.cursor {
                    assert(at_cursor(run, run.cursor + 1).components[k].clean is None);
                }
            }
        }
    }
}

/// Where no selected component defines a clean command there is nothing to
/// do: the plan holds no run, and a run over such components would finish
/// without handing out a command.
pub proof fn law_nothing_to_clean_starts_nothing(chosen: Seq<ComponentView>, app_dir: Seq<char>)
    requires
        none_has_clean(chosen),
    ensures
        plan_of(chosen, app_dir) == PlanView::NothingToClean,
        advance_of(CleanRunView { components: chosen, app_dir: app_dir, cursor: 0 })
            == ProgressView::Finished,
{
    law_finished_when_nothing_left(CleanRunView { components: chosen, app_dir: app_dir, cursor: 0 });
}

/// The first failure ends the run: a command that does not end with exit
/// status 0 gives the error of its component and no run to go on with, and
/// one that does lets the run go on behind its component. A process that
/// could not be started and one that ran and failed give different errors.
pub proof fn law_first_failure_ends_run(pending: PendingCommandView, outcome: ProcessOutcomeView)
    ensures
        succeeded(outcome) ==> complete_of(pending, outcome) == Ok::<CleanRunView, RunErrorView>(
            at_cursor(pending.run, pending.run.cursor + 1),
        ),
        !succeeded(outcome) ==> complete_of(pending, outcome) is Err,
        match outcome {
            ProcessOutcomeView::SpawnFailed { .. } => (complete_of(pending, outcome) matches Err(
                e,
            ) && e is Spawn),
            ProcessOutcomeView::WaitFailed { .. } => (complete_of(pending, outcome) matches Err(e)
                && e is Wait),
            ProcessOutcomeView::Terminated(_) => (complete_of(pending, outcome) matches Err(e)
                ==> e is Execution),
        },
{
}

} // verus!
