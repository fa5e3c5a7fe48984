//! Constructing a capability: load the module, resolve the entry point by
//! name, invoke it. A configuration, where one is handed to the entry point,
//! is read before any module is touched.

use crate::action::Action;
use crate::action::ActionView;
use crate::action::CompletionView;
use crate::action::EventView;
use crate::config::ServiceConfiguration;
use crate::config::ServiceConfigurationView;
use crate::error::ErrorKind;
use crate::pipeline::lemma_fail_fast;
use crate::pipeline::views;
use crate::pipeline::Progress;
use crate::service::EntryPoint;
use vstd::prelude::*;

verus! {

/// The steps that construct a capability from the module at `core` through
/// `entry`.
pub open spec fn construction(core: Seq<char>, entry: EntryPoint) -> Seq<ActionView> {
    seq![
        ActionView::LoadModule { path: core },
        ActionView::Resolve { path: core, entry },
        ActionView::Invoke { entry },
    ]
}

/// The step that makes a configuration record ready, where there is one.
pub open spec fn configuration_steps(config: Option<ServiceConfigurationView>) -> Seq<ActionView> {
    match config {
        Some(config) => seq![ActionView::ReadConfig { config }],
        None => seq![],
    }
}

/// The value of an optional configuration.
pub open spec fn configuration_view(config: Option<ServiceConfiguration>) -> Option<
    ServiceConfigurationView,
> {
    match config {
        Some(config) => Some(config@),
        None => None,
    }
}

/// Appending one action to a script appends its value to the script's
/// values.
pub proof fn lemma_views_push(script: Seq<Action>, action: Action)
    ensures
        views(script.push(action)) == views(script).push(action@),
{
    assert(views(script.push(action)) =~= views(script).push(action@));
}

/// Appends the steps of [`construction`] to `script`.
pub fn push_construction(script: &mut Vec<Action>, core: &str, entry: EntryPoint)
    ensures
        views(final(script)@) == views(old(script)@) + construction(core@, entry),
{
    let ghost before = script@;
    let load = Action::LoadModule { path: core.to_owned() };
    let resolve = Action::Resolve { path: core.to_owned(), entry };
    let invoke = Action::Invoke { entry };
    proof {
        lemma_views_push(before, load);
        lemma_views_push(before.push(load), resolve);
        lemma_views_push(before.push(load).push(resolve), invoke);
    }
    script.push(load);
    script.push(resolve);
    script.push(invoke);
    assert(views(script@) =~= views(before) + construction(core@, entry));
}

/// Appends the steps of [`configuration_steps`] to `script`.
pub fn push_configuration(script: &mut Vec<Action>, config: &Option<ServiceConfiguration>)
    ensures
        views(final(script)@) == views(old(script)@) + configuration_steps(
            configuration_view(*config),
        ),
{
    let ghost before = script@;
    match config {
        Some(config) => {
            let read = Action::ReadConfig { config: config.duplicate() };
            proof {
                lemma_views_push(before, read);
            }
            script.push(read);
            assert(views(script@) =~= views(before) + configuration_steps(Some(config@)));
        },
        None => {
            assert(views(script@) =~= views(before) + configuration_steps(None));
        },
    }
}

/// An absent entry point is never invoked. Where the pipeline is running
/// when the outcome of a resolution arrives and that outcome is a failure,
/// the pipeline ends with `SymbolNotFound` and the collaborator's words, and
/// asks for nothing more: neither the invocation that follows in the script
/// nor anything after it.
pub proof fn lemma_missing_symbol_skips_invocation(
    script: Seq<ActionView>,
    events: Seq<EventView>,
    at: int,
    later: int,
)
    requires
        0 <= at < later <= events.len(),
        Progress::start(script).after(events.take(at)).ending is None,
        script[at] is Resolve,
        events[at] is Failed,
    ensures
        ({
            let reached = Progress::start(script).after(events.take(later));
            &&& reached.cursor == at
            &&& reached.pending() is Finish
            &&& reached.ending matches Some(CompletionView::Fatal(error))
            &&& error.kind == ErrorKind::SymbolNotFound
            &&& error.detail == events[at]->Failed_0
        }),
{
    lemma_fail_fast(script, events, at, later);
}

/// A module that cannot be loaded is never searched. Where the outcome of
/// loading a module is a failure, the pipeline ends with `Load` and asks for
/// nothing more.
pub proof fn lemma_failed_load_stops_pipeline(
    script: Seq<ActionView>,
    events: Seq<EventView>,
    at: int,
    later: int,
)
    requires
        0 <= at < later <= events.len(),
        Progress::start(script).after(events.take(at)).ending is None,
        script[at] is LoadModule,
        events[at] is Failed,
    ensures
        ({
            let reached = Progress::start(script).after(events.take(later));
            &&& reached.cursor == at
            &&& reached.pending() is Finish
            &&& reached.ending matches Some(CompletionView::Fatal(error))
            &&& error.kind == ErrorKind::Load
            &&& error.detail == events[at]->Failed_0
        }),
{
    lemma_fail_fast(script, events, at, later);
}

} // verus!
