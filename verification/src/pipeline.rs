//! A pipeline walks a fixed script of actions, one at a time and in order,
//! and stops at the first action that is not fulfilled.

use crate::action::Action;
use crate::action::ActionView;
use crate::action::Completion;
use crate::action::CompletionView;
use crate::action::Event;
use crate::action::EventView;
use crate::action::Step;
use crate::action::StepView;
use crate::error::ErrorKind;
use crate::error::LaunchError;
use crate::error::LaunchErrorView;
use vstd::prelude::*;

verus! {

/// How far a pipeline has come: its script, the number of actions that were
/// fulfilled, and its ending once it has one.
pub struct Progress {
    pub script: Seq<ActionView>,
    pub cursor: nat,
    pub ending: Option<CompletionView>,
}

/// The ending that `event` gives a pipeline whose pending action is
/// `action`, or `None` where the pipeline goes on.
pub open spec fn verdict(action: ActionView, event: EventView, last: bool) -> Option<
    CompletionView,
> {
    match event {
        EventView::Failed(reason) => Some(
            CompletionView::Fatal(LaunchErrorView { kind: action.failure_kind(), detail: reason }),
        ),
        EventView::Exited(status) => if action.yields_status() {
            Some(CompletionView::Exited(status))
        } else {
            Some(CompletionView::Fatal(LaunchErrorView { kind: ErrorKind::Protocol, detail: seq![] }))
        },
        EventView::Done => if action.yields_status() {
            Some(CompletionView::Fatal(LaunchErrorView { kind: ErrorKind::Protocol, detail: seq![] }))
        } else if last {
            Some(CompletionView::Success)
        } else {
            None
        },
    }
}

impl Progress {
    /// The cursor stays within the script, and a pipeline without an ending
    /// has an action left.
    pub open spec fn wf(self) -> bool {
        &&& self.cursor <= self.script.len()
        &&& self.ending is None ==> self.cursor < self.script.len()
    }

    /// A pipeline that has done nothing yet.
    pub open spec fn start(script: Seq<ActionView>) -> Progress {
        Progress {
            script,
            cursor: 0,
            ending: if script.len() == 0 {
                Some(CompletionView::Success)
            } else {
                None
            },
        }
    }

    /// What the shell is to do next.
    pub open spec fn pending(self) -> StepView {
        match self.ending {
            Some(completion) => StepView::Finish(completion),
            None => StepView::Perform(self.script[self.cursor as int]),
        }
    }

    /// The pipeline after the shell reported `event` for the pending action.
    /// An ended pipeline stays as it is.
    pub open spec fn step(self, event: EventView) -> Progress {
        match self.ending {
            Some(_) => self,
            None => {
                let action = self.script[self.cursor as int];
                let ending = verdict(action, event, self.cursor + 1 == self.script.len());
                Progress {
                    script: self.script,
                    cursor: if event.fulfils(action) {
                        self.cursor + 1
                    } else {
                        self.cursor
                    },
                    ending,
                }
            },
        }
    }

    /// The pipeline after the shell reported `events`, oldest first.
    pub open spec fn after(self, events: Seq<EventView>) -> Progress
        decreases events.len(),
    {
        if events.len() == 0 {
            self
        } else {
            self.after(events.drop_last()).step(events.last())
        }
    }

    /// Whether the first `count` events each fulfil the action at their
    /// place in the script, none of them ending the pipeline.
    pub open spec fn fulfilled(self, events: Seq<EventView>, count: int) -> bool {
        forall|j: int|
            0 <= j < count ==> (#[trigger] events[j]).fulfils(self.script[j])
                && !self.script[j].yields_status()
    }
}

/// One step keeps a pipeline well formed and its script unchanged.
pub proof fn lemma_step_keeps_script(progress: Progress, event: EventView)
    requires
        progress.wf(),
    ensures
        progress.step(event).wf(),
        progress.step(event).script == progress.script,
{
}

/// An ended pipeline ignores whatever it is told: nothing is attempted
/// after the ending.
pub proof fn lemma_ending_is_final(progress: Progress, events: Seq<EventView>)
    requires
        progress.ending is Some,
    ensures
        progress.after(events) == progress,
    decreases events.len(),
{
    if events.len() > 0 {
        lemma_ending_is_final(progress, events.drop_last());
    }
}

/// Feeding `events` in two parts is feeding them all.
pub proof fn lemma_after_concat(progress: Progress, first: Seq<EventView>, second: Seq<EventView>)
    ensures
        progress.after(first + second) == progress.after(first).after(second),
    decreases second.len(),
{
    if second.len() == 0 {
        assert(first + second =~= first);
    } else {
        lemma_after_concat(progress, first, second.drop_last());
        assert((first + second).drop_last() =~= first + second.drop_last());
        assert((first + second).last() == second.last());
    }
}

/// The actions come in script order. After `count` events a pipeline that
/// has not ended has had exactly the first `count` actions of its script
/// fulfilled, and asks for the next one.
pub proof fn lemma_steps_follow_script(script: Seq<ActionView>, events: Seq<EventView>, count: int)
    requires
        0 <= count <= events.len(),
    ensures
        ({
            let reached = Progress::start(script).after(events.take(count));
            &&& reached.wf()
            &&& reached.script == script
            &&& reached.ending is None ==> {
                &&& reached.cursor == count
                &&& reached.pending() == StepView::Perform(script[count])
                &&& Progress::start(script).fulfilled(events, count)
            }
        }),
    decreases count,
{
    let start = Progress::start(script);
    if count == 0 {
        assert(events.take(0) =~= Seq::<EventView>::empty());
    } else {
        lemma_steps_follow_script(script, events, count - 1);
        let before = start.after(events.take(count - 1));
        assert(events.take(count).drop_last() =~= events.take(count - 1));
        assert(events.take(count).last() == events[count - 1]);
        assert(start.after(events.take(count)) == before.step(events[count - 1]));
    }
}

/// Fail fast. Where the pipeline is still running when event `at` arrives
/// and that event does not fulfil the pending action, the pipeline ends
/// there with a fatal error that names the failed step, and it never asks
/// for another action, whatever it is told later.
pub proof fn lemma_fail_fast(script: Seq<ActionView>, events: Seq<EventView>, at: int, later: int)
    requires
        0 <= at < later <= events.len(),
        Progress::start(script).after(events.take(at)).ending is None,
        !events[at].fulfils(script[at]),
    ensures
        ({
            let reached = Progress::start(script).after(events.take(later));
            &&& reached.cursor == at
            &&& reached.ending == verdict(script[at], events[at], false)
            &&& reached.ending matches Some(CompletionView::Fatal(error)) && (events[at] matches EventView::Failed(
                reason,
            ) ==> error.kind == script[at].failure_kind() && error.detail == reason)
            &&& reached.pending() is Finish
        }),
{
    let start = Progress::start(script);
    lemma_steps_follow_script(script, events, at);
    let before = start.after(events.take(at));
    assert(events.take(at + 1).drop_last() =~= events.take(at));
    assert(events.take(at + 1).last() == events[at]);
    let failed = before.step(events[at]);
    assert(start.after(events.take(at + 1)) == failed);
    assert(events.take(later) =~= events.take(at + 1) + events.subrange(at + 1, later));
    lemma_after_concat(start, events.take(at + 1), events.subrange(at + 1, later));
    lemma_ending_is_final(failed, events.subrange(at + 1, later));
}

/// Where every action of a script is fulfilled in turn and none of them
/// yields a status, the pipeline ends in success exactly when the last
/// action is fulfilled.
pub proof fn lemma_fulfilled_script_succeeds(script: Seq<ActionView>, events: Seq<EventView>)
    requires
        events.len() >= script.len(),
        Progress::start(script).fulfilled(events, script.len() as int),
    ensures
        Progress::start(script).after(events).ending == Some(CompletionView::Success),
        forall|count: int|
            0 <= count < script.len() ==> (#[trigger] Progress::start(script).after(
                events.take(count),
            )).ending is None,
{
    let start = Progress::start(script);
    let n = script.len() as int;
    assert forall|count: int| 0 <= count < n implies (#[trigger] start.after(
        events.take(count),
    )).ending is None by {
        lemma_running_while_fulfilled(script, events, count);
    }
    if n == 0 {
        lemma_ending_is_final(start, events);
    } else {
        lemma_running_while_fulfilled(script, events, n - 1);
        let before = start.after(events.take(n - 1));
        assert(events.take(n).drop_last() =~= events.take(n - 1));
        assert(events.take(n).last() == events[n - 1]);
        let ended = before.step(events[n - 1]);
        assert(start.after(events.take(n)) == ended);
        assert(events =~= events.take(n) + events.subrange(n, events.len() as int));
        lemma_after_concat(start, events.take(n), events.subrange(n, events.len() as int));
        lemma_ending_is_final(ended, events.subrange(n, events.len() as int));
    }
}

/// A pipeline is still running after `count` events that each fulfilled
/// their action without ending it, as long as an action is left.
pub proof fn lemma_running_while_fulfilled(
    script: Seq<ActionView>,
    events: Seq<EventView>,
    count: int,
)
    requires
        0 <= count < script.len(),
        count <= events.len(),
        Progress::start(script).fulfilled(events, count),
    ensures
        Progress::start(script).after(events.take(count)).ending is None,
        Progress::start(script).after(events.take(count)).cursor == count,
        Progress::start(script).after(events.take(count)).script == script,
    decreases count,
{
    let start = Progress::start(script);
    if count == 0 {
        assert(events.take(0) =~= Seq::<EventView>::empty());
    } else {
        lemma_running_while_fulfilled(script, events, count - 1);
        let before = start.after(events.take(count - 1));
        assert(events.take(count).drop_last() =~= events.take(count - 1));
        assert(events.take(count).last() == events[count - 1]);
        assert(start.after(events.take(count)) == before.step(events[count - 1]));
        assert(events[count - 1].fulfils(start.script[count - 1]));
    }
}

/// The program's status ends the pipeline. Where the action at `at` yields
/// a status, every action before it was fulfilled, and the event at `at`
/// reports that the program exited, the pipeline ends with that status; a
/// failure there ends it with a fatal error instead.
pub proof fn lemma_status_ends_pipeline(script: Seq<ActionView>, events: Seq<EventView>, at: int)
    requires
        0 <= at < script.len(),
        at < events.len(),
        Progress::start(script).fulfilled(events, at),
        script[at].yields_status(),
    ensures
        ({
            let ended = Progress::start(script).after(events).ending;
            match events[at] {
                EventView::Exited(status) => ended == Some(CompletionView::Exited(status)),
                EventView::Failed(reason) => ended == Some(
                    CompletionView::Fatal(
                        LaunchErrorView { kind: script[at].failure_kind(), detail: reason },
                    ),
                ),
                EventView::Done => ended == Some(
                    CompletionView::Fatal(
                        LaunchErrorView { kind: ErrorKind::Protocol, detail: seq![] },
                    ),
                ),
            }
        }),
{
    let start = Progress::start(script);
    lemma_running_while_fulfilled(script, events, at);
    let before = start.after(events.take(at));
    assert(events.take(at + 1).drop_last() =~= events.take(at));
    assert(events.take(at + 1).last() == events[at]);
    let ended = before.step(events[at]);
    assert(start.after(events.take(at + 1)) == ended);
    assert(events =~= events.take(at + 1) + events.subrange(at + 1, events.len() as int));
    lemma_after_concat(start, events.take(at + 1), events.subrange(at + 1, events.len() as int));
    lemma_ending_is_final(ended, events.subrange(at + 1, events.len() as int));
}

/// The values of the actions of a script.
pub open spec fn views(script: Seq<Action>) -> Seq<ActionView> {
    script.map_values(|action: Action| action@)
}

/// A script being walked.
pub struct Pipeline {
    script: Vec<Action>,
    cursor: usize,
    ending: Option<Completion>,
}

impl View for Pipeline {
    type V = Progress;

    closed spec fn view(&self) -> Progress {
        Progress {
            script: views(self.script@),
            cursor: self.cursor as nat,
            ending: match self.ending {
                Some(completion) => Some(completion@),
                None => None,
            },
        }
    }
}

impl Pipeline {
    #[verifier::type_invariant]
    spec fn well_formed(&self) -> bool {
        self@.wf()
    }

    /// A pipeline at the start of `script`.
    pub fn new(script: Vec<Action>) -> (pipeline: Self)
        ensures
            pipeline@ == Progress::start(views(script@)),
    {
        let ending = if script.len() == 0 {
            Some(Completion::Success)
        } else {
            None
        };
        Pipeline { script, cursor: 0, ending }
    }

    /// What the shell is to do next.
    pub fn pending(&self) -> (step: Step)
        ensures
            self@.wf(),
            step@ == self@.pending(),
    {
        proof {
            use_type_invariant(self);
        }
        match &self.ending {
            Some(completion) => Step::Finish(completion.duplicate()),
            None => Step::Perform(self.script[self.cursor].duplicate()),
        }
    }

    /// Whether the pipeline has ended.
    pub fn finished(&self) -> (yes: bool)
        ensures
            yes == (self@.ending is Some),
    {
        self.ending.is_some()
    }

    /// Takes the outcome of the pending action and says what comes next.
    pub fn step(&mut self, event: Event) -> (next: Step)
        ensures
            final(self)@ == old(self)@.step(event@),
            final(self)@.wf(),
            next@ == final(self)@.pending(),
    {
        proof {
            use_type_invariant(&*self);
        }
        if self.ending.is_none() {
            assert(self.cursor < self.script.len()) by {
                assert(self@.ending is None);
            }
            let last = self.cursor + 1 == self.script.len();
            let action = &self.script[self.cursor];
            let status = action.yields_status();
            match event {
                Event::Failed(reason) => {
                    self.ending = Some(
                        Completion::Fatal(LaunchError::new(action.failure_kind(), reason)),
                    );
                },
                Event::Exited(code) => {
                    if status {
                        self.ending = Some(Completion::Exited(code));
                        self.cursor = self.cursor + 1;
                    } else {
                        self.ending = Some(
                            Completion::Fatal(LaunchError::new(ErrorKind::Protocol, String::new())),
                        );
                    }
                },
                Event::Done => {
                    if status {
                        self.ending = Some(
                            Completion::Fatal(LaunchError::new(ErrorKind::Protocol, String::new())),
                        );
                    } else if last {
                        self.ending = Some(Completion::Success);
                        self.cursor = self.cursor + 1;
                    } else {
                        self.cursor = self.cursor + 1;
                    }
                },
            }
        }
        self.pending()
    }
}

} // verus!
