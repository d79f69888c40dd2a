//! Running a sequence of steps: one at a time, in order, until the last has
//! been performed or one has failed.

use crate::sx::host::{steps_view, Action, Event, EventView, Step, StepView};
use vstd::prelude::*;

verus! {

/// The state of a run, with its bytes as values.
pub struct SequenceView<E> {
    /// The steps to take, in order.
    pub script: Seq<StepView<E>>,
    /// The responses to the steps performed so far, one each.
    pub responses: Seq<Seq<u8>>,
    /// The error of the step that failed, if one did.
    pub failure: Option<E>,
}

impl<E> SequenceView<E> {
    /// The state before the first step.
    pub open spec fn start(script: Seq<StepView<E>>) -> Self {
        SequenceView { script, responses: Seq::empty(), failure: None }
    }

    /// The step that the host is to perform now: the first one that has not
    /// been performed, unless a step has failed.
    pub open spec fn pending(self) -> Option<StepView<E>> {
        if self.failure is None && self.responses.len() < self.script.len() {
            Some(self.script[self.responses.len() as int])
        } else {
            None
        }
    }

    /// How the run ended: `None` while a step is pending, the error of the
    /// step that failed, or success once every step has been performed.
    pub open spec fn result(self) -> Option<Result<(), E>> {
        match self.failure {
            Some(error) => Some(Err(error)),
            None => if self.responses.len() < self.script.len() {
                None
            } else {
                Some(Ok(()))
            },
        }
    }

    /// The state after the host has reported `event` of the pending step.
    /// Where no step is pending, a report changes nothing.
    pub open spec fn on(self, event: EventView) -> Self {
        match self.pending() {
            Some(step) => match event {
                EventView::Completed(bytes) => SequenceView {
                    responses: self.responses.push(bytes),
                    ..self
                },
                EventView::Failed => SequenceView { failure: Some(step.error), ..self },
            },
            None => self,
        }
    }

    /// The state after the host has reported `events`, one after another.
    pub open spec fn after(self, events: Seq<EventView>) -> Self
        decreases events.len(),
    {
        if events.len() == 0 {
            self
        } else {
            self.after(events.drop_last()).on(events.last())
        }
    }
}

/// The reports of steps performed with the given responses.
pub open spec fn completions(responses: Seq<Seq<u8>>) -> Seq<EventView> {
    responses.map_values(|bytes: Seq<u8>| EventView::Completed(bytes))
}

/// The byte strings of `responses` as values.
pub open spec fn responses_view(responses: Seq<Vec<u8>>) -> Seq<Seq<u8>> {
    responses.map_values(|bytes: Vec<u8>| bytes@)
}

/// A run of a sequence of steps.
///
/// The host asks for the pending action with [`Sequence::next`], performs
/// it, and reports with [`Sequence::handle`], until no action is pending.
#[derive(Debug)]
pub struct Sequence<E> {
    steps: Vec<Step<E>>,
    responses: Vec<Vec<u8>>,
    failure: Option<E>,
}

impl<E> View for Sequence<E> {
    type V = SequenceView<E>;

    closed spec fn view(&self) -> SequenceView<E> {
        SequenceView {
            script: steps_view(self.steps@),
            responses: responses_view(self.responses@),
            failure: self.failure,
        }
    }
}

impl<E: Copy> Sequence<E> {
    /// A run of `steps`, before the first.
    pub fn new(steps: Vec<Step<E>>) -> (run: Self)
        ensures
            run@ == SequenceView::start(steps_view(steps@)),
    {
        let run = Sequence { steps, responses: Vec::new(), failure: None };
        assert(responses_view(run.responses@) =~= Seq::empty());
        run
    }

    /// The action to perform now, if any.
    pub fn next(&self) -> (action: Option<&Action>)
        ensures
            match self@.pending() {
                Some(step) => action matches Some(a) && a@ == step.action,
                None => action is None,
            },
    {
        if self.failure.is_none() && self.responses.len() < self.steps.len() {
            Some(&self.steps[self.responses.len()].action)
        } else {
            None
        }
    }

    /// Takes the host's report of the pending action. Reports that arrive
    /// when nothing is pending are dropped.
    pub fn handle(&mut self, event: Event)
        ensures
            final(self)@ == old(self)@.on(event@),
    {
        if self.failure.is_none() && self.responses.len() < self.steps.len() {
            match event {
                Event::Completed(bytes) => {
                    self.responses.push(bytes);
                    assert(responses_view(self.responses@) =~= responses_view(
                        old(self).responses@,
                    ).push(bytes@));
                },
                Event::Failed => {
                    self.failure = Some(self.steps[self.responses.len()].error);
                },
            }
        }
    }

    /// How the run ended, or `None` while an action is pending.
    pub fn result(&self) -> (r: Option<Result<(), E>>)
        ensures
            r == self@.result(),
    {
        match self.failure {
            Some(error) => Some(Err(error)),
            None => if self.responses.len() < self.steps.len() {
                None
            } else {
                Some(Ok(()))
            },
        }
    }

    /// The responses to the steps performed, one each, in order.
    pub fn responses(&self) -> (r: &Vec<Vec<u8>>)
        ensures
            responses_view(r@) == self@.responses,
    {
        &self.responses
    }

    /// Ends the run and hands out the responses to the steps performed.
    pub fn into_responses(self) -> (r: Vec<Vec<u8>>)
        ensures
            responses_view(r@) == self@.responses,
    {
        self.responses
    }
}

/// Reports that arrive once no step is pending change nothing.
pub proof fn lemma_ended_run_stays<E>(state: SequenceView<E>, events: Seq<EventView>)
    requires
        state.pending() is None,
    ensures
        state.after(events) == state,
    decreases events.len(),
{
    if events.len() > 0 {
        lemma_ended_run_stays(state, events.drop_last());
    }
}

/// Reporting two series of events one after the other is reporting them as
/// one series.
pub proof fn lemma_after_concat<E>(
    state: SequenceView<E>,
    first: Seq<EventView>,
    second: Seq<EventView>,
)
    ensures
        state.after(first + second) == state.after(first).after(second),
    decreases second.len(),
{
    if second.len() == 0 {
        assert(first + second =~= first);
    } else {
        lemma_after_concat(state, first, second.drop_last());
        assert((first + second).drop_last() =~= first + second.drop_last());
        assert((first + second).last() == second.last());
    }
}

/// While the host reports success, the steps come up in the order of the
/// script: after as many successes as `responses` holds, the responses are
/// on record, nothing has failed, and the step pending is the next one of
/// the script; once the last step has been performed, the run has
/// succeeded.
pub proof fn lemma_steps_in_order<E>(script: Seq<StepView<E>>, responses: Seq<Seq<u8>>)
    requires
        responses.len() <= script.len(),
    ensures
        ({
            let state = SequenceView::start(script).after(completions(responses));
            &&& state == (SequenceView { script, responses, failure: None })
            &&& responses.len() < script.len() ==> state.pending() == Some(
                script[responses.len() as int],
            ) && state.result() is None
            &&& responses.len() == script.len() ==> state.pending() is None && state.result()
                == Some(Ok::<(), E>(()))
        }),
    decreases responses.len(),
{
    let events = completions(responses);
    if responses.len() == 0 {
        assert(responses =~= Seq::empty());
    } else {
        lemma_steps_in_order(script, responses.drop_last());
        assert(events.drop_last() =~= completions(responses.drop_last()));
        assert(events.last() == EventView::Completed(responses.last()));
        assert(responses.drop_last().push(responses.last()) =~= responses);
    }
}

/// A failure ends the run at the step that failed. If the host reports
/// success for the steps before step `i` and failure for step `i`, the run
/// ends with the error of step `i`, with the responses of the steps before
/// it, and no step is pending from then on, whatever the host reports
/// `later`.
pub proof fn lemma_failure_aborts<E>(
    script: Seq<StepView<E>>,
    responses: Seq<Seq<u8>>,
    later: Seq<EventView>,
)
    requires
        responses.len() < script.len(),
    ensures
        ({
            let i = responses.len() as int;
            let state = SequenceView::start(script).after(
                completions(responses) + seq![EventView::Failed] + later,
            );
            &&& state.result() == Some(Err::<(), E>(script[i].error))
            &&& state.pending() is None
            &&& state.responses == responses
            &&& state.script == script
        }),
{
    let start = SequenceView::start(script);
    let before = start.after(completions(responses));
    lemma_steps_in_order(script, responses);
    let failed = before.on(EventView::Failed);
    assert(seq![EventView::Failed].drop_last() =~= Seq::<EventView>::empty());
    assert(before.after(seq![EventView::Failed]) == failed) by {
        assert(before.after(Seq::<EventView>::empty()) == before);
    }
    lemma_after_concat(start, completions(responses), seq![EventView::Failed]);
    lemma_after_concat(start, completions(responses) + seq![EventView::Failed], later);
    lemma_ended_run_stays(failed, later);
}

} // verus!
