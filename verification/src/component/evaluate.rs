//! The evaluator component: it takes queries and event batches, lets a query
//! supersede whatever runs, and keeps the batches that arrive while work is
//! in flight until the component is at rest.

use crate::component::loading::{next_version, spinner_rows};
use crate::pane::frame_pane;
use promkit::pane::Pane;
use crate::component::spinner::{loading_frame, loading_frames, next_frame_index};
use std::collections::VecDeque;
use vstd::prelude::*;

verus! {

/// What an evaluator is doing.
#[derive(Debug, Clone, Copy, PartialEq, Eq, Structural)]
pub enum State {
    /// Nothing is in flight.
    Idle,
    /// A query is being processed.
    ProcessQuery,
    /// A batch of events is being processed.
    ProcessEvents,
}

/// The state of an evaluator, as a mathematical value.
pub struct EvaluatorModel<B> {
    /// What the evaluator is doing.
    pub state: State,
    /// The version of the work launched last.
    pub version: u64,
    /// Index of the frame that the spinner shows next.
    pub frame_index: nat,
    /// The batches that wait, oldest first.
    pub pending: Seq<B>,
}

/// What the runtime does when a query arrives.
#[derive(Debug, Clone, Copy, PartialEq, Eq, Structural)]
pub struct QueryStart {
    /// The version of the work to abort, if work was in flight.
    pub abort: Option<u64>,
    /// The version under which the query is launched.
    pub launch: u64,
}

impl<B> EvaluatorModel<B> {
    /// An evaluator that has launched nothing.
    pub open spec fn idle() -> EvaluatorModel<B> {
        EvaluatorModel { state: State::Idle, version: 0, frame_index: 0, pending: Seq::empty() }
    }

    /// What the runtime does when a query arrives: work in flight is
    /// aborted, and the query is launched under the next version.
    pub open spec fn query_start(self) -> QueryStart {
        QueryStart {
            abort: if self.state != State::Idle {
                Some(self.version)
            } else {
                None
            },
            launch: next_version(self.version),
        }
    }

    /// The state after a query has arrived, whatever the evaluator was
    /// doing: the query is in flight and no batch waits any more.
    pub open spec fn on_query(self) -> EvaluatorModel<B> {
        EvaluatorModel {
            state: State::ProcessQuery,
            version: next_version(self.version),
            pending: Seq::empty(),
            ..self
        }
    }

    /// The batch that is launched when `batch` arrives, with its version:
    /// `batch` itself at rest, none while work is in flight.
    pub open spec fn events_launch(self, batch: B) -> Option<(u64, B)> {
        if self.state == State::Idle {
            Some((next_version(self.version), batch))
        } else {
            None
        }
    }

    /// The state after `batch` has arrived: at rest it is in flight, while
    /// work is in flight it waits behind the batches that wait already.
    pub open spec fn on_events(self, batch: B) -> EvaluatorModel<B> {
        if self.state == State::Idle {
            EvaluatorModel {
                state: State::ProcessEvents,
                version: next_version(self.version),
                ..self
            }
        } else {
            EvaluatorModel { pending: self.pending.push(batch), ..self }
        }
    }

    /// The batch that is launched when the runtime looks at the waiting
    /// batches, with its version: the oldest at rest, none while work is in
    /// flight or when no batch waits.
    pub open spec fn drain_launch(self) -> Option<(u64, B)> {
        if self.state == State::Idle && self.pending.len() > 0 {
            Some((next_version(self.version), self.pending.first()))
        } else {
            None
        }
    }

    /// The state after the runtime has looked at the waiting batches.
    pub open spec fn drain(self) -> EvaluatorModel<B> {
        if self.state == State::Idle && self.pending.len() > 0 {
            EvaluatorModel {
                state: State::ProcessEvents,
                version: next_version(self.version),
                pending: self.pending.drop_first(),
                ..self
            }
        } else {
            self
        }
    }

    /// Whether work that ends under `version` is the work in flight, so that
    /// its pane is shown.
    pub open spec fn delivers(self, version: u64) -> bool {
        self.state != State::Idle && self.version == version
    }

    /// The state after work has ended under `version`: the work in flight
    /// comes to rest, work that was superseded changes nothing.
    pub open spec fn finish(self, version: u64) -> EvaluatorModel<B> {
        if self.delivers(version) {
            EvaluatorModel { state: State::Idle, ..self }
        } else {
            self
        }
    }

    /// The frame that a tick of the spinner shows: the next of the sequence
    /// while work is in flight, none at rest.
    pub open spec fn frame(self) -> Option<char> {
        if self.state != State::Idle {
            Some(loading_frames()[self.frame_index as int % 10])
        } else {
            None
        }
    }

    /// The state after a tick of the spinner.
    pub open spec fn tick(self) -> EvaluatorModel<B> {
        if self.state != State::Idle {
            EvaluatorModel { frame_index: ((self.frame_index % 10 + 1) % 10) as nat, ..self }
        } else {
            self
        }
    }

    /// The state after `batches` have arrived one after another.
    pub open spec fn on_events_all(self, batches: Seq<B>) -> EvaluatorModel<B>
        decreases batches.len(),
    {
        if batches.len() == 0 {
            self
        } else {
            self.on_events_all(batches.drop_last()).on_events(batches.last())
        }
    }

    /// The state after `rounds` times this: the runtime looks at the waiting
    /// batches, and the work that it launches ends.
    pub open spec fn work_off(self, rounds: nat) -> EvaluatorModel<B>
        decreases rounds,
    {
        if rounds == 0 {
            self
        } else {
            let before = self.work_off((rounds - 1) as nat);
            before.drain().finish(before.drain().version)
        }
    }

    /// The batches launched during `work_off`, in the order of their launch.
    pub open spec fn worked_off(self, rounds: nat) -> Seq<B>
        decreases rounds,
    {
        if rounds == 0 {
            Seq::empty()
        } else {
            let before = self.work_off((rounds - 1) as nat);
            match before.drain_launch() {
                Some((_, batch)) => self.worked_off((rounds - 1) as nat).push(batch),
                None => self.worked_off((rounds - 1) as nat),
            }
        }
    }
}

/// The state of an evaluator.
pub struct EvaluatorState<B> {
    state: State,
    version: u64,
    frame_index: usize,
    pending: VecDeque<B>,
}

impl<B> View for EvaluatorState<B> {
    type V = EvaluatorModel<B>;

    closed spec fn view(&self) -> EvaluatorModel<B> {
        EvaluatorModel {
            state: self.state,
            version: self.version,
            frame_index: self.frame_index as nat,
            pending: self.pending@,
        }
    }
}

impl<B> EvaluatorState<B> {
    /// An evaluator that has launched nothing.
    pub fn new() -> (state: EvaluatorState<B>)
        ensures
            state@ == EvaluatorModel::<B>::idle(),
    {
        EvaluatorState { state: State::Idle, version: 0, frame_index: 0, pending: VecDeque::new() }
    }

    /// What the evaluator is doing.
    pub fn state(&self) -> (state: State)
        ensures
            state == self@.state,
    {
        self.state
    }

    /// Number of batches that wait.
    pub fn pending_len(&self) -> (n: usize)
        ensures
            n == self@.pending.len(),
    {
        self.pending.len()
    }

    fn bump(&mut self) -> (version: u64)
        ensures
            version == next_version(old(self).version),
            final(self).version == version,
            final(self).state == old(self).state,
            final(self).frame_index == old(self).frame_index,
            final(self).pending == old(self).pending,
    {
        let version = if self.version == u64::MAX {
            0
        } else {
            self.version + 1
        };
        self.version = version;
        version
    }

    /// A query has arrived: says what to abort and under which version to
    /// launch the query. The batches that waited are dropped.
    pub fn on_query(&mut self) -> (start: QueryStart)
        ensures
            start == old(self)@.query_start(),
            final(self)@ == old(self)@.on_query(),
    {
        let abort = match self.state {
            State::Idle => None,
            _ => Some(self.version),
        };
        self.pending.clear();
        let launch = self.bump();
        self.state = State::ProcessQuery;
        QueryStart { abort, launch }
    }

    /// A batch has arrived: at rest it is handed back with the version
    /// under which to launch it, while work is in flight it is kept.
    pub fn on_events(&mut self, batch: B) -> (launch: Option<(u64, B)>)
        ensures
            launch == old(self)@.events_launch(batch),
            final(self)@ == old(self)@.on_events(batch),
    {
        match self.state {
            State::Idle => {
                let version = self.bump();
                self.state = State::ProcessEvents;
                Some((version, batch))
            },
            _ => {
                self.pending.push_back(batch);
                None
            },
        }
    }

    /// The runtime looks at the waiting batches: at rest the oldest is
    /// handed out with the version under which to launch it.
    pub fn drain(&mut self) -> (launch: Option<(u64, B)>)
        ensures
            launch == old(self)@.drain_launch(),
            final(self)@ == old(self)@.drain(),
    {
        match self.state {
            State::Idle => {
                match self.pending.pop_front() {
                    Some(batch) => {
                        let version = self.bump();
                        self.state = State::ProcessEvents;
                        assert(self.pending@ =~= old(self).pending@.drop_first());
                        Some((version, batch))
                    },
                    None => None,
                }
            },
            _ => None,
        }
    }

    /// Work has ended under `version`: says whether its pane is shown.
    pub fn finish(&mut self, version: u64) -> (deliver: bool)
        ensures
            deliver == old(self)@.delivers(version),
            final(self)@ == old(self)@.finish(version),
    {
        match self.state {
            State::Idle => false,
            _ => {
                if self.version == version {
                    self.state = State::Idle;
                    true
                } else {
                    false
                }
            },
        }
    }

    /// A tick of the spinner: the frame to show, if work is in flight.
    pub fn tick(&mut self) -> (frame: Option<char>)
        ensures
            frame == old(self)@.frame(),
            final(self)@ == old(self)@.tick(),
    {
        match self.state {
            State::Idle => None,
            _ => {
                let frame = loading_frame(self.frame_index);
                self.frame_index = next_frame_index(self.frame_index);
                Some(frame)
            },
        }
    }

    /// A tick of the spinner: the pane to publish, if work is in flight. It
    /// has one row, which holds the frame alone.
    pub fn spin(&mut self) -> (pane: Option<Pane>)
        ensures
            spinner_rows(pane) == old(self)@.frame(),
            final(self)@ == old(self)@.tick(),
    {
        match self.tick() {
            Some(frame) => Some(frame_pane(frame)),
            None => None,
        }
    }
}

/// A query goes before everything: whatever the evaluator is doing, the
/// query is launched, the work in flight is aborted and its pane is not
/// shown when it ends after all, and the batches that waited are dropped.
pub proof fn lemma_query_preempts<B>(state: EvaluatorModel<B>)
    ensures
        state.on_query().state == State::ProcessQuery,
        state.on_query().pending.len() == 0,
        state.state != State::Idle ==> state.query_start().abort == Some(state.version),
        state.state == State::Idle ==> state.query_start().abort is None,
        state.query_start().launch != state.version,
        state.on_query().delivers(state.query_start().launch),
        !state.on_query().delivers(state.version),
        state.on_query().finish(state.version) == state.on_query(),
        state.on_query().drain_launch() is None,
{
}

/// Batches that arrive while work is in flight are not launched: they wait
/// in the order of their arrival, behind those that wait already, and the
/// work in flight goes on.
pub proof fn lemma_events_wait<B>(state: EvaluatorModel<B>, batches: Seq<B>)
    requires
        state.state != State::Idle,
    ensures
        state.on_events_all(batches) == (EvaluatorModel {
            pending: state.pending + batches,
            ..state
        }),
        batches.len() > 0 ==> state.on_events_all(batches.drop_last()).events_launch(
            batches.last(),
        ) is None,
        state.on_events_all(batches).on_query().pending.len() == 0,
    decreases batches.len(),
{
    if batches.len() > 0 {
        lemma_events_wait(state, batches.drop_last());
        assert(state.pending + batches =~= (state.pending + batches.drop_last()).push(
            batches.last(),
        ));
    } else {
        assert(state.pending + batches =~= state.pending);
    }
}

/// Once the evaluator is at rest the waiting batches are launched oldest
/// first: as many rounds as batches wait launch them all in the order of
/// their arrival, and leave the evaluator at rest with none waiting.
pub proof fn lemma_waiting_batches_run_in_order<B>(state: EvaluatorModel<B>, rounds: nat)
    requires
        state.state == State::Idle,
        rounds <= state.pending.len(),
    ensures
        state.worked_off(rounds) == state.pending.take(rounds as int),
        state.work_off(rounds).pending == state.pending.skip(rounds as int),
        state.work_off(rounds).state == State::Idle,
    decreases rounds,
{
    if rounds > 0 {
        let fewer = (rounds - 1) as nat;
        lemma_waiting_batches_run_in_order(state, fewer);
        let before = state.work_off(fewer);
        assert(before.pending.first() == state.pending[fewer as int]);
        assert(state.pending.take(rounds as int) =~= state.pending.take(fewer as int).push(
            state.pending[fewer as int],
        ));
        assert(before.pending.drop_first() =~= state.pending.skip(rounds as int));
    } else {
        assert(state.pending.take(0) =~= Seq::<B>::empty());
        assert(state.pending.skip(0) =~= state.pending);
    }
}

} // verus!
