//! The shared context of a prompt that loads a visualizer and evaluates
//! queries against it: what is in flight, for which terminal size, and when
//! the spinner turns.

use crate::component::loading::{next_version, spinner_rows};
use crate::component::spinner::{loading_frame, loading_frames, next_frame_index};
use crate::pane::frame_pane;
use promkit::pane::Pane;
use vstd::prelude::*;

verus! {

/// What the prompt is doing.
#[derive(Debug, Clone, Copy, PartialEq, Eq, Structural)]
pub enum State {
    /// Nothing is in flight.
    Idle,
    /// The visualizer is being loaded.
    Loading,
    /// A query is being evaluated.
    ProcessQuery,
}

/// The shared context, as a mathematical value.
pub struct ContextModel {
    /// What the prompt is doing.
    pub state: State,
    /// The terminal size for which panes are made.
    pub area: (u16, u16),
    /// The version of the evaluation that was launched last and has not
    /// been aborted.
    pub current_task: Option<u64>,
    /// The version given out last.
    pub version: u64,
}

/// What the runtime does when an evaluation is asked for.
#[derive(Debug, Clone, Copy, PartialEq, Eq, Structural)]
pub struct Relaunch {
    /// The version of the evaluation to abort, if there is one.
    pub abort: Option<u64>,
    /// The version under which the new evaluation is launched.
    pub launch: u64,
}

impl ContextModel {
    /// The context of a prompt at rest on a terminal of the size `area`.
    pub open spec fn fresh(area: (u16, u16)) -> ContextModel {
        ContextModel { state: State::Idle, area, current_task: None, version: 0 }
    }

    /// The context when loading begins: the evaluation on record is given
    /// up.
    pub open spec fn begin_loading(self) -> ContextModel {
        ContextModel { state: State::Loading, current_task: None, ..self }
    }

    /// The context when loading has ended.
    pub open spec fn end_loading(self) -> ContextModel {
        ContextModel { state: State::Idle, ..self }
    }

    /// What the runtime does when an evaluation is asked for: the one on
    /// record is aborted, and a new one is launched under the next version.
    pub open spec fn relaunch(self) -> Relaunch {
        Relaunch { abort: self.current_task, launch: next_version(self.version) }
    }

    /// The context after an evaluation has been launched.
    pub open spec fn launched(self) -> ContextModel {
        ContextModel {
            current_task: Some(next_version(self.version)),
            version: next_version(self.version),
            ..self
        }
    }

    /// Whether the evaluation of `version` is the one on record.
    pub open spec fn is_current(self, version: u64) -> bool {
        self.current_task == Some(version)
    }

    /// The context when the evaluation of `version` starts to run.
    pub open spec fn begin_query(self, version: u64) -> ContextModel {
        if self.is_current(version) {
            ContextModel { state: State::ProcessQuery, ..self }
        } else {
            self
        }
    }

    /// The context when the evaluation of `version` has ended.
    pub open spec fn end_query(self, version: u64) -> ContextModel {
        if self.is_current(version) {
            ContextModel { state: State::Idle, ..self }
        } else {
            self
        }
    }
}

/// The shared context of the prompt.
pub struct Context {
    state: State,
    area: (u16, u16),
    current_task: Option<u64>,
    version: u64,
}

impl View for Context {
    type V = ContextModel;

    closed spec fn view(&self) -> ContextModel {
        ContextModel {
            state: self.state,
            area: self.area,
            current_task: self.current_task,
            version: self.version,
        }
    }
}

impl Context {
    /// The context of a prompt at rest on a terminal of the size `area`.
    pub fn new(area: (u16, u16)) -> (context: Self)
        ensures
            context@ == ContextModel::fresh(area),
    {
        Self { state: State::Idle, area, current_task: None, version: 0 }
    }

    /// What the prompt is doing.
    pub fn state(&self) -> (state: State)
        ensures
            state == self@.state,
    {
        self.state
    }

    /// The terminal size for which panes are made.
    pub fn area(&self) -> (area: (u16, u16))
        ensures
            area == self@.area,
    {
        self.area
    }
}

/// The spinner of the data pane: the index of the frame shown last.
pub struct Spinner {
    frame_index: usize,
}

impl View for Spinner {
    type V = nat;

    closed spec fn view(&self) -> nat {
        self.frame_index as nat
    }
}

/// The frame that a tick shows after the frame at `shown`, in the state
/// `state`: the one that follows it in the sequence while something is in
/// flight, none at rest.
pub open spec fn spin_frame(shown: nat, state: State) -> Option<char> {
    if state == State::Idle {
        None
    } else {
        Some(loading_frames()[(shown as int % 10 + 1) % 10])
    }
}

/// The index of the frame shown last, after a tick in the state `state`.
pub open spec fn spin_index(shown: nat, state: State) -> nat {
    if state == State::Idle {
        shown
    } else {
        ((shown as int % 10 + 1) % 10) as nat
    }
}

impl Spinner {
    /// A spinner that has shown no frame: its first tick shows the second
    /// frame of the sequence.
    pub fn new() -> (spinner: Self)
        ensures
            spinner@ == 0,
    {
        Spinner { frame_index: 0 }
    }

    /// A tick of the spinner: while something is in flight it moves on to
    /// the next frame and shows it.
    pub fn tick(&mut self, context: &Context) -> (frame: Option<char>)
        ensures
            frame == spin_frame(old(self)@, context@.state),
            final(self)@ == spin_index(old(self)@, context@.state),
    {
        match context.state {
            State::Idle => None,
            _ => {
                self.frame_index = next_frame_index(self.frame_index);
                Some(loading_frame(self.frame_index))
            },
        }
    }

    /// A tick of the spinner: the pane for the data slot, while something is
    /// in flight. It has one row, which holds the frame alone.
    pub fn spin(&mut self, context: &Context) -> (pane: Option<Pane>)
        ensures
            spinner_rows(pane) == spin_frame(old(self)@, context@.state),
            final(self)@ == spin_index(old(self)@, context@.state),
    {
        match self.tick(context) {
            Some(frame) => Some(frame_pane(frame)),
            None => None,
        }
    }
}

/// The decisions of the prompt that loads a visualizer and evaluates
/// queries against it, over the context that it keeps.
pub struct Wizard {
    context: Context,
}

impl View for Wizard {
    type V = ContextModel;

    closed spec fn view(&self) -> ContextModel {
        self.context@
    }
}

impl Wizard {
    /// A wizard over `context`.
    pub fn new(context: Context) -> (wizard: Self)
        ensures
            wizard@ == context@,
    {
        Wizard { context }
    }

    /// The context, as the spinner reads it.
    pub fn context(&self) -> (context: &Context)
        ensures
            context@ == self@,
    {
        &self.context
    }

    /// Loading begins: says which evaluation to abort, if one is on record.
    pub fn loading(&mut self) -> (abort: Option<u64>)
        ensures
            abort == old(self)@.current_task,
            final(self)@ == old(self)@.begin_loading(),
    {
        let abort = self.context.current_task;
        self.context.current_task = None;
        self.context.state = State::Loading;
        abort
    }

    /// Loading has ended, with a visualizer or with an error: the prompt is
    /// at rest.
    pub fn loaded(&mut self)
        ensures
            final(self)@ == old(self)@.end_loading(),
    {
        self.context.state = State::Idle;
    }

    /// The terminal has a new size: panes are made for it from now on, and
    /// the query is evaluated anew. Says which evaluation to abort and under
    /// which version to launch the new one.
    pub fn write_on_resize(&mut self, area: (u16, u16)) -> (relaunch: Relaunch)
        ensures
            relaunch == old(self)@.relaunch(),
            final(self)@ == (ContextModel { area, ..old(self)@ }).launched(),
    {
        self.context.area = area;
        self.evaluate()
    }

    /// A query has come: says which evaluation to abort and under which
    /// version to launch the new one.
    pub fn evaluate(&mut self) -> (relaunch: Relaunch)
        ensures
            relaunch == old(self)@.relaunch(),
            final(self)@ == old(self)@.launched(),
    {
        let abort = self.context.current_task;
        let launch = if self.context.version == u64::MAX {
            0
        } else {
            self.context.version + 1
        };
        self.context.version = launch;
        self.context.current_task = Some(launch);
        Relaunch { abort, launch }
    }

    /// The evaluation of `version` starts to run: unless it has been
    /// superseded, the prompt is processing a query, and the size for which
    /// the pane is to be made is handed out.
    pub fn begin_query(&mut self, version: u64) -> (area: Option<(u16, u16)>)
        ensures
            area == (if old(self)@.is_current(version) {
                Some(old(self)@.area)
            } else {
                None
            }),
            final(self)@ == old(self)@.begin_query(version),
    {
        if self.is_current(version) {
            self.context.state = State::ProcessQuery;
            Some(self.context.area)
        } else {
            None
        }
    }

    /// The evaluation of `version` has ended: says whether its pane takes
    /// the data slot, which it does unless the evaluation has been
    /// superseded. The prompt is then at rest.
    pub fn end_query(&mut self, version: u64) -> (deliver: bool)
        ensures
            deliver == old(self)@.is_current(version),
            final(self)@ == old(self)@.end_query(version),
    {
        if self.is_current(version) {
            self.context.state = State::Idle;
            true
        } else {
            false
        }
    }

    fn is_current(&self, version: u64) -> (yes: bool)
        ensures
            yes == self@.is_current(version),
    {
        match self.context.current_task {
            Some(current) => current == version,
            None => false,
        }
    }
}

/// A new evaluation supersedes the one on record: that one is aborted, it
/// runs under another version, and when it ends after all its pane does not
/// take the data slot and nothing changes. The pane of the new evaluation
/// does, and leaves the prompt at rest.
pub proof fn lemma_evaluation_supersedes(context: ContextModel)
    requires
        context.current_task == Some(context.version),
    ensures
        context.relaunch().abort == Some(context.version),
        context.relaunch().launch != context.version,
        !context.launched().is_current(context.version),
        context.launched().end_query(context.version) == context.launched(),
        context.launched().is_current(context.relaunch().launch),
        context.launched().begin_query(context.relaunch().launch).state == State::ProcessQuery,
        context.launched().end_query(context.relaunch().launch).state == State::Idle,
{
}

} // verus!
