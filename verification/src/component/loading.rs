//! The loading component: at most one piece of work is in flight, a newer
//! batch supersedes it, and a spinner turns while work is in flight.

use crate::component::spinner::{loading_frame, loading_frames, next_frame_index};
use crate::pane::{frame_pane, pane_rows};
use promkit::pane::Pane;
use vstd::prelude::*;

verus! {

/// The state of a loading component, as a mathematical value.
pub struct LoadingModel {
    /// The version of the work launched last.
    pub version: u64,
    /// Whether that work is in flight.
    pub is_loading: bool,
    /// Index of the frame that the spinner shows next.
    pub frame_index: nat,
}

/// What the runtime does when a batch arrives.
#[derive(Debug, Clone, Copy, PartialEq, Eq, Structural)]
pub struct Submission {
    /// The version of the work to abort, if work was in flight.
    pub abort: Option<u64>,
    /// Whether the component's state is rolled back before the new work
    /// starts.
    pub rollback: bool,
    /// The version under which the new work is launched.
    pub launch: u64,
}

/// The version that follows `version`.
pub open spec fn next_version(version: u64) -> u64 {
    if version == u64::MAX {
        0
    } else {
        (version + 1) as u64
    }
}

impl LoadingModel {
    /// A component that has launched nothing.
    pub open spec fn idle() -> LoadingModel {
        LoadingModel { version: 0, is_loading: false, frame_index: 0 }
    }

    /// The state after a batch has arrived: new work is in flight under the
    /// next version.
    pub open spec fn submit(self) -> LoadingModel {
        LoadingModel { version: next_version(self.version), is_loading: true, ..self }
    }

    /// What the runtime does when a batch arrives: work in flight is aborted
    /// and the state rolled back, and new work is launched either way.
    pub open spec fn submission(self) -> Submission {
        Submission {
            abort: if self.is_loading {
                Some(self.version)
            } else {
                None
            },
            rollback: self.is_loading,
            launch: next_version(self.version),
        }
    }

    /// Whether work that ends under `version` is the work in flight, so that
    /// its pane is shown.
    pub open spec fn delivers(self, version: u64) -> bool {
        self.is_loading && self.version == version
    }

    /// The state after work has ended under `version`: the work in flight
    /// comes to rest, work that was superseded changes nothing.
    pub open spec fn finish(self, version: u64) -> LoadingModel {
        if self.delivers(version) {
            LoadingModel { is_loading: false, ..self }
        } else {
            self
        }
    }

    /// The frame that a tick of the spinner shows: the next of the sequence
    /// while work is in flight, none at rest.
    pub open spec fn frame(self) -> Option<char> {
        if self.is_loading {
            Some(loading_frames()[self.frame_index as int % 10])
        } else {
            None
        }
    }

    /// The state after a tick of the spinner.
    pub open spec fn tick(self) -> LoadingModel {
        if self.is_loading {
            LoadingModel { frame_index: ((self.frame_index % 10 + 1) % 10) as nat, ..self }
        } else {
            self
        }
    }
}

/// The frame that a spinner's pane shows: the pane has one row, which holds
/// the frame alone.
pub open spec fn spinner_rows(pane: Option<Pane>) -> Option<char> {
    match pane {
        Some(pane) => if pane_rows(pane).len() == 1 && pane_rows(pane)[0].len() == 1 {
            Some(pane_rows(pane)[0][0])
        } else {
            None
        },
        None => None,
    }
}

/// The state of a loading component.
pub struct LoadingState {
    version: u64,
    is_loading: bool,
    frame_index: usize,
}

impl View for LoadingState {
    type V = LoadingModel;

    closed spec fn view(&self) -> LoadingModel {
        LoadingModel {
            version: self.version,
            is_loading: self.is_loading,
            frame_index: self.frame_index as nat,
        }
    }
}

impl LoadingState {
    /// A component that has launched nothing.
    pub fn new() -> (state: LoadingState)
        ensures
            state@ == LoadingModel::idle(),
    {
        LoadingState { version: 0, is_loading: false, frame_index: 0 }
    }

    /// Whether work is in flight.
    pub fn is_loading(&self) -> (yes: bool)
        ensures
            yes == self@.is_loading,
    {
        self.is_loading
    }

    /// A batch has arrived: says what to abort and whether to roll back, and
    /// under which version to launch the work for the batch.
    pub fn submit(&mut self) -> (submission: Submission)
        ensures
            submission == old(self)@.submission(),
            final(self)@ == old(self)@.submit(),
    {
        let abort = if self.is_loading {
            Some(self.version)
        } else {
            None
        };
        let rollback = self.is_loading;
        let launch = if self.version == u64::MAX {
            0
        } else {
            self.version + 1
        };
        self.version = launch;
        self.is_loading = true;
        Submission { abort, rollback, launch }
    }

    /// Work has ended under `version`: says whether its pane is shown.
    pub fn finish(&mut self, version: u64) -> (deliver: bool)
        ensures
            deliver == old(self)@.delivers(version),
            final(self)@ == old(self)@.finish(version),
    {
        if self.is_loading && self.version == version {
            self.is_loading = false;
            true
        } else {
            false
        }
    }

    /// A tick of the spinner: the frame to show, if work is in flight.
    pub fn tick(&mut self) -> (frame: Option<char>)
        ensures
            frame == old(self)@.frame(),
            final(self)@ == old(self)@.tick(),
    {
        if self.is_loading {
            let frame = loading_frame(self.frame_index);
            self.frame_index = next_frame_index(self.frame_index);
            Some(frame)
        } else {
            None
        }
    }

    /// A tick of the spinner: the pane to publish, if work is in flight. It
    /// has one row, which holds the frame alone.
    pub fn spin(&mut self) -> (pane: Option<Pane>)
        ensures
            spinner_rows(pane) == old(self)@.frame(),
            final(self)@ == old(self)@.tick(),
    {
        match self.tick() {
            Some(frame) => Some(frame_pane(frame)),
            None => None,
        }
    }
}

/// A batch that arrives while work is in flight supersedes it: the work in
/// flight is aborted and the state rolled back, the new work runs under
/// another version, and the spinner keeps turning. When the aborted work
/// ends after all, its pane is not shown and nothing changes; the pane of
/// the new work is shown, and the component comes to rest.
pub proof fn lemma_supersession(state: LoadingModel)
    requires
        state.is_loading,
    ensures
        state.submission().abort == Some(state.version),
        state.submission().rollback,
        state.submission().launch != state.version,
        state.submit().is_loading,
        state.submit().frame() is Some,
        !state.submit().delivers(state.version),
        state.submit().finish(state.version) == state.submit(),
        state.submit().delivers(state.submission().launch),
        !state.submit().finish(state.submission().launch).is_loading,
{
}

/// One thing that happens to a loading component.
pub enum LoadingEvent {
    /// A batch arrives.
    Submit,
    /// Work ends under the given version.
    Finish(u64),
    /// The spinner ticks.
    Tick,
}

impl LoadingModel {
    /// The state after one event.
    pub open spec fn after(self, event: LoadingEvent) -> LoadingModel {
        match event {
            LoadingEvent::Submit => self.submit(),
            LoadingEvent::Finish(version) => self.finish(version),
            LoadingEvent::Tick => self.tick(),
        }
    }

    /// The state after the events of a history, in order.
    pub open spec fn after_all(self, history: Seq<LoadingEvent>) -> LoadingModel
        decreases history.len(),
    {
        if history.len() == 0 {
            self
        } else {
            self.after_all(history.drop_last()).after(history.last())
        }
    }
}

/// Number of batches that arrive in a history.
pub open spec fn submissions(history: Seq<LoadingEvent>) -> nat
    decreases history.len(),
{
    if history.len() == 0 {
        0
    } else if history.last() is Submit {
        submissions(history.drop_last()) + 1
    } else {
        submissions(history.drop_last())
    }
}

/// Work that was superseded stays so: whatever happens after the batch that
/// superseded it, and in whatever order, its pane is never shown, as long
/// as fewer batches follow than there are versions.
pub proof fn lemma_superseded_for_good(state: LoadingModel, history: Seq<LoadingEvent>)
    requires
        submissions(history) < u64::MAX,
    ensures
        !state.submit().after_all(history).delivers(state.version),
        state.submit().after_all(history).version as int == (state.version + 1 + submissions(
            history,
        )) % (u64::MAX + 1),
    decreases history.len(),
{
    if history.len() > 0 {
        lemma_superseded_for_good(state, history.drop_last());
    }
}

} // verus!
