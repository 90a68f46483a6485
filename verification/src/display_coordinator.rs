//! The display coordinator: it keeps the pane of each slot, lets only the
//! newest version of the work write to the display, and turns a spinner in
//! each slot whose pane is being computed.

use crate::component::spinner::{loading_frame, loading_frames, next_frame_index};
use crate::pane::{frame_pane_within, matrixified, pane_rows};
use promkit::pane::Pane;
use vstd::prelude::*;

verus! {

/// What a display coordinator holds, as a mathematical value.
pub struct Display<P> {
    /// The newest version announced so far.
    pub version: usize,
    /// The pane of each slot.
    pub panes: Seq<P>,
    /// For each slot, whether its pane is being computed.
    pub actives: Seq<bool>,
    /// For each slot, the index of the frame that its spinner shows next.
    pub frame_indexes: Seq<nat>,
}

impl<P> Display<P> {
    /// Every slot has a pane, a flag and a frame index.
    pub open spec fn wf(self) -> bool {
        self.actives.len() == self.panes.len() && self.frame_indexes.len() == self.panes.len()
    }

    /// A display over `panes`, with no version announced and no spinner
    /// turning.
    pub open spec fn over(panes: Seq<P>) -> Display<P> {
        Display {
            version: 0,
            panes,
            actives: Seq::new(panes.len(), |i: int| false),
            frame_indexes: Seq::new(panes.len(), |i: int| 0nat),
        }
    }

    /// The display after work of `version` is announced for the slot
    /// `index`: a version newer than every one before starts the slot's
    /// spinner, another changes nothing.
    pub open spec fn activate(self, version: usize, index: int) -> Display<P> {
        if version > self.version {
            Display { version, actives: self.actives.update(index, true), ..self }
        } else {
            self
        }
    }

    /// Whether a pane of `version` is shown: it is unless a newer version
    /// has been announced.
    pub open spec fn accepts(self, version: usize) -> bool {
        version >= self.version
    }

    /// The display after a pane of `version` has come for the slot `index`:
    /// where it is shown it takes the slot and stops the slot's spinner.
    pub open spec fn place(self, version: usize, index: int, pane: P) -> Display<P> {
        if self.accepts(version) {
            Display {
                panes: self.panes.update(index, pane),
                actives: self.actives.update(index, false),
                ..self
            }
        } else {
            self
        }
    }

    /// The frame that the spinner of the slot `index` shows at a tick: the
    /// next of the sequence while the slot's pane is being computed.
    pub open spec fn frame(self, index: int) -> Option<char> {
        if self.actives[index] {
            Some(loading_frames()[self.frame_indexes[index] as int % 10])
        } else {
            None
        }
    }

    /// The display after the spinner of the slot `index` has ticked.
    pub open spec fn spin(self, index: int) -> Display<P> {
        if self.actives[index] {
            Display {
                frame_indexes: self.frame_indexes.update(
                    index,
                    ((self.frame_indexes[index] % 10 + 1) % 10) as nat,
                ),
                ..self
            }
        } else {
            self
        }
    }

    /// The display after `pane` is put in the slot `index` as it is.
    pub open spec fn show(self, index: int, pane: P) -> Display<P> {
        Display { panes: self.panes.update(index, pane), ..self }
    }
}

/// The display coordinator.
pub struct DisplayCoordinator<P> {
    version: usize,
    panes: Vec<P>,
    actives: Vec<bool>,
    frame_indexes: Vec<usize>,
}

impl<P> View for DisplayCoordinator<P> {
    type V = Display<P>;

    closed spec fn view(&self) -> Display<P> {
        Display {
            version: self.version,
            panes: self.panes@,
            actives: self.actives@,
            frame_indexes: Seq::new(
                self.frame_indexes@.len(),
                |i: int| self.frame_indexes@[i] as nat,
            ),
        }
    }
}

impl<P> DisplayCoordinator<P> {
    /// A coordinator over `panes`, one slot each.
    pub fn new(panes: Vec<P>) -> (coordinator: Self)
        ensures
            coordinator@ == Display::over(panes@),
            coordinator@.wf(),
    {
        let mut actives: Vec<bool> = Vec::new();
        let mut frame_indexes: Vec<usize> = Vec::new();
        let mut i: usize = 0;
        while i < panes.len()
            invariant
                i <= panes.len(),
                actives.len() == i,
                frame_indexes.len() == i,
                forall|k: int| 0 <= k < i ==> !actives[k],
                forall|k: int| 0 <= k < i ==> frame_indexes[k] == 0,
            decreases panes.len() - i,
        {
            actives.push(false);
            frame_indexes.push(0);
            i += 1;
        }
        let coordinator = DisplayCoordinator { version: 0, panes, actives, frame_indexes };
        assert(coordinator@.actives =~= Display::over(panes@).actives);
        assert(coordinator@.frame_indexes =~= Display::over(panes@).frame_indexes);
        coordinator
    }

    /// The panes, slot by slot, as they are to be drawn.
    pub fn panes(&self) -> (panes: &Vec<P>)
        ensures
            panes@ == self@.panes,
    {
        &self.panes
    }

    /// Number of slots.
    pub fn len(&self) -> (n: usize)
        ensures
            n == self@.panes.len(),
    {
        self.panes.len()
    }

    /// Work of `version` is announced for the slot `index`.
    pub fn activate(&mut self, version: usize, index: usize)
        requires
            old(self)@.wf(),
            index < old(self)@.panes.len(),
        ensures
            final(self)@ == old(self)@.activate(version, index as int),
            final(self)@.wf(),
    {
        if version > self.version {
            self.version = version;
            self.actives.set(index, true);
        }
        assert(self@.frame_indexes =~= old(self)@.frame_indexes);
    }

    /// A pane of `version` has come for the slot `index`: says whether it
    /// is shown, so that the display is drawn again.
    pub fn place(&mut self, version: usize, index: usize, pane: P) -> (draw: bool)
        requires
            old(self)@.wf(),
            index < old(self)@.panes.len(),
        ensures
            draw == old(self)@.accepts(version),
            final(self)@ == old(self)@.place(version, index as int, pane),
            final(self)@.wf(),
    {
        assert(self@.frame_indexes =~= old(self)@.frame_indexes);
        if version >= self.version {
            self.actives.set(index, false);
            self.panes.set(index, pane);
            assert(self@.frame_indexes =~= old(self)@.frame_indexes);
            true
        } else {
            false
        }
    }

    /// The slots whose pane is being computed, in ascending order.
    pub fn active_slots(&self) -> (slots: Vec<usize>)
        requires
            self@.wf(),
        ensures
            forall|k: int| 0 <= k < slots.len() ==> 0 <= #[trigger] slots[k] < self@.panes.len()
                && self@.actives[slots[k] as int],
            forall|j: int, k: int| 0 <= j < k < slots.len() ==> slots[j] < slots[k],
            forall|i: int|
                0 <= i < self@.panes.len() && self@.actives[i] ==> exists|k: int|
                    0 <= k < slots.len() && #[trigger] slots[k] == i,
    {
        let mut slots: Vec<usize> = Vec::new();
        let mut i: usize = 0;
        while i < self.actives.len()
            invariant
                i <= self.actives.len(),
                self@.wf(),
                forall|k: int|
                    0 <= k < slots.len() ==> 0 <= #[trigger] slots[k] < i
                        && self.actives[slots[k] as int],
                forall|j: int, k: int| 0 <= j < k < slots.len() ==> slots[j] < slots[k],
                forall|s: int|
                    0 <= s < i && self.actives[s] ==> exists|k: int|
                        0 <= k < slots.len() && #[trigger] slots[k] == s,
            decreases self.actives.len() - i,
        {
            if self.actives[i] {
                let ghost before = slots@;
                slots.push(i);
                assert forall|s: int| 0 <= s < i + 1 && self.actives[s] implies exists|k: int|
                    0 <= k < slots.len() && #[trigger] slots[k] == s by {
                    if s < i {
                        let k = choose|k: int| 0 <= k < before.len() && #[trigger] before[k] == s;
                        assert(slots[k] == s);
                    } else {
                        assert(slots[slots.len() - 1] == s);
                    }
                }
            }
            i += 1;
        }
        slots
    }

    /// The spinner of the slot `index` ticks: the frame to show in the slot,
    /// if its pane is being computed.
    pub fn spin(&mut self, index: usize) -> (frame: Option<char>)
        requires
            old(self)@.wf(),
            index < old(self)@.panes.len(),
        ensures
            frame == old(self)@.frame(index as int),
            final(self)@ == old(self)@.spin(index as int),
            final(self)@.wf(),
    {
        if self.actives[index] {
            let current = self.frame_indexes[index];
            let frame = loading_frame(current);
            self.frame_indexes.set(index, next_frame_index(current));
            assert(self@.frame_indexes =~= old(self)@.spin(index as int).frame_indexes);
            Some(frame)
        } else {
            assert(self@.frame_indexes =~= old(self)@.frame_indexes);
            None
        }
    }

    /// Puts `pane` in the slot `index` as it is: a spinner's frame, which
    /// leaves the slot's spinner turning.
    pub fn show(&mut self, index: usize, pane: P)
        requires
            old(self)@.wf(),
            index < old(self)@.panes.len(),
        ensures
            final(self)@ == old(self)@.show(index as int, pane),
            final(self)@.wf(),
    {
        self.panes.set(index, pane);
        assert(self@.frame_indexes =~= old(self)@.frame_indexes);
    }
}

impl DisplayCoordinator<Pane> {
    /// The spinner of the slot `index` ticks on a terminal of the size
    /// `area`: if the slot's pane is being computed, the slot takes a pane
    /// that shows the next frame, laid out for that size, and the display is
    /// to be drawn. Says whether it is.
    pub fn spin_pane(&mut self, index: usize, area: (u16, u16)) -> (draw: bool)
        requires
            old(self)@.wf(),
            index < old(self)@.panes.len(),
        ensures
            draw == old(self)@.actives[index as int],
            match old(self)@.frame(index as int) {
                Some(frame) => {
                    &&& pane_rows(final(self)@.panes[index as int]) == matrixified(
                        seq![frame],
                        area.0 as nat,
                        area.1 as nat,
                        0,
                    )
                    &&& final(self)@ == old(self)@.spin(index as int).show(
                        index as int,
                        final(self)@.panes[index as int],
                    )
                },
                None => final(self)@ == old(self)@,
            },
            final(self)@.wf(),
    {
        match self.spin(index) {
            Some(frame) => {
                self.show(index, frame_pane_within(frame, area.0, area.1));
                true
            },
            None => false,
        }
    }
}

/// A pane of work that a newer announcement has superseded is not shown and
/// changes nothing; the pane of the newest work is shown, takes its slot and
/// stops the slot's spinner.
pub proof fn lemma_only_newest_version_draws<P>(
    display: Display<P>,
    older: usize,
    newer: usize,
    index: int,
    pane: P,
)
    requires
        display.wf(),
        0 <= index < display.panes.len(),
        display.version <= older < newer,
    ensures
        display.activate(newer, index).frame(index) is Some,
        !display.activate(newer, index).accepts(older),
        display.activate(newer, index).place(older, index, pane) == display.activate(
            newer,
            index,
        ),
        display.activate(newer, index).accepts(newer),
        display.activate(newer, index).place(newer, index, pane).panes[index] == pane,
        display.activate(newer, index).place(newer, index, pane).frame(index) is None,
{
}

} // verus!
