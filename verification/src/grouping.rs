//! What a window of raw input is grouped into, as a mathematical function,
//! and what holds of every batch.

use crate::event::{Group, RawEvent};
use vstd::prelude::*;

verus! {

/// `done` followed by the typed characters as one group, if there are any.
pub open spec fn flushed_chars(done: Seq<Group>, chars: Seq<char>) -> Seq<Group> {
    if chars.len() > 0 {
        done.push(Group::KeyBuffer(chars))
    } else {
        done
    }
}

/// `done` followed by the vertical moves as one group, if there are any.
pub open spec fn flushed_vertical(done: Seq<Group>, vertical: (nat, nat)) -> Seq<Group> {
    if vertical != (0nat, 0nat) {
        done.push(Group::VerticalCursorBuffer(vertical.0, vertical.1))
    } else {
        done
    }
}

/// `done` followed by the horizontal moves as one group, if there are any.
pub open spec fn flushed_horizontal(done: Seq<Group>, horizontal: (nat, nat)) -> Seq<Group> {
    if horizontal != (0nat, 0nat) {
        done.push(Group::HorizontalCursorBuffer(horizontal.0, horizontal.1))
    } else {
        done
    }
}

/// `done` followed by the repeated event as one group, if there is one.
pub open spec fn flushed_others(done: Seq<Group>, others: Option<(RawEvent, nat)>) -> Seq<Group> {
    match others {
        Some((event, count)) => done.push(Group::Others(event, count)),
        None => done,
    }
}

/// The state of a walk over a window: the groups that are complete, and the
/// four groups under construction, of which at most one is not empty.
pub struct Scan {
    /// The groups that are complete, in order.
    pub done: Seq<Group>,
    /// Characters typed since the last group was completed.
    pub chars: Seq<char>,
    /// Up and Down keys since the last group was completed.
    pub vertical: (nat, nat),
    /// Left and Right keys since the last group was completed.
    pub horizontal: (nat, nat),
    /// The other event that is being repeated, with its count.
    pub others: Option<(RawEvent, nat)>,
    /// The size given by the most recent resize.
    pub last_resize: Option<(u16, u16)>,
    /// How many groups were complete when the first resize came.
    pub resize_index: Option<nat>,
}

impl Scan {
    /// The walk before any event.
    pub open spec fn start() -> Scan {
        Scan {
            done: Seq::empty(),
            chars: Seq::empty(),
            vertical: (0nat, 0nat),
            horizontal: (0nat, 0nat),
            others: None,
            last_resize: None,
            resize_index: None,
        }
    }

    /// Completes the group of typed characters.
    pub open spec fn flush_chars(self) -> Scan {
        Scan { done: flushed_chars(self.done, self.chars), chars: Seq::empty(), ..self }
    }

    /// Completes the group of vertical moves.
    pub open spec fn flush_vertical(self) -> Scan {
        Scan { done: flushed_vertical(self.done, self.vertical), vertical: (0nat, 0nat), ..self }
    }

    /// Completes the group of horizontal moves.
    pub open spec fn flush_horizontal(self) -> Scan {
        Scan {
            done: flushed_horizontal(self.done, self.horizontal),
            horizontal: (0nat, 0nat),
            ..self
        }
    }

    /// Completes the group of the repeated event.
    pub open spec fn flush_others(self) -> Scan {
        Scan { done: flushed_others(self.done, self.others), others: None, ..self }
    }

    /// Completes whatever is under construction: characters, then vertical
    /// moves, then horizontal moves, then the repeated event.
    pub open spec fn flush_all(self) -> Scan {
        self.flush_chars().flush_vertical().flush_horizontal().flush_others()
    }

    /// The walk after one more event, where a resize counts as any other
    /// event that is neither typed nor a cursor move.
    pub open spec fn absorb_key(self, event: RawEvent) -> Scan {
        if let Some(ch) = event.typed_char() {
            let flushed = self.flush_vertical().flush_horizontal().flush_others();
            Scan { chars: flushed.chars.push(ch), ..flushed }
        } else if let Some(step) = event.vertical_step() {
            let flushed = self.flush_chars().flush_horizontal().flush_others();
            Scan {
                vertical: (flushed.vertical.0 + step.0, flushed.vertical.1 + step.1),
                ..flushed
            }
        } else if let Some(step) = event.horizontal_step() {
            let flushed = self.flush_chars().flush_vertical().flush_others();
            Scan {
                horizontal: (flushed.horizontal.0 + step.0, flushed.horizontal.1 + step.1),
                ..flushed
            }
        } else {
            let flushed = self.flush_chars().flush_vertical().flush_horizontal();
            match flushed.others {
                Some((last, count)) if last == event => Scan {
                    others: Some((last, count + 1)),
                    ..flushed
                },
                _ => Scan { others: Some((event, 1nat)), ..flushed.flush_others() },
            }
        }
    }

    /// The walk after one more event. A resize completes whatever is under
    /// construction and is remembered as the last one; the first resize of
    /// the window also fixes the place of the resize group.
    pub open spec fn absorb(self, event: RawEvent) -> Scan {
        if let RawEvent::Resize(width, height) = event {
            let flushed = self.flush_all();
            Scan {
                last_resize: Some((width, height)),
                resize_index: if self.resize_index is Some {
                    self.resize_index
                } else {
                    Some(flushed.done.len())
                },
                ..flushed
            }
        } else {
            self.absorb_key(event)
        }
    }

    /// The batch of a finished walk: everything completed, and the last
    /// resize put where the first one came.
    pub open spec fn finish(self) -> Seq<Group> {
        let flushed = self.flush_all();
        match (flushed.last_resize, flushed.resize_index) {
            (Some((width, height)), Some(index)) => flushed.done.insert(
                index as int,
                Group::LastResize(width, height),
            ),
            _ => flushed.done,
        }
    }
}

/// The walk over a whole window, event by event from the first.
pub open spec fn scan(events: Seq<RawEvent>) -> Scan
    decreases events.len(),
{
    if events.len() == 0 {
        Scan::start()
    } else {
        scan(events.drop_last()).absorb(events.last())
    }
}

/// The batch that a window of raw input is grouped into.
pub open spec fn grouped(events: Seq<RawEvent>) -> Seq<Group> {
    scan(events).finish()
}

/// The groups of a window other than its resize group.
pub open spec fn grouped_keys(events: Seq<RawEvent>) -> Seq<Group> {
    scan(events).flush_all().done
}

/// The walk over a whole window in which a resize counts as any other event.
pub open spec fn scan_plain(events: Seq<RawEvent>) -> Scan
    decreases events.len(),
{
    if events.len() == 0 {
        Scan::start()
    } else {
        scan_plain(events.drop_last()).absorb_key(events.last())
    }
}

/// The groups of a window in which a resize counts as any other event.
pub open spec fn bundled(events: Seq<RawEvent>) -> Seq<Group> {
    scan_plain(events).flush_all().done
}

} // verus!
