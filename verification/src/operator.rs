//! The time-based operator: it buffers raw input for a delay window and
//! emits the window as one grouped batch.

use crate::event::{batch_view, Event, Group, KeyCode, KeyEventKind, RawEvent, SHIFT};
use crate::grouping::{
    flushed_chars, flushed_horizontal, flushed_others, flushed_vertical, grouped, scan, Scan,
};
use crate::grouping_proofs::lemma_batch_has_no_blank_group;
use vstd::prelude::*;

verus! {

/// Appending one group to a batch appends its value to the batch's value.
proof fn lemma_batch_view_push(batch: Seq<Event>, group: Event)
    ensures
        batch_view(batch.push(group)) == batch_view(batch).push(group@),
{
    assert(batch_view(batch.push(group)) =~= batch_view(batch).push(group@));
}

/// Inserting one group into a batch inserts its value into the batch's value.
proof fn lemma_batch_view_insert(batch: Seq<Event>, index: int, group: Event)
    requires
        0 <= index <= batch.len(),
    ensures
        batch_view(batch.insert(index, group)) == batch_view(batch).insert(index, group@),
{
    assert(batch_view(batch.insert(index, group)) =~= batch_view(batch).insert(index, group@));
}

/// The walk that the working values of `process_events` stand for.
pub open spec fn working_scan(
    result: Seq<Event>,
    chars: Seq<char>,
    vertical: (usize, usize),
    horizontal: (usize, usize),
    others: Option<(RawEvent, usize)>,
    last_resize: Option<(u16, u16)>,
    resize_index: Option<usize>,
) -> Scan {
    Scan {
        done: batch_view(result),
        chars,
        vertical: (vertical.0 as nat, vertical.1 as nat),
        horizontal: (horizontal.0 as nat, horizontal.1 as nat),
        others: counted(others),
        last_resize,
        resize_index: match resize_index {
            Some(index) => Some(index as nat),
            None => None,
        },
    }
}

/// A repeated event with its count as a natural number.
pub open spec fn counted(others: Option<(RawEvent, usize)>) -> Option<(RawEvent, nat)> {
    match others {
        Some((event, count)) => Some((event, count as nat)),
        None => None,
    }
}

/// What wakes the operator's loop.
#[derive(Debug, Clone, Copy, PartialEq, Eq, Structural)]
pub enum Wake {
    /// The input gave one more event.
    Received(RawEvent),
    /// The input has ended.
    Closed,
    /// The delay has passed without an event.
    Elapsed,
}

/// What the operator's loop does after a wake.
#[derive(Debug, Clone, PartialEq)]
pub struct Step {
    /// The batch to send on, if there is one.
    pub batch: Option<Vec<Event>>,
    /// Whether the loop ends.
    pub stop: bool,
}

/// The batch that a buffer is flushed into: none for an empty buffer.
pub open spec fn flush_of(buffer: Seq<RawEvent>) -> Option<Seq<Group>> {
    if buffer.len() > 0 {
        Some(grouped(buffer))
    } else {
        None
    }
}

/// The value of an optional batch.
pub open spec fn optional_batch_view(batch: Option<Vec<Event>>) -> Option<Seq<Group>> {
    match batch {
        Some(groups) => Some(batch_view(groups@)),
        None => None,
    }
}

/// The operator: the raw events of the window that is open.
pub struct TimeBasedOperator {
    buffer: Vec<RawEvent>,
}

impl View for TimeBasedOperator {
    type V = Seq<RawEvent>;

    closed spec fn view(&self) -> Seq<RawEvent> {
        self.buffer@
    }
}

impl TimeBasedOperator {
    /// An operator with an empty window.
    pub fn new() -> (operator: TimeBasedOperator)
        ensures
            operator@ == Seq::<RawEvent>::empty(),
    {
        TimeBasedOperator { buffer: Vec::new() }
    }

    /// Number of events in the open window.
    pub fn buffered(&self) -> (n: usize)
        ensures
            n == self@.len(),
    {
        self.buffer.len()
    }

    /// Takes one event into the open window.
    pub fn receive(&mut self, event: RawEvent)
        ensures
            final(self)@ == old(self)@.push(event),
    {
        self.buffer.push(event);
    }

    /// Closes the window: an open window that holds events gives exactly
    /// their batch, which is not empty, and an empty one gives nothing.
    /// Either way the next window starts empty.
    pub fn flush(&mut self) -> (batch: Option<Vec<Event>>)
        ensures
            optional_batch_view(batch) == flush_of(old(self)@),
            batch matches Some(groups) ==> groups.len() > 0,
            final(self)@ == Seq::<RawEvent>::empty(),
    {
        if self.buffer.is_empty() {
            None
        } else {
            let groups = Self::process_events(&self.buffer);
            self.buffer.clear();
            Some(groups)
        }
    }

    /// One turn of the operator's loop. An event joins the window. When the
    /// delay passes the window is flushed and the loop goes on. When the
    /// input ends the window is flushed once more and the loop stops.
    pub fn step(&mut self, wake: Wake) -> (step: Step)
        ensures
            step.batch matches Some(groups) ==> groups.len() > 0,
            match wake {
                Wake::Received(event) => {
                    &&& final(self)@ == old(self)@.push(event)
                    &&& step.batch is None
                    &&& !step.stop
                },
                Wake::Elapsed => {
                    &&& final(self)@ == Seq::<RawEvent>::empty()
                    &&& optional_batch_view(step.batch) == flush_of(old(self)@)
                    &&& !step.stop
                },
                Wake::Closed => {
                    &&& final(self)@ == Seq::<RawEvent>::empty()
                    &&& optional_batch_view(step.batch) == flush_of(old(self)@)
                    &&& step.stop
                },
            },
    {
        match wake {
            Wake::Received(event) => {
                self.receive(event);
                Step { batch: None, stop: false }
            },
            Wake::Elapsed => {
                let batch = self.flush();
                Step { batch, stop: false }
            },
            Wake::Closed => {
                let batch = self.flush();
                Step { batch, stop: true }
            },
        }
    }

    /// Groups one window of raw input into a batch. A window that holds
    /// events gives a batch that holds groups.
    pub fn process_events(events: &Vec<RawEvent>) -> (result: Vec<Event>)
        ensures
            batch_view(result@) == grouped(events@),
            events.len() > 0 ==> result.len() > 0,
    {
        let mut result: Vec<Event> = Vec::new();
        let mut current_chars: Vec<char> = Vec::new();
        let mut current_vertical: (usize, usize) = (0, 0);
        let mut current_horizontal: (usize, usize) = (0, 0);
        let mut current_others: Option<(RawEvent, usize)> = None;
        let mut last_resize: Option<(u16, u16)> = None;
        let mut resize_index: Option<usize> = None;

        assert(batch_view(result@) =~= Seq::<Group>::empty());
        let mut i: usize = 0;
        while i < events.len()
            invariant
                i <= events.len(),
                working_scan(
                    result@,
                    current_chars@,
                    current_vertical,
                    current_horizontal,
                    current_others,
                    last_resize,
                    resize_index,
                ) == scan(events@.take(i as int)),
                current_vertical.0 + current_vertical.1 <= i,
                current_horizontal.0 + current_horizontal.1 <= i,
                current_others matches Some((_, count)) ==> count <= i,
                resize_index matches Some(index) ==> index <= result.len(),
            decreases events.len() - i,
        {
            let event = events[i];
            proof {
                let next = events@.take(i + 1);
                assert(next.drop_last() =~= events@.take(i as int));
                assert(next.last() == event);
            }
            if let RawEvent::Resize(width, height) = event {
                Self::flush_all_buffers(
                    &mut result,
                    &mut current_chars,
                    &mut current_vertical,
                    &mut current_horizontal,
                    &mut current_others,
                );
                last_resize = Some((width, height));
                if resize_index.is_none() {
                    resize_index = Some(result.len());
                }
            } else if let Some(ch) = Self::extract_char(&event) {
                Self::flush_non_char_buffers(
                    &mut result,
                    &mut current_vertical,
                    &mut current_horizontal,
                    &mut current_others,
                );
                current_chars.push(ch);
            } else if let Some((up, down)) = Self::detect_vertical_direction(&event) {
                Self::flush_char_buffer(&mut result, &mut current_chars);
                Self::flush_horizontal_buffer(&mut result, &mut current_horizontal);
                Self::flush_others_buffer(&mut result, &mut current_others);
                current_vertical = (current_vertical.0 + up, current_vertical.1 + down);
            } else if let Some((left, right)) = Self::detect_horizontal_direction(&event) {
                Self::flush_char_buffer(&mut result, &mut current_chars);
                Self::flush_vertical_buffer(&mut result, &mut current_vertical);
                Self::flush_others_buffer(&mut result, &mut current_others);
                current_horizontal = (current_horizontal.0 + left, current_horizontal.1 + right);
            } else {
                Self::flush_char_buffer(&mut result, &mut current_chars);
                Self::flush_vertical_buffer(&mut result, &mut current_vertical);
                Self::flush_horizontal_buffer(&mut result, &mut current_horizontal);
                match current_others {
                    Some((last_event, count)) if last_event == event => {
                        current_others = Some((last_event, count + 1));
                    },
                    _ => {
                        Self::flush_others_buffer(&mut result, &mut current_others);
                        current_others = Some((event, 1));
                    },
                }
            }
            i += 1;
        }
        assert(events@.take(i as int) =~= events@);

        Self::flush_all_buffers(
            &mut result,
            &mut current_chars,
            &mut current_vertical,
            &mut current_horizontal,
            &mut current_others,
        );
        if let (Some((width, height)), Some(index)) = (last_resize, resize_index) {
            proof {
                lemma_batch_view_insert(result@, index as int, Event::LastResize(width, height));
            }
            result.insert(index, Event::LastResize(width, height));
        }
        proof {
            lemma_batch_has_no_blank_group(events@);
        }
        result
    }

    /// Completes all four groups under construction.
    pub fn flush_all_buffers(
        result: &mut Vec<Event>,
        chars: &mut Vec<char>,
        vertical: &mut (usize, usize),
        horizontal: &mut (usize, usize),
        others: &mut Option<(RawEvent, usize)>,
    )
        ensures
            batch_view(final(result)@) == flushed_others(
                flushed_horizontal(
                    flushed_vertical(
                        flushed_chars(batch_view(old(result)@), old(chars)@),
                        (old(vertical).0 as nat, old(vertical).1 as nat),
                    ),
                    (old(horizontal).0 as nat, old(horizontal).1 as nat),
                ),
                counted(*old(others)),
            ),
            final(result).len() >= old(result).len(),
            final(chars)@ == Seq::<char>::empty(),
            *final(vertical) == (0usize, 0usize),
            *final(horizontal) == (0usize, 0usize),
            *final(others) == None::<(RawEvent, usize)>,
    {
        Self::flush_char_buffer(result, chars);
        Self::flush_vertical_buffer(result, vertical);
        Self::flush_horizontal_buffer(result, horizontal);
        Self::flush_others_buffer(result, others);
    }

    /// Completes the group of typed characters, if there are any.
    pub fn flush_char_buffer(result: &mut Vec<Event>, chars: &mut Vec<char>)
        ensures
            batch_view(final(result)@) == flushed_chars(batch_view(old(result)@), old(chars)@),
            final(result).len() >= old(result).len(),
            final(chars)@ == Seq::<char>::empty(),
    {
        if !chars.is_empty() {
            let mut taken: Vec<char> = Vec::new();
            std::mem::swap(chars, &mut taken);
            proof {
                lemma_batch_view_push(result@, Event::KeyBuffer(taken));
            }
            result.push(Event::KeyBuffer(taken));
        }
    }

    /// Completes the group of vertical moves, if there are any.
    pub fn flush_vertical_buffer(result: &mut Vec<Event>, vertical: &mut (usize, usize))
        ensures
            batch_view(final(result)@) == flushed_vertical(
                batch_view(old(result)@),
                (old(vertical).0 as nat, old(vertical).1 as nat),
            ),
            final(result).len() >= old(result).len(),
            *final(vertical) == (0usize, 0usize),
    {
        if vertical.0 != 0 || vertical.1 != 0 {
            proof {
                lemma_batch_view_push(
                    result@,
                    Event::VerticalCursorBuffer(vertical.0, vertical.1),
                );
            }
            result.push(Event::VerticalCursorBuffer(vertical.0, vertical.1));
            *vertical = (0, 0);
        }
    }

    /// Completes the group of horizontal moves, if there are any.
    pub fn flush_horizontal_buffer(result: &mut Vec<Event>, horizontal: &mut (usize, usize))
        ensures
            batch_view(final(result)@) == flushed_horizontal(
                batch_view(old(result)@),
                (old(horizontal).0 as nat, old(horizontal).1 as nat),
            ),
            final(result).len() >= old(result).len(),
            *final(horizontal) == (0usize, 0usize),
    {
        if horizontal.0 != 0 || horizontal.1 != 0 {
            proof {
                lemma_batch_view_push(
                    result@,
                    Event::HorizontalCursorBuffer(horizontal.0, horizontal.1),
                );
            }
            result.push(Event::HorizontalCursorBuffer(horizontal.0, horizontal.1));
            *horizontal = (0, 0);
        }
    }

    /// Completes the group of the repeated event, if there is one.
    pub fn flush_others_buffer(result: &mut Vec<Event>, others: &mut Option<(RawEvent, usize)>)
        ensures
            batch_view(final(result)@) == flushed_others(
                batch_view(old(result)@),
                counted(*old(others)),
            ),
            final(result).len() >= old(result).len(),
            *final(others) == None::<(RawEvent, usize)>,
    {
        if let Some((event, count)) = *others {
            proof {
                lemma_batch_view_push(result@, Event::Others(event, count));
            }
            result.push(Event::Others(event, count));
            *others = None;
        }
    }

    /// Completes the three groups that a typed character ends.
    pub fn flush_non_char_buffers(
        result: &mut Vec<Event>,
        vertical: &mut (usize, usize),
        horizontal: &mut (usize, usize),
        others: &mut Option<(RawEvent, usize)>,
    )
        ensures
            batch_view(final(result)@) == flushed_others(
                flushed_horizontal(
                    flushed_vertical(
                        batch_view(old(result)@),
                        (old(vertical).0 as nat, old(vertical).1 as nat),
                    ),
                    (old(horizontal).0 as nat, old(horizontal).1 as nat),
                ),
                counted(*old(others)),
            ),
            final(result).len() >= old(result).len(),
            *final(vertical) == (0usize, 0usize),
            *final(horizontal) == (0usize, 0usize),
            *final(others) == None::<(RawEvent, usize)>,
    {
        Self::flush_vertical_buffer(result, vertical);
        Self::flush_horizontal_buffer(result, horizontal);
        Self::flush_others_buffer(result, others);
    }

    /// The character that a plain key press types.
    pub fn extract_char(event: &RawEvent) -> (ch: Option<char>)
        ensures
            ch == event.typed_char(),
    {
        match event {
            RawEvent::Key(key) => match key.code {
                KeyCode::Char(ch) => {
                    if (key.modifiers.bits == 0 || key.modifiers.bits == SHIFT) && matches!(
                        key.kind,
                        KeyEventKind::Press
                    ) && key.state.bits == 0 {
                        Some(ch)
                    } else {
                        None
                    }
                },
                _ => None,
            },
            _ => None,
        }
    }

    /// `(1, 0)` for an Up key, `(0, 1)` for a Down key.
    pub fn detect_vertical_direction(event: &RawEvent) -> (step: Option<(usize, usize)>)
        ensures
            step matches Some(s) ==> event.vertical_step() == Some((s.0 as nat, s.1 as nat)),
            step is None ==> event.vertical_step() is None,
            step matches Some(s) ==> s.0 + s.1 == 1,
    {
        match event {
            RawEvent::Key(key) => match key.code {
                KeyCode::Up => Some((1, 0)),
                KeyCode::Down => Some((0, 1)),
                _ => None,
            },
            _ => None,
        }
    }

    /// `(1, 0)` for a Left key, `(0, 1)` for a Right key.
    pub fn detect_horizontal_direction(event: &RawEvent) -> (step: Option<(usize, usize)>)
        ensures
            step matches Some(s) ==> event.horizontal_step() == Some((s.0 as nat, s.1 as nat)),
            step is None ==> event.horizontal_step() is None,
            step matches Some(s) ==> s.0 + s.1 == 1,
    {
        match event {
            RawEvent::Key(key) => match key.code {
                KeyCode::Left => Some((1, 0)),
                KeyCode::Right => Some((0, 1)),
                _ => None,
            },
            _ => None,
        }
    }
}

} // verus!
