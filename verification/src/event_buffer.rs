//! The event buffer: it groups a window of raw input as the operator does,
//! but takes a resize for any other event, and debounces resizes apart.

use crate::debounce::{Debouncer, Pulse, Release};
use crate::event::{Group, RawEvent};
use crate::grouping::{
    bundled, flushed_chars, flushed_horizontal, flushed_others, flushed_vertical, scan_plain, Scan,
};
use crate::grouping_proofs::lemma_bundled_groups;
use crate::operator::{counted, TimeBasedOperator, Wake};
use std::time::Duration;
use vstd::prelude::*;

verus! {

/// One group of a bundle list.
#[derive(Debug, Clone, PartialEq)]
pub enum EventBundle {
    /// Characters typed in a row, in order.
    KeyBuffer(Vec<char>),
    /// Numbers of Up and of Down keys in a row.
    VerticalCursorBuffer(usize, usize),
    /// Numbers of Left and of Right keys in a row.
    HorizontalCursorBuffer(usize, usize),
    /// A debounced new size.
    Resize(u16, u16),
    /// Another event, and how many times it came in a row.
    Others(RawEvent, usize),
}

impl View for EventBundle {
    type V = Group;

    open spec fn view(&self) -> Group {
        match *self {
            EventBundle::KeyBuffer(chars) => Group::KeyBuffer(chars@),
            EventBundle::VerticalCursorBuffer(up, down) => Group::VerticalCursorBuffer(
                up as nat,
                down as nat,
            ),
            EventBundle::HorizontalCursorBuffer(left, right) => Group::HorizontalCursorBuffer(
                left as nat,
                right as nat,
            ),
            EventBundle::Resize(width, height) => Group::LastResize(width, height),
            EventBundle::Others(event, count) => Group::Others(event, count as nat),
        }
    }
}

/// The groups of a bundle list, in order, as mathematical values.
pub open spec fn bundles_view(bundles: Seq<EventBundle>) -> Seq<Group> {
    Seq::new(bundles.len(), |i: int| bundles[i]@)
}

/// Appending one group to a bundle list appends its value to the list's
/// value.
proof fn lemma_bundles_view_push(bundles: Seq<EventBundle>, bundle: EventBundle)
    ensures
        bundles_view(bundles.push(bundle)) == bundles_view(bundles).push(bundle@),
{
    assert(bundles_view(bundles.push(bundle)) =~= bundles_view(bundles).push(bundle@));
}

/// The value of an optional bundle list.
pub open spec fn optional_bundles_view(bundles: Option<Vec<EventBundle>>) -> Option<Seq<Group>> {
    match bundles {
        Some(groups) => Some(bundles_view(groups@)),
        None => None,
    }
}

/// What the event buffer's loop does after a wake.
#[derive(Debug, Clone, PartialEq)]
pub struct BundleStep {
    /// The bundle list to send on, if there is one.
    pub bundles: Option<Vec<EventBundle>>,
    /// Whether the loop ends.
    pub stop: bool,
}

/// The event buffer, which knows the delay of its windows.
pub struct EventBuffer {
    delay_duration: Duration,
}

impl EventBuffer {
    /// The delay after which a window is closed.
    pub closed spec fn delay(&self) -> Duration {
        self.delay_duration
    }

    /// An event buffer whose windows close after `delay_duration` without
    /// input.
    pub fn new(delay_duration: Duration) -> (buffer: Self)
        ensures
            buffer.delay() == delay_duration,
    {
        EventBuffer { delay_duration }
    }

    /// The delay after which a window is closed.
    pub fn delay_duration(&self) -> (delay: Duration)
        ensures
            delay == self.delay(),
    {
        self.delay_duration
    }

    /// One turn of the event buffer's loop over the window `window`. An
    /// event joins the window. When the delay passes, a window that holds
    /// events gives their bundle list and starts anew, and an empty one
    /// gives nothing. When the input ends the loop stops and nothing goes
    /// out.
    pub fn step(window: &mut Vec<RawEvent>, wake: Wake) -> (step: BundleStep)
        ensures
            match wake {
                Wake::Received(event) => {
                    &&& final(window)@ == old(window)@.push(event)
                    &&& step.bundles is None
                    &&& !step.stop
                },
                Wake::Elapsed => {
                    &&& final(window)@ == Seq::<RawEvent>::empty()
                    &&& optional_bundles_view(step.bundles) == if old(window)@.len() > 0 {
                        Some(bundled(old(window)@))
                    } else {
                        None
                    }
                    &&& !step.stop
                },
                Wake::Closed => {
                    &&& final(window)@ == old(window)@
                    &&& step.bundles is None
                    &&& step.stop
                },
            },
    {
        match wake {
            Wake::Received(event) => {
                window.push(event);
                BundleStep { bundles: None, stop: false }
            },
            Wake::Elapsed => {
                if window.is_empty() {
                    BundleStep { bundles: None, stop: false }
                } else {
                    let mut events: Vec<RawEvent> = Vec::new();
                    std::mem::swap(window, &mut events);
                    BundleStep { bundles: Some(Self::process_events(events)), stop: false }
                }
            },
            Wake::Closed => BundleStep { bundles: None, stop: true },
        }
    }

    /// One turn of the resize loop: of the sizes that arrive in quick
    /// succession only the last is kept, and it goes out as a resize group
    /// once the delay has passed without another.
    pub fn resize_step(sizes: &mut Debouncer<(u16, u16)>, pulse: Pulse<(u16, u16)>) -> (release:
        Release<EventBundle>)
        ensures
            match pulse {
                Pulse::Received(size) => {
                    &&& final(sizes)@ == Some(size)
                    &&& release.emit is None
                    &&& !release.stop
                },
                Pulse::Elapsed => {
                    &&& final(sizes)@ == None::<(u16, u16)>
                    &&& release.emit == (match old(sizes)@ {
                        Some(size) => Some(EventBundle::Resize(size.0, size.1)),
                        None => None,
                    })
                    &&& !release.stop
                },
                Pulse::Closed => {
                    &&& final(sizes)@ == old(sizes)@
                    &&& release.emit is None
                    &&& release.stop
                },
            },
    {
        let inner = sizes.step(pulse);
        let emit = match inner.emit {
            Some((width, height)) => Some(EventBundle::Resize(width, height)),
            None => None,
        };
        Release { emit, stop: inner.stop }
    }

    /// Groups one window of raw input into a bundle list, a resize counting
    /// as any other event that is neither typed nor a cursor move.
    pub fn process_events(events: Vec<RawEvent>) -> (result: Vec<EventBundle>)
        ensures
            bundles_view(result@) == bundled(events@),
            events@.len() > 0 ==> result.len() > 0,
    {
        let mut result: Vec<EventBundle> = Vec::new();
        let mut current_chars: Vec<char> = Vec::new();
        let mut current_vertical: (usize, usize) = (0, 0);
        let mut current_horizontal: (usize, usize) = (0, 0);
        let mut current_others: Option<(RawEvent, usize)> = None;

        assert(bundles_view(result@) =~= Seq::<Group>::empty());
        let mut i: usize = 0;
        while i < events.len()
            invariant
                i <= events.len(),
                (Scan {
                    done: bundles_view(result@),
                    chars: current_chars@,
                    vertical: (current_vertical.0 as nat, current_vertical.1 as nat),
                    horizontal: (current_horizontal.0 as nat, current_horizontal.1 as nat),
                    others: counted(current_others),
                    last_resize: None,
                    resize_index: None,
                }) == scan_plain(events@.take(i as int)),
                current_vertical.0 + current_vertical.1 <= i,
                current_horizontal.0 + current_horizontal.1 <= i,
                current_others matches Some((_, count)) ==> count <= i,
            decreases events.len() - i,
        {
            let event = events[i];
            proof {
                let next = events@.take(i + 1);
                assert(next.drop_last() =~= events@.take(i as int));
                assert(next.last() == event);
            }
            if let Some(ch) = Self::extract_char(&event) {
                Self::flush_non_char_buffers(
                    &mut result,
                    &mut current_vertical,
                    &mut current_horizontal,
                    &mut current_others,
                );
                current_chars.push(ch);
            } else if let Some((up, down)) = Self::detect_vertical_direction(&event) {
                Self::flush_char_buffer(&mut result, &mut current_chars);
                Self::flush_horizontal_buffer(&mut result, &mut current_horizontal);
                Self::flush_others_buffer(&mut result, &mut current_others);
                current_vertical = (current_vertical.0 + up, current_vertical.1 + down);
            } else if let Some((left, right)) = Self::detect_horizontal_direction(&event) {
                Self::flush_char_buffer(&mut result, &mut current_chars);
                Self::flush_vertical_buffer(&mut result, &mut current_vertical);
                Self::flush_others_buffer(&mut result, &mut current_others);
                current_horizontal = (current_horizontal.0 + left, current_horizontal.1 + right);
            } else {
                Self::flush_char_buffer(&mut result, &mut current_chars);
                Self::flush_vertical_buffer(&mut result, &mut current_vertical);
                Self::flush_horizontal_buffer(&mut result, &mut current_horizontal);
                match current_others {
                    Some((last_event, count)) if last_event == event => {
                        current_others = Some((last_event, count + 1));
                    },
                    _ => {
                        Self::flush_others_buffer(&mut result, &mut current_others);
                        current_others = Some((event, 1));
                    },
                }
            }
            i += 1;
        }
        assert(events@.take(i as int) =~= events@);

        Self::flush_char_buffer(&mut result, &mut current_chars);
        Self::flush_vertical_buffer(&mut result, &mut current_vertical);
        Self::flush_horizontal_buffer(&mut result, &mut current_horizontal);
        Self::flush_others_buffer(&mut result, &mut current_others);
        proof {
            lemma_bundled_groups(events@);
        }
        result
    }

    /// Completes the group of typed characters, if there are any.
    pub fn flush_char_buffer(result: &mut Vec<EventBundle>, chars: &mut Vec<char>)
        ensures
            bundles_view(final(result)@) == flushed_chars(bundles_view(old(result)@), old(chars)@),
            final(chars)@ == Seq::<char>::empty(),
    {
        if !chars.is_empty() {
            let mut taken: Vec<char> = Vec::new();
            std::mem::swap(chars, &mut taken);
            proof {
                lemma_bundles_view_push(result@, EventBundle::KeyBuffer(taken));
            }
            result.push(EventBundle::KeyBuffer(taken));
        }
    }

    /// Completes the group of vertical moves, if there are any.
    pub fn flush_vertical_buffer(result: &mut Vec<EventBundle>, vertical: &mut (usize, usize))
        ensures
            bundles_view(final(result)@) == flushed_vertical(
                bundles_view(old(result)@),
                (old(vertical).0 as nat, old(vertical).1 as nat),
            ),
            *final(vertical) == (0usize, 0usize),
    {
        if vertical.0 != 0 || vertical.1 != 0 {
            proof {
                lemma_bundles_view_push(
                    result@,
                    EventBundle::VerticalCursorBuffer(vertical.0, vertical.1),
                );
            }
            result.push(EventBundle::VerticalCursorBuffer(vertical.0, vertical.1));
            *vertical = (0, 0);
        }
    }

    /// Completes the group of horizontal moves, if there are any.
    pub fn flush_horizontal_buffer(result: &mut Vec<EventBundle>, horizontal: &mut (usize, usize))
        ensures
            bundles_view(final(result)@) == flushed_horizontal(
                bundles_view(old(result)@),
                (old(horizontal).0 as nat, old(horizontal).1 as nat),
            ),
            *final(horizontal) == (0usize, 0usize),
    {
        if horizontal.0 != 0 || horizontal.1 != 0 {
            proof {
                lemma_bundles_view_push(
                    result@,
                    EventBundle::HorizontalCursorBuffer(horizontal.0, horizontal.1),
                );
            }
            result.push(EventBundle::HorizontalCursorBuffer(horizontal.0, horizontal.1));
            *horizontal = (0, 0);
        }
    }

    /// Completes the group of the repeated event, if there is one.
    pub fn flush_others_buffer(
        result: &mut Vec<EventBundle>,
        others: &mut Option<(RawEvent, usize)>,
    )
        ensures
            bundles_view(final(result)@) == flushed_others(
                bundles_view(old(result)@),
                counted(*old(others)),
            ),
            *final(others) == None::<(RawEvent, usize)>,
    {
        if let Some((event, count)) = *others {
            proof {
                lemma_bundles_view_push(result@, EventBundle::Others(event, count));
            }
            result.push(EventBundle::Others(event, count));
            *others = None;
        }
    }

    /// Completes the three groups that a typed character ends.
    pub fn flush_non_char_buffers(
        result: &mut Vec<EventBundle>,
        vertical: &mut (usize, usize),
        horizontal: &mut (usize, usize),
        others: &mut Option<(RawEvent, usize)>,
    )
        ensures
            bundles_view(final(result)@) == flushed_others(
                flushed_horizontal(
                    flushed_vertical(
                        bundles_view(old(result)@),
                        (old(vertical).0 as nat, old(vertical).1 as nat),
                    ),
                    (old(horizontal).0 as nat, old(horizontal).1 as nat),
                ),
                counted(*old(others)),
            ),
            *final(vertical) == (0usize, 0usize),
            *final(horizontal) == (0usize, 0usize),
            *final(others) == None::<(RawEvent, usize)>,
    {
        Self::flush_vertical_buffer(result, vertical);
        Self::flush_horizontal_buffer(result, horizontal);
        Self::flush_others_buffer(result, others);
    }

    /// The character that a plain key press types.
    pub fn extract_char(event: &RawEvent) -> (ch: Option<char>)
        ensures
            ch == event.typed_char(),
    {
        TimeBasedOperator::extract_char(event)
    }

    /// `(1, 0)` for an Up key, `(0, 1)` for a Down key.
    pub fn detect_vertical_direction(event: &RawEvent) -> (step: Option<(usize, usize)>)
        ensures
            step matches Some(s) ==> event.vertical_step() == Some((s.0 as nat, s.1 as nat)),
            step is None ==> event.vertical_step() is None,
            step matches Some(s) ==> s.0 + s.1 == 1,
    {
        TimeBasedOperator::detect_vertical_direction(event)
    }

    /// `(1, 0)` for a Left key, `(0, 1)` for a Right key.
    pub fn detect_horizontal_direction(event: &RawEvent) -> (step: Option<(usize, usize)>)
        ensures
            step matches Some(s) ==> event.horizontal_step() == Some((s.0 as nat, s.1 as nat)),
            step is None ==> event.horizontal_step() is None,
            step matches Some(s) ==> s.0 + s.1 == 1,
    {
        TimeBasedOperator::detect_horizontal_direction(event)
    }
}

} // verus!
