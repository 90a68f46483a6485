//! Debouncing: of the values that arrive in quick succession only the last
//! is kept, and it goes out once nothing has arrived for the delay.

use vstd::prelude::*;

verus! {

/// What wakes a debouncer's loop.
pub enum Pulse<T> {
    /// The input gave one more value.
    Received(T),
    /// The input has ended.
    Closed,
    /// The delay has passed without a value.
    Elapsed,
}

/// What a debouncer's loop does after a wake.
pub struct Release<T> {
    /// The value to send on, if there is one.
    pub emit: Option<T>,
    /// Whether the loop ends.
    pub stop: bool,
}

/// The value that is kept after `values` have arrived in this order on top
/// of `kept`: the last of them, or `kept` where none arrived.
pub open spec fn kept_after<T>(kept: Option<T>, values: Seq<T>) -> Option<T> {
    if values.len() == 0 {
        kept
    } else {
        Some(values.last())
    }
}

/// A debouncer: the last value seen since the last emission, if any.
pub struct Debouncer<T> {
    last: Option<T>,
}

impl<T> View for Debouncer<T> {
    type V = Option<T>;

    closed spec fn view(&self) -> Option<T> {
        self.last
    }
}

impl<T> Debouncer<T> {
    /// A debouncer that has seen nothing.
    pub fn new() -> (debouncer: Self)
        ensures
            debouncer@ == None::<T>,
    {
        Debouncer { last: None }
    }

    /// Keeps `value` in place of whatever was kept.
    pub fn offer(&mut self, value: T)
        ensures
            final(self)@ == Some(value),
            final(self)@ == kept_after(old(self)@, seq![value]),
    {
        self.last = Some(value);
    }

    /// The delay has passed: hands out the kept value, if there is one, and
    /// keeps nothing.
    pub fn elapse(&mut self) -> (emit: Option<T>)
        ensures
            emit == old(self)@,
            final(self)@ == None::<T>,
    {
        let mut kept: Option<T> = None;
        std::mem::swap(&mut self.last, &mut kept);
        kept
    }

    /// One turn of the debouncer's loop. A value is kept in place of the one
    /// before. When the delay passes the kept value goes out. When the input
    /// ends the loop stops and nothing goes out.
    pub fn step(&mut self, pulse: Pulse<T>) -> (release: Release<T>)
        ensures
            match pulse {
                Pulse::Received(value) => {
                    &&& final(self)@ == Some(value)
                    &&& release.emit is None
                    &&& !release.stop
                },
                Pulse::Elapsed => {
                    &&& final(self)@ == None::<T>
                    &&& release.emit == old(self)@
                    &&& !release.stop
                },
                Pulse::Closed => {
                    &&& final(self)@ == old(self)@
                    &&& release.emit is None
                    &&& release.stop
                },
            },
    {
        match pulse {
            Pulse::Received(value) => {
                self.offer(value);
                Release { emit: None, stop: false }
            },
            Pulse::Elapsed => {
                let emit = self.elapse();
                Release { emit, stop: false }
            },
            Pulse::Closed => Release { emit: None, stop: true },
        }
    }
}

/// Values that arrive one after another leave the same value kept as if they
/// had arrived together: the last one.
pub proof fn lemma_kept_after_one_more<T>(kept: Option<T>, values: Seq<T>, value: T)
    ensures
        kept_after(kept_after(kept, values), seq![value]) == kept_after(kept, values.push(value)),
        kept_after(kept, values.push(value)) == Some(value),
{
}

} // verus!
