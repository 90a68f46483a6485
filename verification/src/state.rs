//! A cell that holds a current value and, at most, the one value before it.

use vstd::pervasive::cloned;
use vstd::prelude::*;

verus! {

/// What a `StateHistory` holds, as a mathematical value.
pub struct Snapshot<T> {
    /// The value in force.
    pub current: T,
    /// The value that the last update replaced, until it is rolled back to.
    pub previous: Option<T>,
}

impl<T> Snapshot<T> {
    /// A cell that has seen no update.
    pub open spec fn fresh(initial: T) -> Snapshot<T> {
        Snapshot { current: initial, previous: None }
    }

    /// The cell after `new_state` is put in force: the value it replaces is
    /// the only one kept.
    pub open spec fn update(self, new_state: T) -> Snapshot<T> {
        Snapshot { current: new_state, previous: Some(self.current) }
    }

    /// Whether there is a value to go back to.
    pub open spec fn can_rollback(self) -> bool {
        self.previous is Some
    }

    /// The cell after a rollback: the kept value is in force again and
    /// nothing is kept; with nothing kept the cell is as it was.
    pub open spec fn rollback(self) -> Snapshot<T> {
        match self.previous {
            Some(previous) => Snapshot { current: previous, previous: None },
            None => self,
        }
    }
}

/// A value with a one-deep history.
pub struct StateHistory<T> {
    current: T,
    previous: Option<T>,
}

impl<T> View for StateHistory<T> {
    type V = Snapshot<T>;

    closed spec fn view(&self) -> Snapshot<T> {
        Snapshot { current: self.current, previous: self.previous }
    }
}

impl<T: Clone> StateHistory<T> {
    /// A cell that holds `initial` and nothing before it.
    pub fn new(initial: T) -> (cell: Self)
        ensures
            cell@ == Snapshot::fresh(initial),
    {
        Self { current: initial, previous: None }
    }

    /// The value in force.
    pub fn current(&self) -> (value: &T)
        ensures
            *value == self@.current,
    {
        &self.current
    }

    /// Whether a rollback would change the cell.
    pub fn can_rollback(&self) -> (yes: bool)
        ensures
            yes == self@.can_rollback(),
    {
        self.previous.is_some()
    }

    /// Puts `new_state` in force and keeps the value it replaces.
    pub fn update(&mut self, new_state: T)
        ensures
            final(self)@ == old(self)@.update(new_state),
    {
        let mut replaced = new_state;
        std::mem::swap(&mut self.current, &mut replaced);
        self.previous = Some(replaced);
    }

    /// Goes back to the kept value, if there is one, and says whether there
    /// was.
    pub fn rollback(&mut self) -> (done: bool)
        ensures
            done == old(self)@.can_rollback(),
            final(self)@ == old(self)@.rollback(),
    {
        let mut kept: Option<T> = None;
        std::mem::swap(&mut self.previous, &mut kept);
        match kept {
            Some(previous) => {
                self.current = previous;
                true
            },
            None => false,
        }
    }

    /// Hands a clone of the value in force to `f`, puts the value that `f`
    /// gives back in force, and returns what `f` returns beside it.
    pub fn current_mut<F, R>(&mut self, f: F) -> (result: R) where F: FnOnce(T) -> (T, R)
        requires
            forall|seen: T| cloned(old(self)@.current, seen) ==> f.requires((seen,)),
        ensures
            exists|seen: T|
                cloned(old(self)@.current, seen) && f.ensures(
                    (seen,),
                    (final(self)@.current, result),
                ),
            final(self)@.previous == Some(old(self)@.current),
    {
        let seen = self.current.clone();
        assert(cloned(old(self)@.current, seen));
        let (new_state, result) = f(seen);
        self.update(new_state);
        assert(f.ensures((seen,), (self@.current, result)));
        result
    }
}

/// An update followed by a rollback puts the first value back in force, and
/// the rollback changes the cell. A second rollback finds nothing to go back
/// to and leaves the cell as it is.
pub proof fn lemma_update_then_rollback<T>(cell: Snapshot<T>, new_state: T)
    ensures
        cell.update(new_state).can_rollback(),
        cell.update(new_state).rollback() == Snapshot::fresh(cell.current),
        !cell.update(new_state).rollback().can_rollback(),
        cell.update(new_state).rollback().rollback() == cell.update(new_state).rollback(),
{
}

/// Only the value that the last update replaced is kept: after two updates a
/// rollback gives the value of the first update, and the value before it is
/// out of reach.
pub proof fn lemma_history_is_one_deep<T>(cell: Snapshot<T>, first: T, second: T)
    ensures
        cell.update(first).update(second).rollback() == Snapshot::fresh(first),
        !cell.update(first).update(second).rollback().can_rollback(),
{
}

} // verus!
