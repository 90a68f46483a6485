//! Key bindings over batches: which edits of the text a batch of groups
//! stands for.

use crate::editor::pressed;
use crate::event::{batch_view, Event, Group, KeyCode, KeyEventKind, RawEvent, CONTROL};
use vstd::prelude::*;

verus! {

/// One edit of the text, as a mathematical value.
pub enum EditModel {
    /// Put the characters at the cursor, one after another.
    Type(Seq<char>),
    /// Move the cursor back by the first number and on by the second.
    Shift(nat, nat),
    /// Move the cursor to the head of the text.
    MoveToHead,
    /// Move the cursor to the tail of the text.
    MoveToTail,
    /// Erase the character before the cursor, this many times.
    Erase(nat),
    /// Erase the whole text.
    EraseAll,
}

/// One edit of the text.
#[derive(Debug, Clone, PartialEq)]
pub enum Edit {
    /// Put the characters at the cursor, one after another, inserting or
    /// overwriting as the editor's mode says.
    Type(Vec<char>),
    /// Move the cursor back by the first number and on by the second.
    Shift(usize, usize),
    /// Move the cursor to the head of the text.
    MoveToHead,
    /// Move the cursor to the tail of the text.
    MoveToTail,
    /// Erase the character before the cursor, this many times.
    Erase(usize),
    /// Erase the whole text.
    EraseAll,
}

impl View for Edit {
    type V = EditModel;

    open spec fn view(&self) -> EditModel {
        match *self {
            Edit::Type(chars) => EditModel::Type(chars@),
            Edit::Shift(backward, forward) => EditModel::Shift(backward as nat, forward as nat),
            Edit::MoveToHead => EditModel::MoveToHead,
            Edit::MoveToTail => EditModel::MoveToTail,
            Edit::Erase(times) => EditModel::Erase(times as nat),
            Edit::EraseAll => EditModel::EraseAll,
        }
    }
}

/// The edits of a list, in order, as mathematical values.
pub open spec fn edits_view(edits: Seq<Edit>) -> Seq<EditModel> {
    Seq::new(edits.len(), |i: int| edits[i]@)
}

/// The edit that the default binding gives a group: typed characters are
/// put at the cursor, horizontal moves shift it, and of the other events
/// control with `a` and `e` go to head and tail, Backspace erases as many
/// characters as it was pressed, and control with `u` erases all. Vertical
/// moves, resizes and all other events are bound to nothing.
pub open spec fn default_edit(group: Group) -> Option<EditModel> {
    match group {
        Group::KeyBuffer(chars) => Some(EditModel::Type(chars)),
        Group::HorizontalCursorBuffer(left, right) => Some(EditModel::Shift(left, right)),
        Group::Others(event, times) => if pressed(event, CONTROL) == Some(KeyCode::Char('a')) {
            Some(EditModel::MoveToHead)
        } else if pressed(event, CONTROL) == Some(KeyCode::Char('e')) {
            Some(EditModel::MoveToTail)
        } else if pressed(event, 0) == Some(KeyCode::Backspace) {
            Some(EditModel::Erase(times))
        } else if pressed(event, CONTROL) == Some(KeyCode::Char('u')) {
            Some(EditModel::EraseAll)
        } else {
            None
        },
        _ => None,
    }
}

/// The edit that the movement binding gives a group: horizontal moves
/// shift the cursor, and every other group is bound to nothing.
pub open spec fn movement_edit(group: Group) -> Option<EditModel> {
    match group {
        Group::HorizontalCursorBuffer(left, right) => Some(EditModel::Shift(left, right)),
        _ => None,
    }
}

/// The edits that the default binding gives a batch: those of its groups,
/// in order.
pub open spec fn default_edits(batch: Seq<Group>) -> Seq<EditModel>
    decreases batch.len(),
{
    if batch.len() == 0 {
        Seq::empty()
    } else {
        match default_edit(batch.last()) {
            Some(edit) => default_edits(batch.drop_last()).push(edit),
            None => default_edits(batch.drop_last()),
        }
    }
}

/// The edits that the movement binding gives a batch: those of its groups,
/// in order.
pub open spec fn movement_edits(batch: Seq<Group>) -> Seq<EditModel>
    decreases batch.len(),
{
    if batch.len() == 0 {
        Seq::empty()
    } else {
        match movement_edit(batch.last()) {
            Some(edit) => movement_edits(batch.drop_last()).push(edit),
            None => movement_edits(batch.drop_last()),
        }
    }
}

/// The key of a key press with exactly the modifiers `modifiers` and no
/// keyboard state reported.
fn pressed_key(event: &RawEvent, modifiers: u8) -> (code: Option<KeyCode>)
    ensures
        code == pressed(*event, modifiers),
{
    match event {
        RawEvent::Key(key) => {
            if key.modifiers.bits == modifiers && matches!(key.kind, KeyEventKind::Press)
                && key.state.bits == 0 {
                Some(key.code)
            } else {
                None
            }
        },
        _ => None,
    }
}

/// A copy of the characters.
fn copied(chars: &Vec<char>) -> (copy: Vec<char>)
    ensures
        copy@ == chars@,
{
    let mut copy: Vec<char> = Vec::new();
    let mut i: usize = 0;
    while i < chars.len()
        invariant
            i <= chars.len(),
            copy@ == chars@.take(i as int),
        decreases chars.len() - i,
    {
        copy.push(chars[i]);
        assert(chars@.take(i + 1) =~= chars@.take(i as int).push(chars@[i as int]));
        i += 1;
    }
    assert(chars@.take(i as int) =~= chars@);
    copy
}

/// The edit that the default binding gives one group.
fn default_for(group: &Event) -> (edit: Option<Edit>)
    ensures
        (match edit {
            Some(edit) => Some(edit@),
            None => None,
        }) == default_edit(group@),
{
    match group {
        Event::KeyBuffer(chars) => Some(Edit::Type(copied(chars))),
        Event::HorizontalCursorBuffer(left, right) => Some(Edit::Shift(*left, *right)),
        Event::Others(event, times) => {
            let with_control = pressed_key(event, CONTROL);
            let alone = pressed_key(event, 0);
            if matches!(with_control, Some(KeyCode::Char('a'))) {
                Some(Edit::MoveToHead)
            } else if matches!(with_control, Some(KeyCode::Char('e'))) {
                Some(Edit::MoveToTail)
            } else if matches!(alone, Some(KeyCode::Backspace)) {
                Some(Edit::Erase(*times))
            } else if matches!(with_control, Some(KeyCode::Char('u'))) {
                Some(Edit::EraseAll)
            } else {
                None
            }
        },
        _ => None,
    }
}

/// The default binding over batches: the edits that a batch stands for, in
/// the order of its groups.
pub fn default(event_buffer: &Vec<Event>) -> (edits: Vec<Edit>)
    ensures
        edits_view(edits@) == default_edits(batch_view(event_buffer@)),
{
    let mut edits: Vec<Edit> = Vec::new();
    let mut i: usize = 0;
    assert(edits_view(edits@) =~= Seq::<EditModel>::empty());
    assert(batch_view(event_buffer@.take(0)) =~= Seq::<Group>::empty());
    while i < event_buffer.len()
        invariant
            i <= event_buffer.len(),
            edits_view(edits@) == default_edits(batch_view(event_buffer@.take(i as int))),
        decreases event_buffer.len() - i,
    {
        proof {
            let next = batch_view(event_buffer@.take(i + 1));
            assert(next.drop_last() =~= batch_view(event_buffer@.take(i as int)));
            assert(next.last() == event_buffer@[i as int]@);
        }
        match default_for(&event_buffer[i]) {
            Some(edit) => {
                assert(edits_view(edits@.push(edit)) =~= edits_view(edits@).push(edit@));
                edits.push(edit);
            },
            None => {},
        }
        i += 1;
    }
    assert(event_buffer@.take(i as int) =~= event_buffer@);
    edits
}

/// The movement binding over batches: a shift of the cursor for each group
/// of horizontal moves, in the order of the groups.
pub fn movement(event_buffer: &Vec<Event>) -> (edits: Vec<Edit>)
    ensures
        edits_view(edits@) == movement_edits(batch_view(event_buffer@)),
{
    let mut edits: Vec<Edit> = Vec::new();
    let mut i: usize = 0;
    assert(edits_view(edits@) =~= Seq::<EditModel>::empty());
    assert(batch_view(event_buffer@.take(0)) =~= Seq::<Group>::empty());
    while i < event_buffer.len()
        invariant
            i <= event_buffer.len(),
            edits_view(edits@) == movement_edits(batch_view(event_buffer@.take(i as int))),
        decreases event_buffer.len() - i,
    {
        proof {
            let next = batch_view(event_buffer@.take(i + 1));
            assert(next.drop_last() =~= batch_view(event_buffer@.take(i as int)));
            assert(next.last() == event_buffer@[i as int]@);
        }
        match &event_buffer[i] {
            Event::HorizontalCursorBuffer(left, right) => {
                let edit = Edit::Shift(*left, *right);
                assert(edits_view(edits@.push(edit)) =~= edits_view(edits@).push(edit@));
                edits.push(edit);
            },
            _ => {},
        }
        i += 1;
    }
    assert(event_buffer@.take(i as int) =~= event_buffer@);
    edits
}

} // verus!
