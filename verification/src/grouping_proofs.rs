//! What holds of every batch: no group is blank, neighbouring groups could not
//! have been one group, and the resize group stands alone where the first
//! resize of the window came.

use crate::event::{Group, RawEvent};
use crate::grouping::{
    bundled, flushed_chars, flushed_horizontal, flushed_others, flushed_vertical, grouped,
    grouped_keys, scan, scan_plain, Scan,
};
use vstd::prelude::*;

verus! {

impl Group {
    /// A group that stands for no event at all.
    pub open spec fn is_blank(self) -> bool {
        match self {
            Group::KeyBuffer(chars) => chars.len() == 0,
            Group::VerticalCursorBuffer(up, down) => up == 0 && down == 0,
            Group::HorizontalCursorBuffer(left, right) => left == 0 && right == 0,
            Group::LastResize(_, _) => false,
            Group::Others(_, count) => count == 0,
        }
    }

    /// Whether `next` is of the kind that `self` collects: the same variant,
    /// and for repeated events the same event.
    pub open spec fn continues(self, next: Group) -> bool {
        match (self, next) {
            (Group::KeyBuffer(_), Group::KeyBuffer(_)) => true,
            (Group::VerticalCursorBuffer(_, _), Group::VerticalCursorBuffer(_, _)) => true,
            (Group::HorizontalCursorBuffer(_, _), Group::HorizontalCursorBuffer(_, _)) => true,
            (Group::LastResize(_, _), Group::LastResize(_, _)) => true,
            (Group::Others(first, _), Group::Others(second, _)) => first == second,
            _ => false,
        }
    }
}

/// No group of the batch is blank.
pub open spec fn no_blank_group(batch: Seq<Group>) -> bool {
    forall|i: int| 0 <= i < batch.len() ==> !(#[trigger] batch[i]).is_blank()
}

/// No group of the batch is a resize group.
pub open spec fn no_resize_group(batch: Seq<Group>) -> bool {
    forall|i: int| 0 <= i < batch.len() ==> !(#[trigger] batch[i] is LastResize)
}

/// No group of the batch continues the one before it.
pub open spec fn neighbours_differ(batch: Seq<Group>) -> bool {
    forall|i: int| 0 <= i && i + 1 < batch.len() ==> !(#[trigger] batch[i]).continues(batch[i + 1])
}

/// No event of the window is a resize.
pub open spec fn resize_free(events: Seq<RawEvent>) -> bool {
    forall|i: int| 0 <= i < events.len() ==> !(#[trigger] events[i] is Resize)
}

/// The size that the last resize of the window gave.
pub open spec fn last_resize_of(events: Seq<RawEvent>) -> Option<(u16, u16)>
    decreases events.len(),
{
    if events.len() == 0 {
        None
    } else if let RawEvent::Resize(width, height) = events.last() {
        Some((width, height))
    } else {
        last_resize_of(events.drop_last())
    }
}

impl Scan {
    /// The one group under construction, if there is one.
    pub open spec fn pending(self) -> Option<Group> {
        if self.chars.len() > 0 {
            Some(Group::KeyBuffer(self.chars))
        } else if self.vertical != (0nat, 0nat) {
            Some(Group::VerticalCursorBuffer(self.vertical.0, self.vertical.1))
        } else if self.horizontal != (0nat, 0nat) {
            Some(Group::HorizontalCursorBuffer(self.horizontal.0, self.horizontal.1))
        } else {
            match self.others {
                Some((event, count)) => Some(Group::Others(event, count)),
                None => None,
            }
        }
    }

    /// At most one group is under construction, a repeated event has come at
    /// least once, the complete groups hold no blank and no resize group, and
    /// the place of the resize group is known exactly when a resize has come.
    pub open spec fn tidy(self) -> bool {
        &&& self.chars.len() > 0 ==> self.vertical == (0nat, 0nat) && self.horizontal == (
            0nat,
            0nat,
        ) && self.others is None
        &&& self.vertical != (0nat, 0nat) ==> self.horizontal == (0nat, 0nat) && self.others is None
        &&& self.horizontal != (0nat, 0nat) ==> self.others is None
        &&& self.others matches Some((_, count)) ==> count >= 1
        &&& no_blank_group(self.done)
        &&& no_resize_group(self.done)
        &&& self.last_resize is Some <==> self.resize_index is Some
        &&& self.resize_index matches Some(index) ==> index <= self.done.len()
    }

    /// A tidy walk that has met no resize: complete neighbours differ, and
    /// once a group is complete another is under construction that does not
    /// continue it.
    pub open spec fn settled(self) -> bool {
        &&& self.tidy()
        &&& self.last_resize is None
        &&& neighbours_differ(self.done)
        &&& self.done.len() > 0 ==> (self.pending() matches Some(group)
            && !self.done.last().continues(group))
    }

    /// Two walks that agree on the groups under construction.
    pub open spec fn same_pending(self, other: Scan) -> bool {
        &&& self.chars == other.chars
        &&& self.vertical == other.vertical
        &&& self.horizontal == other.horizontal
        &&& self.others == other.others
    }
}

/// Completing everything appends the one group under construction.
proof fn lemma_flush_all_appends_pending(walk: Scan)
    requires
        walk.tidy(),
    ensures
        walk.flush_all().done == (match walk.pending() {
            Some(group) => walk.done.push(group),
            None => walk.done,
        }),
        walk.flush_all().last_resize == walk.last_resize,
        walk.flush_all().resize_index == walk.resize_index,
        walk.flush_all().tidy(),
        walk.flush_all().pending() is None,
{
    let flushed = walk.flush_all();
    match walk.pending() {
        Some(group) => {
            assert(!group.is_blank());
            assert(flushed.done == walk.done.push(group));
            assert forall|i: int| 0 <= i < flushed.done.len() implies !(
            #[trigger] flushed.done[i]).is_blank() && !(flushed.done[i] is LastResize) by {
                if i < walk.done.len() {
                    assert(flushed.done[i] == walk.done[i]);
                }
            }
        },
        None => {},
    }
}

/// One more event keeps a walk tidy.
proof fn lemma_absorb_tidy(walk: Scan, event: RawEvent)
    requires
        walk.tidy(),
    ensures
        walk.absorb(event).tidy(),
        walk.resize_index is Some ==> walk.absorb(event).resize_index == walk.resize_index,
        walk.absorb(event).pending() is Some || event is Resize,
        event is Resize ==> walk.absorb(event).resize_index is Some,
        !(event is Resize) ==> walk.absorb(event).last_resize == walk.last_resize,
        event matches RawEvent::Resize(width, height) ==> walk.absorb(event).last_resize == Some(
            (width, height),
        ),
{
    let next = walk.absorb(event);
    lemma_flush_all_appends_pending(walk);
    assert forall|i: int| 0 <= i < next.done.len() implies !(#[trigger] next.done[i]).is_blank()
        && !(next.done[i] is LastResize) by {
        if i < walk.done.len() {
            assert(next.done[i] == walk.done[i]);
        }
    }
}

/// Every walk is tidy.
proof fn lemma_scan_tidy(events: Seq<RawEvent>)
    ensures
        scan(events).tidy(),
        events.len() > 0 ==> scan(events).pending() is Some || scan(events).resize_index is Some,
        scan(events).last_resize == last_resize_of(events),
    decreases events.len(),
{
    if events.len() > 0 {
        lemma_scan_tidy(events.drop_last());
        lemma_absorb_tidy(scan(events.drop_last()), events.last());
    }
}

/// One more event that is not taken as a resize keeps a walk settled.
proof fn lemma_absorb_settled(walk: Scan, event: RawEvent)
    requires
        walk.settled(),
    ensures
        walk.absorb_key(event).settled(),
        walk.absorb_key(event).pending() is Some,
{
    let next = walk.absorb_key(event);
    lemma_flush_all_appends_pending(walk);
    assert forall|i: int| 0 <= i < next.done.len() implies !(#[trigger] next.done[i]).is_blank()
        && !(next.done[i] is LastResize) by {
        if i < walk.done.len() {
            assert(next.done[i] == walk.done[i]);
        }
    }
    assert(next.pending() is Some);
    assert forall|i: int| 0 <= i && i + 1 < next.done.len() implies !(
    #[trigger] next.done[i]).continues(next.done[i + 1]) by {
        if i + 1 < walk.done.len() {
            assert(next.done[i] == walk.done[i]);
            assert(next.done[i + 1] == walk.done[i + 1]);
        } else {
            assert(next.done[i] == walk.done.last());
        }
    }
}

/// A walk over a window without a resize is settled.
proof fn lemma_scan_settled(events: Seq<RawEvent>)
    requires
        resize_free(events),
    ensures
        scan(events).settled(),
    decreases events.len(),
{
    if events.len() > 0 {
        let front = events.drop_last();
        assert forall|i: int| 0 <= i < front.len() implies !(#[trigger] front[i] is Resize) by {
            assert(front[i] == events[i]);
        }
        lemma_scan_settled(front);
        assert(!(events[events.len() - 1] is Resize));
        lemma_absorb_settled(scan(front), events.last());
    }
}

/// Groups that were complete before a walk began stay in front of whatever
/// one more event completes.
proof fn lemma_absorb_behind_prefix(prefix: Seq<Group>, whole: Scan, tail: Scan, event: RawEvent)
    requires
        whole.done == prefix + tail.done,
        whole.same_pending(tail),
    ensures
        whole.absorb(event).done == prefix + tail.absorb(event).done,
        whole.absorb(event).same_pending(tail.absorb(event)),
        whole.flush_all().done == prefix + tail.flush_all().done,
{
    lemma_flushes_behind_prefix(prefix);
}

/// Completing a group behind a prefix is completing it, behind the prefix.
proof fn lemma_flushes_behind_prefix(prefix: Seq<Group>)
    ensures
        forall|done: Seq<Group>, chars: Seq<char>| #[trigger]
            flushed_chars(prefix + done, chars) == prefix + flushed_chars(done, chars),
        forall|done: Seq<Group>, moves: (nat, nat)| #[trigger]
            flushed_vertical(prefix + done, moves) == prefix + flushed_vertical(done, moves),
        forall|done: Seq<Group>, moves: (nat, nat)| #[trigger]
            flushed_horizontal(prefix + done, moves) == prefix + flushed_horizontal(done, moves),
        forall|done: Seq<Group>, others: Option<(RawEvent, nat)>| #[trigger]
            flushed_others(prefix + done, others) == prefix + flushed_others(done, others),
{
    assert forall|done: Seq<Group>, chars: Seq<char>| #[trigger]
        flushed_chars(prefix + done, chars) == prefix + flushed_chars(done, chars) by {
        assert(flushed_chars(prefix + done, chars) =~= prefix + flushed_chars(done, chars));
    }
    assert forall|done: Seq<Group>, moves: (nat, nat)| #[trigger]
        flushed_vertical(prefix + done, moves) == prefix + flushed_vertical(done, moves) by {
        assert(flushed_vertical(prefix + done, moves) =~= prefix + flushed_vertical(done, moves));
    }
    assert forall|done: Seq<Group>, moves: (nat, nat)| #[trigger]
        flushed_horizontal(prefix + done, moves) == prefix + flushed_horizontal(done, moves) by {
        assert(flushed_horizontal(prefix + done, moves) =~= prefix + flushed_horizontal(
            done,
            moves,
        ));
    }
    assert forall|done: Seq<Group>, others: Option<(RawEvent, nat)>| #[trigger]
        flushed_others(prefix + done, others) == prefix + flushed_others(done, others) by {
        assert(flushed_others(prefix + done, others) =~= prefix + flushed_others(done, others));
    }
}

/// A walk that has passed a resize holds the groups of what came before the
/// resize, then what a fresh walk over the rest holds.
proof fn lemma_scan_behind_resize(
    before: Seq<RawEvent>,
    width: u16,
    height: u16,
    after: Seq<RawEvent>,
)
    ensures
        scan(before + seq![RawEvent::Resize(width, height)] + after).done == grouped_keys(before)
            + scan(after).done,
        scan(before + seq![RawEvent::Resize(width, height)] + after).same_pending(scan(after)),
        scan(before + seq![RawEvent::Resize(width, height)] + after).resize_index == (match scan(
            before,
        ).resize_index {
            Some(index) => Some(index),
            None => Some(grouped_keys(before).len()),
        }),
    decreases after.len(),
{
    let resize = RawEvent::Resize(width, height);
    let whole = before + seq![resize] + after;
    if after.len() == 0 {
        assert(whole.drop_last() =~= before);
        assert(whole.last() == resize);
        lemma_scan_tidy(before);
        lemma_flush_all_appends_pending(scan(before));
        assert(scan(whole).done =~= grouped_keys(before) + scan(after).done);
    } else {
        assert(whole.drop_last() =~= before + seq![resize] + after.drop_last());
        assert(whole.last() == after.last());
        lemma_scan_behind_resize(before, width, height, after.drop_last());
        lemma_scan_tidy(whole.drop_last());
        lemma_absorb_tidy(scan(whole.drop_last()), after.last());
        lemma_absorb_behind_prefix(
            grouped_keys(before),
            scan(whole.drop_last()),
            scan(after.drop_last()),
            after.last(),
        );
    }
}

/// A resize only ends the group under construction: the groups of a window
/// around a resize, its resize group apart, are those of what came before it
/// and then those of what came after it.
pub proof fn lemma_resize_cuts_groups(
    before: Seq<RawEvent>,
    width: u16,
    height: u16,
    after: Seq<RawEvent>,
)
    ensures
        grouped_keys(before + seq![RawEvent::Resize(width, height)] + after) == grouped_keys(before)
            + grouped_keys(after),
{
    let whole = before + seq![RawEvent::Resize(width, height)] + after;
    lemma_scan_behind_resize(before, width, height, after);
    lemma_absorb_behind_prefix(grouped_keys(before), scan(whole), scan(after), after.last());
}

/// No batch holds a blank group: no empty key buffer, no cursor buffer of
/// zero moves, no event repeated zero times. The key groups of a window hold
/// no resize group. A window that is not empty gives a batch that is not
/// empty.
pub proof fn lemma_batch_has_no_blank_group(events: Seq<RawEvent>)
    ensures
        no_blank_group(grouped(events)),
        no_blank_group(grouped_keys(events)),
        no_resize_group(grouped_keys(events)),
        events.len() > 0 ==> grouped(events).len() > 0,
{
    let walk = scan(events);
    lemma_scan_tidy(events);
    lemma_flush_all_appends_pending(walk);
    let keys = grouped_keys(events);
    let batch = grouped(events);
    assert forall|i: int| 0 <= i < batch.len() implies !(#[trigger] batch[i]).is_blank() by {
        match (walk.last_resize, walk.resize_index) {
            (Some((width, height)), Some(index)) => {
                if i < index {
                    assert(batch[i] == keys[i]);
                } else if i > index {
                    assert(batch[i] == keys[i - 1]);
                }
            },
            _ => {},
        }
    }
}

/// The batch of a window without a resize holds no resize group, and none of
/// its groups continues the one before it: neighbours are of different
/// variants, or repeat different events.
pub proof fn lemma_batch_without_resize(events: Seq<RawEvent>)
    requires
        resize_free(events),
    ensures
        grouped(events) == grouped_keys(events),
        no_resize_group(grouped(events)),
        neighbours_differ(grouped(events)),
{
    let walk = scan(events);
    lemma_scan_settled(events);
    lemma_flush_all_appends_pending(walk);
    let batch = grouped(events);
    assert forall|i: int| 0 <= i && i + 1 < batch.len() implies !(#[trigger] batch[i]).continues(
        batch[i + 1],
    ) by {
        if i + 1 < walk.done.len() {
            assert(batch[i] == walk.done[i]);
            assert(batch[i + 1] == walk.done[i + 1]);
        } else {
            assert(batch[i] == walk.done.last());
        }
    }
}

/// The batch of a window whose first resize comes after `before`: the batch
/// of `before`, then the one resize group, which carries the size of the
/// window's last resize, then the key groups of `after`. So the resize group
/// stands at the index that the batch had reached when the first resize
/// came, and no other group is a resize group. Neighbouring groups differ up
/// to and around the resize group; behind it they differ exactly when those
/// of the key groups of `after` do.
pub proof fn lemma_batch_with_resize(
    before: Seq<RawEvent>,
    width: u16,
    height: u16,
    after: Seq<RawEvent>,
)
    requires
        resize_free(before),
    ensures
        last_resize_of(seq![RawEvent::Resize(width, height)] + after) matches Some(size)
            && grouped(before + seq![RawEvent::Resize(width, height)] + after) == grouped(before)
            + seq![Group::LastResize(size.0, size.1)] + grouped_keys(after),
        no_resize_group(grouped(before)),
        no_resize_group(grouped_keys(after)),
        neighbours_differ(grouped(before)),
        neighbours_differ(grouped(before + seq![RawEvent::Resize(width, height)] + after))
            <==> neighbours_differ(grouped_keys(after)),
{
    let resize = RawEvent::Resize(width, height);
    let whole = before + seq![resize] + after;
    let walk = scan(whole);
    let front = grouped(before);
    let back = grouped_keys(after);
    lemma_batch_without_resize(before);
    lemma_batch_has_no_blank_group(after);
    lemma_scan_settled(before);
    lemma_scan_tidy(before);
    lemma_scan_tidy(whole);
    lemma_scan_behind_resize(before, width, height, after);
    lemma_resize_cuts_groups(before, width, height, after);
    lemma_last_resize_behind(before, seq![resize] + after);
    assert(before + (seq![resize] + after) =~= whole);
    lemma_last_resize_is_some(seq![resize], after);
    lemma_flush_all_appends_pending(walk);
    let size = last_resize_of(seq![resize] + after).unwrap();
    let mark = Group::LastResize(size.0, size.1);
    let batch = grouped(whole);
    assert(batch =~= front + seq![mark] + back);
    if neighbours_differ(back) {
        assert forall|i: int| 0 <= i && i + 1 < batch.len() implies !(
        #[trigger] batch[i]).continues(batch[i + 1]) by {
            if i + 1 < front.len() {
                assert(batch[i] == front[i] && batch[i + 1] == front[i + 1]);
            } else if i + 1 == front.len() {
                assert(batch[i] == front[i] && batch[i + 1] == mark);
            } else if i == front.len() {
                assert(batch[i] == mark && batch[i + 1] == back[0]);
            } else {
                assert(batch[i] == back[i - front.len() - 1]);
                assert(batch[i + 1] == back[i - front.len()]);
            }
        }
    }
    if neighbours_differ(batch) {
        assert forall|i: int| 0 <= i && i + 1 < back.len() implies !(#[trigger] back[i]).continues(
            back[i + 1],
        ) by {
            assert(back[i] == batch[front.len() + 1 + i]);
            assert(back[i + 1] == batch[front.len() + 1 + i + 1]);
        }
    }
}

/// The last resize of a window is that of its later part, where that part
/// holds one.
proof fn lemma_last_resize_behind(before: Seq<RawEvent>, after: Seq<RawEvent>)
    ensures
        last_resize_of(after) is Some ==> last_resize_of(before + after) == last_resize_of(after),
    decreases after.len(),
{
    if after.len() > 0 {
        let whole = before + after;
        assert(whole.drop_last() =~= before + after.drop_last());
        assert(whole.last() == after.last());
        lemma_last_resize_behind(before, after.drop_last());
    }
}

/// A window that holds a resize has a last resize.
proof fn lemma_last_resize_is_some(before: Seq<RawEvent>, after: Seq<RawEvent>)
    requires
        last_resize_of(before) is Some,
    ensures
        last_resize_of(before + after) is Some,
    decreases after.len(),
{
    if after.len() == 0 {
        assert(before + after =~= before);
    } else {
        let whole = before + after;
        assert(whole.drop_last() =~= before + after.drop_last());
        assert(whole.last() == after.last());
        lemma_last_resize_is_some(before, after.drop_last());
    }
}

/// A walk in which a resize counts as any other event is settled.
proof fn lemma_scan_plain_settled(events: Seq<RawEvent>)
    ensures
        scan_plain(events).settled(),
        events.len() > 0 ==> scan_plain(events).pending() is Some,
        resize_free(events) ==> scan_plain(events) == scan(events),
    decreases events.len(),
{
    if events.len() > 0 {
        let front = events.drop_last();
        lemma_scan_plain_settled(front);
        lemma_absorb_settled(scan_plain(front), events.last());
        if resize_free(events) {
            assert forall|i: int| 0 <= i < front.len() implies !(#[trigger] front[i] is Resize) by {
                assert(front[i] == events[i]);
            }
            assert(!(events[events.len() - 1] is Resize));
        }
    }
}

/// Where a resize counts as any other event, no group of a window is blank or
/// a resize group, none continues the one before it, and a window without a
/// resize gives the groups of its batch.
pub proof fn lemma_bundled_groups(events: Seq<RawEvent>)
    ensures
        no_blank_group(bundled(events)),
        no_resize_group(bundled(events)),
        neighbours_differ(bundled(events)),
        events.len() > 0 ==> bundled(events).len() > 0,
        resize_free(events) ==> bundled(events) == grouped(events),
{
    let walk = scan_plain(events);
    lemma_scan_plain_settled(events);
    lemma_flush_all_appends_pending(walk);
    let batch = bundled(events);
    assert forall|i: int| 0 <= i && i + 1 < batch.len() implies !(#[trigger] batch[i]).continues(
        batch[i + 1],
    ) by {
        if i + 1 < walk.done.len() {
            assert(batch[i] == walk.done[i]);
            assert(batch[i + 1] == walk.done[i + 1]);
        } else {
            assert(batch[i] == walk.done.last());
        }
    }
    if resize_free(events) {
        lemma_batch_without_resize(events);
    }
}

/// What a window or a batch amounts to: the characters typed, in order, and
/// how many moves there are in each direction and how many other events.
pub struct Tally {
    /// The characters typed, in order.
    pub typed: Seq<char>,
    /// Number of Up keys.
    pub up: nat,
    /// Number of Down keys.
    pub down: nat,
    /// Number of Left keys.
    pub left: nat,
    /// Number of Right keys.
    pub right: nat,
    /// Number of other events, resizes apart.
    pub other: nat,
}

impl Tally {
    /// The tally of nothing.
    pub open spec fn zero() -> Tally {
        Tally { typed: Seq::empty(), up: 0, down: 0, left: 0, right: 0, other: 0 }
    }

    /// The tally of `self` followed by `next`.
    pub open spec fn plus(self, next: Tally) -> Tally {
        Tally {
            typed: self.typed + next.typed,
            up: self.up + next.up,
            down: self.down + next.down,
            left: self.left + next.left,
            right: self.right + next.right,
            other: self.other + next.other,
        }
    }
}

impl RawEvent {
    /// What one event amounts to. A resize amounts to nothing.
    pub open spec fn tally(self) -> Tally {
        if self is Resize {
            Tally::zero()
        } else if let Some(ch) = self.typed_char() {
            Tally { typed: seq![ch], ..Tally::zero() }
        } else if let Some(step) = self.vertical_step() {
            Tally { up: step.0, down: step.1, ..Tally::zero() }
        } else if let Some(step) = self.horizontal_step() {
            Tally { left: step.0, right: step.1, ..Tally::zero() }
        } else {
            Tally { other: 1, ..Tally::zero() }
        }
    }
}

impl Group {
    /// What one group amounts to. A resize group amounts to nothing.
    pub open spec fn tally(self) -> Tally {
        match self {
            Group::KeyBuffer(chars) => Tally { typed: chars, ..Tally::zero() },
            Group::VerticalCursorBuffer(up, down) => Tally { up, down, ..Tally::zero() },
            Group::HorizontalCursorBuffer(left, right) => Tally { left, right, ..Tally::zero() },
            Group::LastResize(_, _) => Tally::zero(),
            Group::Others(_, count) => Tally { other: count, ..Tally::zero() },
        }
    }
}

/// What a window amounts to.
pub open spec fn window_tally(events: Seq<RawEvent>) -> Tally
    decreases events.len(),
{
    if events.len() == 0 {
        Tally::zero()
    } else {
        window_tally(events.drop_last()).plus(events.last().tally())
    }
}

/// What a batch amounts to.
pub open spec fn batch_tally(batch: Seq<Group>) -> Tally
    decreases batch.len(),
{
    if batch.len() == 0 {
        Tally::zero()
    } else {
        batch_tally(batch.drop_last()).plus(batch.last().tally())
    }
}

impl Scan {
    /// What a walk amounts to: its complete groups and the one under
    /// construction.
    pub open spec fn tally(self) -> Tally {
        batch_tally(self.done).plus(
            Tally {
                typed: self.chars,
                up: self.vertical.0,
                down: self.vertical.1,
                left: self.horizontal.0,
                right: self.horizontal.1,
                other: match self.others {
                    Some((_, count)) => count,
                    None => 0,
                },
            },
        )
    }
}

/// Two tallies with the same characters and the same counts are the same.
proof fn lemma_tally_equal(first: Tally, second: Tally)
    requires
        first.typed =~= second.typed,
        first.up == second.up,
        first.down == second.down,
        first.left == second.left,
        first.right == second.right,
        first.other == second.other,
    ensures
        first == second,
{
}

/// A batch with one more group amounts to the batch and the group.
proof fn lemma_batch_tally_push(batch: Seq<Group>, group: Group)
    ensures
        batch_tally(batch.push(group)) == batch_tally(batch).plus(group.tally()),
{
    assert(batch.push(group).drop_last() =~= batch);
}

/// A resize group, wherever it is put, adds nothing to what a batch amounts
/// to.
proof fn lemma_batch_tally_insert_resize(
    batch: Seq<Group>,
    index: int,
    width: u16,
    height: u16,
)
    requires
        0 <= index <= batch.len(),
    ensures
        batch_tally(batch.insert(index, Group::LastResize(width, height))) == batch_tally(batch),
    decreases batch.len() - index,
{
    let mark = Group::LastResize(width, height);
    let marked = batch.insert(index, mark);
    if index == batch.len() {
        assert(marked =~= batch.push(mark));
        lemma_batch_tally_push(batch, mark);
        lemma_tally_equal(batch_tally(marked), batch_tally(batch));
    } else {
        assert(marked.drop_last() =~= batch.drop_last().insert(index, mark));
        assert(marked.last() == batch.last());
        lemma_batch_tally_insert_resize(batch.drop_last(), index, width, height);
    }
}

/// Completing groups changes nothing of what a walk amounts to.
proof fn lemma_flush_keeps_tally(walk: Scan)
    requires
        walk.tidy(),
    ensures
        walk.flush_chars().tally() == walk.tally(),
        walk.flush_vertical().tally() == walk.tally(),
        walk.flush_horizontal().tally() == walk.tally(),
        walk.flush_others().tally() == walk.tally(),
        walk.flush_all().tally() == walk.tally(),
        batch_tally(walk.flush_all().done) == walk.tally(),
{
    lemma_flush_all_appends_pending(walk);
    if walk.chars.len() > 0 {
        lemma_batch_tally_push(walk.done, Group::KeyBuffer(walk.chars));
    }
    if walk.vertical != (0nat, 0nat) {
        lemma_batch_tally_push(
            walk.done,
            Group::VerticalCursorBuffer(walk.vertical.0, walk.vertical.1),
        );
    }
    if walk.horizontal != (0nat, 0nat) {
        lemma_batch_tally_push(
            walk.done,
            Group::HorizontalCursorBuffer(walk.horizontal.0, walk.horizontal.1),
        );
    }
    if let Some((event, count)) = walk.others {
        lemma_batch_tally_push(walk.done, Group::Others(event, count));
    }
    lemma_tally_equal(walk.flush_chars().tally(), walk.tally());
    lemma_tally_equal(walk.flush_vertical().tally(), walk.tally());
    lemma_tally_equal(walk.flush_horizontal().tally(), walk.tally());
    lemma_tally_equal(walk.flush_others().tally(), walk.tally());
    lemma_tally_equal(walk.flush_all().tally(), walk.tally());
    lemma_tally_equal(batch_tally(walk.flush_all().done), walk.tally());
}

/// One more event adds what it amounts to.
proof fn lemma_absorb_adds_tally(walk: Scan, event: RawEvent)
    requires
        walk.tidy(),
    ensures
        walk.absorb(event).tally() == walk.tally().plus(event.tally()),
{
    let next = walk.absorb(event);
    lemma_flush_all_appends_pending(walk);
    lemma_flush_keeps_tally(walk);
    if event is Resize {
    } else if event.typed_char() is Some {
        if walk.chars.len() == 0 {
            lemma_flush_keeps_tally(walk.flush_vertical());
            lemma_flush_keeps_tally(walk.flush_vertical().flush_horizontal());
        }
    } else if event.vertical_step() is Some {
        if walk.vertical == (0nat, 0nat) {
            lemma_flush_keeps_tally(walk.flush_chars());
            lemma_flush_keeps_tally(walk.flush_chars().flush_horizontal());
        }
    } else if event.horizontal_step() is Some {
        if walk.horizontal == (0nat, 0nat) {
            lemma_flush_keeps_tally(walk.flush_chars());
            lemma_flush_keeps_tally(walk.flush_chars().flush_vertical());
        }
    } else {
        lemma_flush_keeps_tally(walk.flush_chars());
        lemma_flush_keeps_tally(walk.flush_chars().flush_vertical());
        lemma_flush_keeps_tally(walk.flush_chars().flush_vertical().flush_horizontal());
    }
    lemma_tally_equal(next.tally(), walk.tally().plus(event.tally()));
}

/// Grouping loses nothing and adds nothing: a batch amounts to what its
/// window amounts to. The characters of its key buffers, one buffer after
/// another, are the characters typed in the window, in order; its cursor
/// buffers count the Up, Down, Left and Right keys of the window; and its
/// repeat counts add up to the number of the window's other events, resizes
/// apart.
pub proof fn lemma_batch_amounts_to_window(events: Seq<RawEvent>)
    ensures
        batch_tally(grouped(events)) == window_tally(events),
        batch_tally(grouped_keys(events)) == window_tally(events),
{
    lemma_scan_amounts_to_window(events);
    let walk = scan(events);
    lemma_scan_tidy(events);
    lemma_flush_all_appends_pending(walk);
    lemma_flush_keeps_tally(walk);
    match (walk.last_resize, walk.resize_index) {
        (Some((width, height)), Some(index)) => {
            lemma_batch_tally_insert_resize(walk.flush_all().done, index as int, width, height);
        },
        _ => {},
    }
}

/// A walk amounts to what the events that it has met amount to.
proof fn lemma_scan_amounts_to_window(events: Seq<RawEvent>)
    ensures
        scan(events).tally() == window_tally(events),
    decreases events.len(),
{
    if events.len() > 0 {
        lemma_scan_amounts_to_window(events.drop_last());
        lemma_scan_tidy(events.drop_last());
        lemma_absorb_adds_tally(scan(events.drop_last()), events.last());
    } else {
        lemma_tally_equal(scan(events).tally(), window_tally(events));
    }
}

} // verus!
