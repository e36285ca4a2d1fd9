//! The key event channel: a bounded queue between the scanner, which must
//! never wait, and the transmitter. A full queue drops the event that comes
//! in, and counts it.

use crate::event::KeyEvent;
use embassy_sync::blocking_mutex::raw::CriticalSectionRawMutex;
use embassy_sync::channel::Channel;
use vstd::prelude::*;

verus! {

/// The bounded channel of `embassy_sync` that carries the key events: a
/// `Channel` for 16 of them.
#[verifier::external_body]
pub struct EventQueue {
    inner: Channel<CriticalSectionRawMutex, KeyEvent, 16>,
}

/// How many events the channel holds at most.
pub const KEY_CHANNEL_CAPACITY: usize = 16;

/// The events that wait in the `Channel` of `embassy_sync`, oldest first:
/// what `try_send` has put in and `try_receive` has not yet taken out.
pub uninterp spec fn channel_items(channel: EventQueue) -> Seq<KeyEvent>;

/// `Channel::new`: a channel in which nothing waits.
#[verifier::external_body]
fn channel_new() -> (channel: EventQueue)
    ensures
        channel_items(channel) == Seq::<KeyEvent>::empty(),
{
    EventQueue { inner: Channel::new() }
}

/// `Channel::try_send`: the event goes behind those that wait, unless 16
/// events wait already; then the channel stays as it is and the event is
/// handed back, which this wrapper reports as `false`. The call does not
/// panic: the channel is borrowed exclusively here, so the cell inside it is
/// never borrowed twice.
#[verifier::external_body]
fn channel_try_send(channel: &mut EventQueue, event: KeyEvent) -> (sent: bool)
    ensures
        sent == (channel_items(*old(channel)).len() < 16),
        channel_items(*final(channel)) == (if sent {
            channel_items(*old(channel)).push(event)
        } else {
            channel_items(*old(channel))
        }),
    no_unwind
{
    channel.inner.try_send(event).is_ok()
}

/// `Channel::try_receive`: takes out the event that has waited longest, if
/// any waits. The call does not panic, for the same reason.
#[verifier::external_body]
fn channel_try_receive(channel: &mut EventQueue) -> (event: Option<KeyEvent>)
    ensures
        event == (if channel_items(*old(channel)).len() > 0 {
            Some(channel_items(*old(channel))[0])
        } else {
            None
        }),
        channel_items(*final(channel)) == (if channel_items(*old(channel)).len() > 0 {
            channel_items(*old(channel)).skip(1)
        } else {
            channel_items(*old(channel))
        }),
    no_unwind
{
    channel.inner.try_receive().ok()
}

/// `Channel::len`: how many events wait.
#[verifier::external_body]
fn channel_len(channel: &EventQueue) -> (len: usize)
    ensures
        len == channel_items(*channel).len(),
{
    channel.inner.len()
}

/// The events that wait after `event` is offered to a channel that holds
/// `items`: `event` goes last, unless the channel is full.
pub open spec fn offer(items: Seq<KeyEvent>, event: KeyEvent) -> Seq<KeyEvent> {
    if items.len() < KEY_CHANNEL_CAPACITY {
        items.push(event)
    } else {
        items
    }
}

/// The events that wait after `events` are offered one by one, first to
/// last, with nothing taken out in between.
pub open spec fn offer_all(items: Seq<KeyEvent>, events: Seq<KeyEvent>) -> Seq<KeyEvent>
    decreases events.len(),
{
    if events.len() == 0 {
        items
    } else {
        offer_all(offer(items, events[0]), events.skip(1))
    }
}

/// How many events a channel that holds `items` drops when one is offered:
/// none, unless it is full.
pub open spec fn refused_one(items: Seq<KeyEvent>) -> nat {
    if items.len() < KEY_CHANNEL_CAPACITY {
        0
    } else {
        1
    }
}

/// How many of `events` a channel that holds `items` drops when they are
/// offered one by one with nothing taken out in between.
pub open spec fn refused(items: Seq<KeyEvent>, events: Seq<KeyEvent>) -> nat
    decreases events.len(),
{
    if events.len() == 0 {
        0
    } else {
        refused_one(items) + refused(offer(items, events[0]), events.skip(1))
    }
}

/// The drop count after `more` drops: it stops at `u64::MAX`.
pub open spec fn count_drops(dropped: u64, more: nat) -> u64 {
    if dropped + more <= u64::MAX {
        (dropped + more) as u64
    } else {
        u64::MAX
    }
}

/// The events that wait after the oldest has been taken out.
pub open spec fn after_take(items: Seq<KeyEvent>) -> Seq<KeyEvent> {
    if items.len() > 0 {
        items.skip(1)
    } else {
        items
    }
}

/// The events that wait after the oldest has been taken out `takes` times.
pub open spec fn after_takes(items: Seq<KeyEvent>, takes: nat) -> Seq<KeyEvent>
    decreases takes,
{
    if takes == 0 {
        items
    } else {
        after_takes(after_take(items), (takes - 1) as nat)
    }
}

/// The oldest event that waits, if any.
pub open spec fn oldest(items: Seq<KeyEvent>) -> Option<KeyEvent> {
    if items.len() > 0 {
        Some(items[0])
    } else {
        None
    }
}

/// The key event channel.
pub struct KeyChannel {
    queue: EventQueue,
    dropped: u64,
}

impl View for KeyChannel {
    type V = Seq<KeyEvent>;

    /// The events that wait, oldest first.
    closed spec fn view(&self) -> Seq<KeyEvent> {
        channel_items(self.queue)
    }
}

impl KeyChannel {
    /// No more events wait than the channel can hold.
    #[verifier::type_invariant]
    spec fn bounded(self) -> bool {
        channel_items(self.queue).len() <= KEY_CHANNEL_CAPACITY
    }

    /// How many events were dropped because the channel was full. The
    /// count stops at `u64::MAX`.
    pub closed spec fn dropped_count(&self) -> u64 {
        self.dropped
    }

    /// An empty channel that has dropped nothing.
    pub fn new() -> (channel: Self)
        ensures
            channel@ == Seq::<KeyEvent>::empty(),
            channel.dropped_count() == 0,
    {
        Self { queue: channel_new(), dropped: 0 }
    }

    /// Puts `event` behind the events that wait and returns `true`. On a
    /// full channel the event is dropped and counted instead, and the result
    /// is `false`. Never waits.
    pub fn send(&mut self, event: KeyEvent) -> (sent: bool)
        ensures
            sent == (old(self)@.len() < KEY_CHANNEL_CAPACITY),
            final(self)@ == offer(old(self)@, event),
            final(self)@.len() <= KEY_CHANNEL_CAPACITY,
            final(self).dropped_count() == count_drops(
                old(self).dropped_count(),
                refused_one(old(self)@),
            ),
    {
        proof {
            use_type_invariant(&*self);
        }
        let sent = channel_try_send(&mut self.queue, event);
        if !sent {
            if self.dropped < u64::MAX {
                self.dropped = self.dropped + 1;
            }
        }
        sent
    }

    /// Takes out the event that has waited longest, if any waits.
    pub fn receive(&mut self) -> (event: Option<KeyEvent>)
        ensures
            event == oldest(old(self)@),
            final(self)@ == after_take(old(self)@),
            final(self)@.len() <= KEY_CHANNEL_CAPACITY,
            final(self).dropped_count() == old(self).dropped_count(),
    {
        proof {
            use_type_invariant(&*self);
        }
        channel_try_receive(&mut self.queue)
    }

    /// How many events wait.
    pub fn len(&self) -> (len: usize)
        ensures
            len == self@.len(),
            len <= KEY_CHANNEL_CAPACITY,
    {
        proof {
            use_type_invariant(self);
        }
        channel_len(&self.queue)
    }

    /// Whether nothing waits.
    pub fn is_empty(&self) -> (empty: bool)
        ensures
            empty == (self@.len() == 0),
    {
        self.len() == 0
    }

    /// Whether the next event sent would be dropped.
    pub fn is_full(&self) -> (full: bool)
        ensures
            full == (self@.len() == KEY_CHANNEL_CAPACITY),
    {
        self.len() == KEY_CHANNEL_CAPACITY
    }

    /// How many events the channel holds at most.
    pub fn capacity(&self) -> (capacity: usize)
        ensures
            capacity == KEY_CHANNEL_CAPACITY,
    {
        KEY_CHANNEL_CAPACITY
    }

    /// How many events were dropped because the channel was full.
    pub fn dropped(&self) -> (dropped: u64)
        ensures
            dropped == self.dropped_count(),
    {
        self.dropped
    }
}

/// Offering `events` to a channel keeps, of what waited and what came in, as
/// many of the oldest as the channel can hold, in their order; the rest of
/// `events` is dropped.
pub proof fn lemma_offer_all(items: Seq<KeyEvent>, events: Seq<KeyEvent>)
    requires
        items.len() <= KEY_CHANNEL_CAPACITY,
    ensures
        items.len() + events.len() <= KEY_CHANNEL_CAPACITY ==> offer_all(items, events) == items
            + events && refused(items, events) == 0,
        items.len() + events.len() > KEY_CHANNEL_CAPACITY ==> offer_all(items, events) == (items
            + events).take(KEY_CHANNEL_CAPACITY as int) && refused(items, events) == items.len()
            + events.len() - KEY_CHANNEL_CAPACITY,
    decreases events.len(),
{
    if events.len() > 0 {
        lemma_offer_all(offer(items, events[0]), events.skip(1));
    }
}

/// Events leave the channel in the order in which they came: after `takes`
/// events have been taken out, the next to leave is the one that came in
/// after them, and an empty channel stays empty.
pub proof fn lemma_events_leave_in_order(items: Seq<KeyEvent>, takes: nat)
    ensures
        takes <= items.len() ==> after_takes(items, takes) == items.skip(takes as int),
        takes < items.len() ==> oldest(after_takes(items, takes)) == Some(items[takes as int]),
        takes >= items.len() ==> after_takes(items, takes).len() == 0 && oldest(
            after_takes(items, takes),
        ) is None,
    decreases takes,
{
    if takes > 0 {
        lemma_events_leave_in_order(after_take(items), (takes - 1) as nat);
    }
}

/// Drops add up in the drop count, until it stops at `u64::MAX`.
pub proof fn lemma_count_drops_adds(dropped: u64, first: nat, second: nat)
    ensures
        count_drops(count_drops(dropped, first), second) == count_drops(dropped, first + second),
        count_drops(dropped, 0) == dropped,
        dropped as nat + first <= u64::MAX ==> count_drops(dropped, first) == dropped + first,
{
}

/// One event more than an empty channel can hold: the first 16 stay, in
/// their order, and exactly one is dropped, the last.
pub proof fn lemma_overflow_drops_newest(events: Seq<KeyEvent>)
    requires
        events.len() == KEY_CHANNEL_CAPACITY + 1,
    ensures
        offer_all(Seq::empty(), events) == events.take(KEY_CHANNEL_CAPACITY as int),
        offer_all(Seq::empty(), events).len() == KEY_CHANNEL_CAPACITY,
        refused(Seq::empty(), events) == 1,
{
    lemma_offer_all(Seq::empty(), events);
}

} // verus!
