//! The bridge between the two halves of the keyboard. The central half owns
//! the host transport: its own key events and those that arrive over the
//! link go into one channel, in the order in which they come. The peripheral
//! half hands its key events to the link and keeps nothing.

use crate::channel::{
    count_drops, lemma_offer_all, offer, offer_all, KeyChannel, KEY_CHANNEL_CAPACITY,
};
use crate::event::KeyEvent;
use crate::wakeup::WakeupSignal;
use vstd::prelude::*;

verus! {

/// Which half of the keyboard this is.
#[derive(Copy, Clone, Debug, PartialEq, Eq)]
pub enum LinkRole {
    /// The half that talks to the host.
    Central,
    /// The half that only sends its key events to the other.
    Peripheral,
}

/// What became of a key event.
#[derive(Copy, Clone, Debug, PartialEq, Eq)]
pub enum Delivery {
    /// It waits in the channel for the transmitter.
    Queued,
    /// The channel was full: it was dropped and counted.
    Dropped,
    /// The bus is suspended: it was turned into a wakeup request.
    WakeupRequested,
    /// It is to be sent over the link.
    Forward(KeyEvent),
    /// There is no link to send it over: it is lost.
    Lost,
}

/// Where a key event came from.
#[derive(Copy, Clone, Debug, PartialEq, Eq)]
pub enum Source {
    /// The scanner of this half.
    Local,
    /// The other half, over the link.
    Remote,
}

/// A key event on the central half, with its source.
#[derive(Copy, Clone, Debug, PartialEq, Eq)]
pub struct Arrival {
    /// Where the event came from.
    pub source: Source,
    /// The event.
    pub event: KeyEvent,
}

/// What becomes of a key event from the scanner of this half.
pub open spec fn local_delivery(
    role: LinkRole,
    suspended: bool,
    link_up: bool,
    items: Seq<KeyEvent>,
    event: KeyEvent,
) -> Delivery {
    match role {
        LinkRole::Peripheral => if link_up {
            Delivery::Forward(event)
        } else {
            Delivery::Lost
        },
        LinkRole::Central => if suspended {
            Delivery::WakeupRequested
        } else if items.len() < KEY_CHANNEL_CAPACITY {
            Delivery::Queued
        } else {
            Delivery::Dropped
        },
    }
}

/// What becomes of a key event that arrived over the link.
pub open spec fn remote_delivery(role: LinkRole, items: Seq<KeyEvent>) -> Delivery {
    match role {
        LinkRole::Peripheral => Delivery::Lost,
        LinkRole::Central => if items.len() < KEY_CHANNEL_CAPACITY {
            Delivery::Queued
        } else {
            Delivery::Dropped
        },
    }
}

/// The events that wait in the channel after a key event from the scanner
/// of this half: only the central half queues it, and only while the bus is
/// awake.
pub open spec fn after_local(
    role: LinkRole,
    suspended: bool,
    items: Seq<KeyEvent>,
    event: KeyEvent,
) -> Seq<KeyEvent> {
    if role is Central && !suspended {
        offer(items, event)
    } else {
        items
    }
}

/// The events that wait in the channel after a key event that arrived over
/// the link: only the central half queues it.
pub open spec fn after_remote(role: LinkRole, items: Seq<KeyEvent>, event: KeyEvent) -> Seq<
    KeyEvent,
> {
    if role is Central {
        offer(items, event)
    } else {
        items
    }
}

/// How many events a delivery adds to the drop count.
pub open spec fn drops_of(delivery: Delivery) -> nat {
    if delivery is Dropped {
        1
    } else {
        0
    }
}

/// The events that wait in the central half's channel after one arrival,
/// with the bus awake.
pub open spec fn after_arrival(items: Seq<KeyEvent>, arrival: Arrival) -> Seq<KeyEvent> {
    match arrival.source {
        Source::Local => after_local(LinkRole::Central, false, items, arrival.event),
        Source::Remote => after_remote(LinkRole::Central, items, arrival.event),
    }
}

/// The events that wait in the central half's channel after `arrivals` have
/// come in, first to last, with the bus awake and nothing taken out in
/// between.
pub open spec fn merged(items: Seq<KeyEvent>, arrivals: Seq<Arrival>) -> Seq<KeyEvent>
    decreases arrivals.len(),
{
    if arrivals.len() == 0 {
        items
    } else {
        merged(after_arrival(items, arrivals[0]), arrivals.skip(1))
    }
}

/// The bridge of one half.
pub struct LinkBridge {
    role: LinkRole,
}

impl View for LinkBridge {
    type V = LinkRole;

    closed spec fn view(&self) -> LinkRole {
        self.role
    }
}

impl LinkBridge {
    /// The bridge of the half with the given role.
    pub fn new(role: LinkRole) -> (bridge: Self)
        ensures
            bridge@ == role,
    {
        Self { role }
    }

    /// The role of this half.
    pub fn role(&self) -> (role: LinkRole)
        ensures
            role == self@,
    {
        self.role
    }

    /// Takes a key event from the scanner of this half.
    ///
    /// On the peripheral half the event is handed back to be sent over the
    /// link, or is lost while the link is down. On the central half a
    /// suspended bus turns it into a wakeup request and nothing is queued;
    /// else it goes into the channel, or is dropped if the channel is full.
    pub fn on_key_press(
        &self,
        event: KeyEvent,
        suspended: bool,
        link_up: bool,
        channel: &mut KeyChannel,
        wakeup: &mut WakeupSignal,
    ) -> (delivery: Delivery)
        ensures
            delivery == local_delivery(self@, suspended, link_up, old(channel)@, event),
            final(channel)@ == after_local(self@, suspended, old(channel)@, event),
            final(channel).dropped_count() == count_drops(
                old(channel).dropped_count(),
                drops_of(delivery),
            ),
            final(wakeup)@ == (delivery is WakeupRequested || old(wakeup)@),
    {
        match self.role {
            LinkRole::Peripheral => {
                if link_up {
                    Delivery::Forward(event)
                } else {
                    Delivery::Lost
                }
            },
            LinkRole::Central => {
                if suspended {
                    wakeup.raise();
                    Delivery::WakeupRequested
                } else if channel.send(event) {
                    Delivery::Queued
                } else {
                    Delivery::Dropped
                }
            },
        }
    }

    /// Takes a key event that arrived over the link. The central half puts
    /// it into the channel behind what waits there, or drops it if the
    /// channel is full. The peripheral half has no use for it.
    pub fn on_link_event(&self, event: KeyEvent, channel: &mut KeyChannel) -> (delivery: Delivery)
        ensures
            delivery == remote_delivery(self@, old(channel)@),
            final(channel)@ == after_remote(self@, old(channel)@, event),
            final(channel).dropped_count() == count_drops(
                old(channel).dropped_count(),
                drops_of(delivery),
            ),
    {
        match self.role {
            LinkRole::Peripheral => Delivery::Lost,
            LinkRole::Central => {
                if channel.send(event) {
                    Delivery::Queued
                } else {
                    Delivery::Dropped
                }
            },
        }
    }
}

/// The events of `arrivals`, in their order, without their sources.
pub open spec fn events_of(arrivals: Seq<Arrival>) -> Seq<KeyEvent> {
    arrivals.map_values(|arrival: Arrival| arrival.event)
}

/// The central half's channel holds the events of both sources in the order
/// in which they came in, whatever their source: as many of the oldest as
/// the channel can hold.
pub proof fn lemma_merge_keeps_arrival_order(items: Seq<KeyEvent>, arrivals: Seq<Arrival>)
    requires
        items.len() <= KEY_CHANNEL_CAPACITY,
    ensures
        merged(items, arrivals) == offer_all(items, events_of(arrivals)),
        items.len() + arrivals.len() <= KEY_CHANNEL_CAPACITY ==> merged(items, arrivals) == items
            + events_of(arrivals),
        items.len() + arrivals.len() > KEY_CHANNEL_CAPACITY ==> merged(items, arrivals) == (items
            + events_of(arrivals)).take(KEY_CHANNEL_CAPACITY as int),
    decreases arrivals.len(),
{
    lemma_offer_all(items, events_of(arrivals));
    if arrivals.len() > 0 {
        let next = after_arrival(items, arrivals[0]);
        lemma_merge_keeps_arrival_order(next, arrivals.skip(1));
    }
}

} // verus!
