//! The change-event bus: a bounded queue of change events that never blocks.
//! When it is full it discards its oldest pending event to admit a new one,
//! and it hands each event out once.
//!
//! A bus answers with status codes. This module says what the codes mean and
//! holds a bus that lives in this process.

use std::collections::VecDeque;
use vstd::prelude::*;
use crate::records::Event;

verus! {

/// Status of a publish that was admitted without loss.
pub const BUS_DELIVERED: i32 = 0;

/// Status of a publish that was admitted after the bus discarded its oldest
/// pending event.
pub const BUS_DELIVERED_WITH_DROP: i32 = 1;

/// Status of a publish that was not admitted.
pub const BUS_FAILED: i32 = -1;

/// Status of a consume that handed out an event.
pub const BUS_CONSUMED: i32 = 1;

/// Status of a consume that found the bus empty.
pub const BUS_EMPTY: i32 = 0;

/// What became of a published event.
#[derive(Debug, Clone, Copy, PartialEq, Eq, Structural)]
pub enum PublishOutcome {
    /// Admitted; nothing was lost.
    Delivered,
    /// Admitted; the oldest pending event was discarded to make room.
    DeliveredWithDrop,
    /// Not admitted.
    Failed,
}

/// The meaning of a publish status code.
pub open spec fn publish_outcome(status: i32) -> PublishOutcome {
    if status == BUS_DELIVERED {
        PublishOutcome::Delivered
    } else if status == BUS_DELIVERED_WITH_DROP {
        PublishOutcome::DeliveredWithDrop
    } else {
        PublishOutcome::Failed
    }
}

/// Reads a publish status code.
pub fn decode_publish(status: i32) -> (outcome: PublishOutcome)
    ensures
        outcome == publish_outcome(status),
{
    if status == BUS_DELIVERED {
        PublishOutcome::Delivered
    } else if status == BUS_DELIVERED_WITH_DROP {
        PublishOutcome::DeliveredWithDrop
    } else {
        PublishOutcome::Failed
    }
}

/// The answer that a publish with status `status` amounts to: whether an
/// older event was discarded, or that the event was not admitted.
pub open spec fn publish_result(status: i32) -> Result<bool, &'static str> {
    match publish_outcome(status) {
        PublishOutcome::Delivered => Ok(false),
        PublishOutcome::DeliveredWithDrop => Ok(true),
        PublishOutcome::Failed => Err("Bus publish failed"),
    }
}

/// The event that a consume with status `status` handed out, if any. `slot`
/// is the buffer the bus was given to fill.
pub open spec fn consumed_event(status: i32, slot: Event) -> Option<Event> {
    if status == BUS_CONSUMED {
        Some(slot)
    } else {
        None
    }
}

/// Reads a consume status code.
pub fn decode_consume(status: i32, slot: Event) -> (event: Option<Event>)
    ensures
        event == consumed_event(status, slot),
{
    if status == BUS_CONSUMED {
        Some(slot)
    } else {
        None
    }
}

/// The content of a bus: the pending events, oldest first, the most it
/// holds at a time, and how many publishes it has seen and how many events it
/// has discarded since it was made.
pub struct BusState {
    pub pending: Seq<Event>,
    pub capacity: nat,
    pub attempts: nat,
    pub drops: nat,
}

impl BusState {
    /// A bus never holds more than its capacity, and it has discarded at most
    /// one event per publish.
    pub open spec fn wf(self) -> bool {
        self.pending.len() <= self.capacity && self.drops <= self.attempts
    }

    /// An empty bus of the given capacity.
    pub open spec fn empty(capacity: nat) -> BusState {
        BusState { pending: Seq::empty(), capacity, attempts: 0, drops: 0 }
    }

    /// The status with which the bus answers a publish: a bus without room
    /// for a single event admits nothing, a full one discards its oldest
    /// event.
    pub open spec fn publish_status(self) -> i32 {
        if self.capacity == 0 {
            BUS_FAILED
        } else if self.pending.len() < self.capacity {
            BUS_DELIVERED
        } else {
            BUS_DELIVERED_WITH_DROP
        }
    }

    /// The bus after `event` was published to it. The event goes to the back;
    /// a full bus loses its front.
    pub open spec fn after_publish(self, event: Event) -> BusState {
        if self.capacity == 0 {
            BusState { attempts: self.attempts + 1, ..self }
        } else if self.pending.len() < self.capacity {
            BusState { pending: self.pending.push(event), attempts: self.attempts + 1, ..self }
        } else {
            BusState {
                pending: self.pending.drop_first().push(event),
                attempts: self.attempts + 1,
                drops: self.drops + 1,
                ..self
            }
        }
    }

    /// The event that the next consume hands out, if the bus holds one.
    pub open spec fn oldest(self) -> Option<Event> {
        if self.pending.len() == 0 {
            None
        } else {
            Some(self.pending[0])
        }
    }

    /// The status with which the bus answers a consume.
    pub open spec fn consume_status(self) -> i32 {
        if self.pending.len() == 0 {
            BUS_EMPTY
        } else {
            BUS_CONSUMED
        }
    }

    /// The bus after a consume: its oldest event, if it had one, is gone for
    /// good.
    pub open spec fn after_consume(self) -> BusState {
        if self.pending.len() == 0 {
            self
        } else {
            BusState { pending: self.pending.drop_first(), ..self }
        }
    }
}

/// A bus that lives in this process.
pub struct EventBus {
    pending: VecDeque<Event>,
    capacity: usize,
    attempts: Ghost<nat>,
    drops: Ghost<nat>,
}

impl View for EventBus {
    type V = BusState;

    closed spec fn view(&self) -> BusState {
        BusState {
            pending: self.pending@,
            capacity: self.capacity as nat,
            attempts: self.attempts@,
            drops: self.drops@,
        }
    }
}

impl EventBus {
    #[verifier::type_invariant]
    spec fn inv(self) -> bool {
        self@.wf()
    }

    /// An empty bus that holds at most `capacity` events.
    pub fn new(capacity: usize) -> (bus: EventBus)
        ensures
            bus@ == BusState::empty(capacity as nat),
    {
        EventBus { pending: VecDeque::new(), capacity, attempts: Ghost(0), drops: Ghost(0) }
    }

    /// Number of pending events.
    pub fn len(&self) -> (len: usize)
        ensures
            len == self@.pending.len(),
            self@.wf(),
    {
        proof {
            use_type_invariant(self);
        }
        self.pending.len()
    }

    /// Offers `event` to the bus and answers with a status code.
    pub fn bus_publish(&mut self, event: Event) -> (status: i32)
        ensures
            status == old(self)@.publish_status(),
            final(self)@ == old(self)@.after_publish(event),
            final(self)@.wf(),
    {
        proof {
            use_type_invariant(&*self);
        }
        let mut pending = VecDeque::new();
        std::mem::swap(&mut pending, &mut self.pending);
        let status: i32 = if self.capacity == 0 {
            BUS_FAILED
        } else if pending.len() < self.capacity {
            pending.push_back(event);
            BUS_DELIVERED
        } else {
            pending.pop_front();
            pending.push_back(event);
            BUS_DELIVERED_WITH_DROP
        };
        let ghost attempts = self.attempts@ + 1;
        let ghost drops = if status == BUS_DELIVERED_WITH_DROP {
            self.drops@ + 1
        } else {
            self.drops@
        };
        *self = EventBus {
            pending,
            capacity: self.capacity,
            attempts: Ghost(attempts),
            drops: Ghost(drops),
        };
        status
    }

    /// Asks the bus for its oldest event. On status `BUS_CONSUMED` the event
    /// is in `slot`; on any other status `slot` is as it was.
    pub fn bus_try_consume(&mut self, slot: &mut Event) -> (status: i32)
        ensures
            status == old(self)@.consume_status(),
            final(self)@ == old(self)@.after_consume(),
            final(self)@.wf(),
            *final(slot) == (match old(self)@.oldest() {
                Some(event) => event,
                None => *old(slot),
            }),
    {
        proof {
            use_type_invariant(&*self);
        }
        let mut pending = VecDeque::new();
        std::mem::swap(&mut pending, &mut self.pending);
        let status: i32 = match pending.pop_front() {
            Some(event) => {
                *slot = event;
                BUS_CONSUMED
            },
            None => BUS_EMPTY,
        };
        *self = EventBus {
            pending,
            capacity: self.capacity,
            attempts: self.attempts,
            drops: self.drops,
        };
        status
    }
}

/// Publishes `event`. `Ok(false)` says that it was admitted without loss,
/// `Ok(true)` that the bus discarded its oldest pending event to admit it,
/// and an error that it was not admitted.
pub fn publish_event(bus: &mut EventBus, event: Event) -> (result: Result<bool, &'static str>)
    ensures
        final(bus)@ == old(bus)@.after_publish(event),
        result == publish_result(old(bus)@.publish_status()),
{
    let status: i32 = bus.bus_publish(event);
    match decode_publish(status) {
        PublishOutcome::Delivered => Ok(false),
        PublishOutcome::DeliveredWithDrop => Ok(true),
        PublishOutcome::Failed => Err("Bus publish failed"),
    }
}

/// Consumes the oldest pending event, if there is one. An event that was
/// handed out is not handed out again.
pub fn try_consume_event(bus: &mut EventBus) -> (event: Option<Event>)
    ensures
        final(bus)@ == old(bus)@.after_consume(),
        event == old(bus)@.oldest(),
{
    let mut slot = Event { table_id: 0, index: 0, op: 0, version: 0 };
    let status: i32 = bus.bus_try_consume(&mut slot);
    decode_consume(status, slot)
}

} // verus!
