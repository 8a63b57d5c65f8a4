//! A host that lives in this process: the two tables and the bus, and what
//! each action of a worker does to them.
//!
//! A worker names actions; a host carries them out and reports the outcome.
//! This host carries them out on tables and a bus of its own, so that a
//! worker can be run, and reasoned about, from its first poll to its last.

use vstd::prelude::*;
use crate::bus::{publish_event, BusState, EventBus};
use crate::poll::PollResult;
use crate::reader::{reader_loop, reader_next, reader_pending, ReaderAction, ReaderEvent,
    ReaderNote, ReaderState, ReaderStep, ReaderWorker};
use crate::records::{Event, Order, User, EV_OP_UPSERT, ORDERS_CAP, TABLE_ID_ORDERS,
    TABLE_ID_USERS, USERS_CAP};
use crate::store::{orders_after_write, read_order, read_user, stored_order, stored_user,
    write_order, write_result, OrderTable, UserTable};
use crate::writer::{drawn_order, pending_action, seed_after_draw, upsert_event, writer_accepts,
    writer_loop, writer_next, WriterAction, WriterEvent, WriterSeed, WriterState, WriterStep,
    WriterWorker};

verus! {

/// The content of a host: its orders, its users and its bus.
pub struct HostState {
    pub orders: Seq<Order>,
    pub users: Seq<User>,
    pub bus: BusState,
}

impl HostState {
    /// Both tables have their full number of slots and the bus is within its
    /// capacity.
    pub open spec fn wf(self) -> bool {
        &&& self.orders.len() == ORDERS_CAP
        &&& self.users.len() == USERS_CAP
        &&& self.bus.wf()
    }
}

/// The buffer that the bus is handed to fill on a consume.
pub open spec fn blank_event() -> Event {
    Event { table_id: 0, index: 0, op: 0, version: 0 }
}

/// What a host in state `h` makes of an action of the writer: its state
/// afterwards and the outcome it reports. `poll` is what a poll finds. A read
/// outside the table is refused, and so is `Exit`: nothing is reported.
pub open spec fn writer_response(h: HostState, action: WriterAction, poll: PollResult) -> (
    HostState,
    Option<WriterEvent>,
) {
    match action {
        WriterAction::Poll => (h, Some(WriterEvent::Polled(poll))),
        WriterAction::LoadSlot { index } => {
            if index < h.orders.len() {
                (h, Some(WriterEvent::SlotLoaded(h.orders[index as int])))
            } else {
                (h, None)
            }
        },
        WriterAction::Store { index, order } => (
            HostState { orders: orders_after_write(h.orders, index, order), ..h },
            Some(WriterEvent::Stored(write_result(index, ORDERS_CAP))),
        ),
        WriterAction::Publish { event } => (
            HostState { bus: h.bus.after_publish(event), ..h },
            Some(WriterEvent::Published(h.bus.publish_status())),
        ),
        WriterAction::Sleep { .. } => (h, Some(WriterEvent::Slept)),
        WriterAction::Exit => (h, None),
    }
}

/// What a host in state `h` makes of an action of the reader: its state
/// afterwards and the outcome it reports. `poll` is what a poll finds. A read
/// outside a table is refused, and so is `Exit`: nothing is reported.
pub open spec fn reader_response(h: HostState, action: ReaderAction, poll: PollResult) -> (
    HostState,
    Option<ReaderEvent>,
) {
    match action {
        ReaderAction::Poll => (h, Some(ReaderEvent::Polled(poll))),
        ReaderAction::Consume => (
            HostState { bus: h.bus.after_consume(), ..h },
            Some(
                ReaderEvent::Consumed {
                    status: h.bus.consume_status(),
                    slot: match h.bus.oldest() {
                        Some(event) => event,
                        None => blank_event(),
                    },
                },
            ),
        ),
        ReaderAction::LoadOrder { index } => {
            if index < h.orders.len() {
                (h, Some(ReaderEvent::OrderLoaded(h.orders[index as int])))
            } else {
                (h, None)
            }
        },
        ReaderAction::LoadUser { index } => {
            if index < h.users.len() {
                (h, Some(ReaderEvent::UserLoaded(h.users[index as int])))
            } else {
                (h, None)
            }
        },
        ReaderAction::Yield => (h, Some(ReaderEvent::Yielded)),
        ReaderAction::Sleep { .. } => (h, Some(ReaderEvent::Slept)),
        ReaderAction::Exit => (h, None),
    }
}

/// One turn of the writer on a host: the host carries out the action the
/// writer is waiting for, and the writer takes the outcome. The writer stays
/// as it is when the host reports nothing, or reports what the writer cannot
/// take without a counter leaving its range.
pub open spec fn writer_turn(w: WriterState, h: HostState, poll: PollResult) -> (
    WriterState,
    HostState,
) {
    let (after, reported) = writer_response(h, pending_action(w), poll);
    match reported {
        Some(event) => if writer_accepts(w, event) {
            (writer_next(w, event).state, after)
        } else {
            (w, after)
        },
        None => (w, after),
    }
}

/// One turn of the reader on a host: the host carries out the action the
/// reader is waiting for, and the reader takes the outcome.
pub open spec fn reader_turn(r: ReaderState, h: HostState, poll: PollResult) -> (
    ReaderState,
    HostState,
) {
    let (after, reported) = reader_response(h, reader_pending(r), poll);
    match reported {
        Some(event) => (reader_next(r, event).state, after),
        None => (r, after),
    }
}

/// What there is to report of `event` on tables with the given content: the
/// record in the slot it names, unless the slot is empty or lies outside its
/// table, and a note on a table that does not exist.
pub open spec fn event_notes(event: Event, orders: Seq<Order>, users: Seq<User>) -> Seq<
    ReaderNote,
> {
    if event.table_id == TABLE_ID_ORDERS {
        match stored_order(orders, event.index as int) {
            Some(order) => seq![ReaderNote::OrderRead { event, order }],
            None => seq![],
        }
    } else if event.table_id == TABLE_ID_USERS {
        match stored_user(users, event.index as int) {
            Some(user) => seq![ReaderNote::UserRead { event, user }],
            None => seq![],
        }
    } else {
        seq![ReaderNote::UnknownTable { table_id: event.table_id }]
    }
}

/// Looks up the record that `event` names and reports it. An event for a slot
/// that is empty, or that lies outside its table, is passed over: there is
/// nothing to report and nothing fails. The tables are only read.
pub fn process_event(event: Event, orders: &OrderTable, users: &UserTable) -> (notes: Vec<
    ReaderNote,
>)
    ensures
        notes@ == event_notes(event, orders@, users@),
{
    let mut notes: Vec<ReaderNote> = Vec::new();
    let index: usize = event.index as usize;
    if event.table_id == TABLE_ID_ORDERS {
        if let Some(order) = read_order(orders, index) {
            notes.push(ReaderNote::OrderRead { event, order });
        }
    } else if event.table_id == TABLE_ID_USERS {
        if let Some(user) = read_user(users, index) {
            notes.push(ReaderNote::UserRead { event, user });
        }
    } else {
        notes.push(ReaderNote::UnknownTable { table_id: event.table_id });
    }
    notes
}

/// The version that a reader finds at `index`: 0 where it finds no record.
pub open spec fn stored_version(orders: Seq<Order>, index: int) -> u32 {
    match stored_order(orders, index) {
        Some(order) => order.version,
        None => 0,
    }
}

/// Draws a new order from `seed`, stores it at `index` under the version that
/// follows the one found there, and announces it on the bus.
///
/// Inside the table the order is stored and returned, whatever the bus
/// answers: a drop or a failed publish leaves the stored order standing and
/// is not retried. Outside the table nothing is stored and nothing is
/// announced. Either way the seed has moved on by one identifier.
pub fn generate_and_write_order(
    seed: &mut WriterSeed,
    orders: &mut OrderTable,
    bus: &mut EventBus,
    index: usize,
) -> (result: Result<Order, &'static str>)
    requires
        stored_version(old(orders)@, index as int) < u32::MAX,
    ensures
        *final(seed) == seed_after_draw(*old(seed)),
        ({
            let order = drawn_order(*old(seed), stored_version(old(orders)@, index as int));
            if index < ORDERS_CAP {
                &&& result == Ok::<Order, &'static str>(order)
                &&& order.id == old(seed).next_order_id
                &&& final(orders)@ == old(orders)@.update(index as int, order)
                &&& final(bus)@ == old(bus)@.after_publish(upsert_event(index, order))
            } else {
                &&& result == Err::<Order, &'static str>("Index out of bounds")
                &&& final(orders)@ == old(orders)@
                &&& final(bus)@ == old(bus)@
            }
        }),
{
    proof {
        orders.lemma_len();
    }
    let current: u32 = match read_order(orders, index) {
        Some(held) => held.version,
        None => 0,
    };
    let order = seed.draw_order(current);
    if let Err(reason) = write_order(orders, index, order) {
        return Err(reason);
    }
    let event = Event {
        table_id: TABLE_ID_ORDERS,
        index: index as u16,
        op: EV_OP_UPSERT,
        version: order.version,
    };
    let _ = publish_event(bus, event);
    Ok(order)
}

/// A host that lives in this process.
pub struct MemoryHost {
    pub orders: OrderTable,
    pub users: UserTable,
    pub bus: EventBus,
}

impl View for MemoryHost {
    type V = HostState;

    open spec fn view(&self) -> HostState {
        HostState { orders: self.orders@, users: self.users@, bus: self.bus@ }
    }
}

impl MemoryHost {
    /// A host with empty tables and an empty bus of the given capacity.
    pub fn new(bus_capacity: usize) -> (host: MemoryHost)
        ensures
            host@.wf(),
            host@.bus == BusState::empty(bus_capacity as nat),
            host@.orders == OrderTable::blank(),
            forall|i: int| 0 <= i < USERS_CAP ==> (#[trigger] host@.users[i]).id == 0,
    {
        let host = MemoryHost {
            orders: OrderTable::new(),
            users: UserTable::new(),
            bus: EventBus::new(bus_capacity),
        };
        proof {
            assert(host@.orders =~= OrderTable::blank());
        }
        host
    }

    /// Carries out an action of the writer and reports its outcome.
    pub fn perform_writer(&mut self, action: WriterAction, poll: PollResult) -> (reported: Option<
        WriterEvent,
    >)
        ensures
            (final(self)@, reported) == writer_response(old(self)@, action, poll),
            old(self)@.wf() ==> final(self)@.wf(),
    {
        proof {
            self.orders.lemma_len();
        }
        let reported = match action {
            WriterAction::Poll => Some(WriterEvent::Polled(poll)),
            WriterAction::LoadSlot { index } => {
                if index < ORDERS_CAP {
                    Some(WriterEvent::SlotLoaded(self.orders.load(index)))
                } else {
                    None
                }
            },
            WriterAction::Store { index, order } => {
                let result = write_order(&mut self.orders, index, order);
                Some(WriterEvent::Stored(result))
            },
            WriterAction::Publish { event } => {
                let status: i32 = self.bus.bus_publish(event);
                Some(WriterEvent::Published(status))
            },
            WriterAction::Sleep { .. } => Some(WriterEvent::Slept),
            WriterAction::Exit => None,
        };
        reported
    }

    /// Carries out an action of the reader and reports its outcome.
    pub fn perform_reader(&mut self, action: ReaderAction, poll: PollResult) -> (reported: Option<
        ReaderEvent,
    >)
        ensures
            (final(self)@, reported) == reader_response(old(self)@, action, poll),
            old(self)@.wf() ==> final(self)@.wf(),
    {
        proof {
            self.orders.lemma_len();
            self.users.lemma_len();
        }
        let reported = match action {
            ReaderAction::Poll => Some(ReaderEvent::Polled(poll)),
            ReaderAction::Consume => {
                let mut slot = Event { table_id: 0, index: 0, op: 0, version: 0 };
                let status: i32 = self.bus.bus_try_consume(&mut slot);
                Some(ReaderEvent::Consumed { status, slot })
            },
            ReaderAction::LoadOrder { index } => {
                if index < ORDERS_CAP {
                    Some(ReaderEvent::OrderLoaded(self.orders.load(index)))
                } else {
                    None
                }
            },
            ReaderAction::LoadUser { index } => {
                if index < USERS_CAP {
                    Some(ReaderEvent::UserLoaded(self.users.load(index)))
                } else {
                    None
                }
            },
            ReaderAction::Yield => Some(ReaderEvent::Yielded),
            ReaderAction::Sleep { .. } => Some(ReaderEvent::Slept),
            ReaderAction::Exit => None,
        };
        reported
    }

    /// Gives the writer one turn: carries out the action it is waiting for
    /// and hands it the outcome. Returns the step the writer took, or nothing
    /// when the writer did not move: it has stopped, or one of its counters
    /// is at the end of its range.
    pub fn turn_writer(&mut self, worker: &mut WriterWorker, poll: PollResult) -> (step: Option<
        WriterStep,
    >)
        ensures
            (final(worker)@, final(self)@) == writer_turn(old(worker)@, old(self)@, poll),
            old(self)@.wf() ==> final(self)@.wf(),
            final(worker)@.wf(),
            match step {
                Some(taken) => {
                    &&& writer_response(old(self)@, pending_action(old(worker)@), poll).1
                        matches Some(event)
                    &&& writer_accepts(old(worker)@, event)
                    &&& taken.action == writer_next(old(worker)@, event).action
                    &&& taken.notes@ == writer_next(old(worker)@, event).notes
                },
                None => final(worker)@ == old(worker)@,
            },
    {
        let action = worker.pending();
        match self.perform_writer(action, poll) {
            Some(event) => {
                if worker.accepts(&event) {
                    Some(writer_loop(worker, event))
                } else {
                    None
                }
            },
            None => None,
        }
    }

    /// Gives the reader one turn: carries out the action it is waiting for
    /// and hands it the outcome. Returns the step the reader took, or nothing
    /// when the reader has stopped.
    pub fn turn_reader(&mut self, worker: &mut ReaderWorker, poll: PollResult) -> (step: Option<
        ReaderStep,
    >)
        ensures
            (final(worker)@, final(self)@) == reader_turn(old(worker)@, old(self)@, poll),
            old(self)@.wf() ==> final(self)@.wf(),
            final(worker)@.wf(),
            match step {
                Some(taken) => {
                    &&& reader_response(old(self)@, reader_pending(old(worker)@), poll).1
                        matches Some(event)
                    &&& taken.action == reader_next(old(worker)@, event).action
                    &&& taken.notes@ == reader_next(old(worker)@, event).notes
                },
                None => final(worker)@ == old(worker)@,
            },
    {
        let action = worker.pending();
        match self.perform_reader(action, poll) {
            Some(event) => Some(reader_loop(worker, event)),
            None => None,
        }
    }
}

/// The reader only reads: a turn leaves both tables as they were, publishes
/// nothing, and takes at most the oldest event off the bus, for good.
pub proof fn reader_only_reads(r: ReaderState, h: HostState, poll: PollResult)
    ensures
        reader_turn(r, h, poll).1.orders == h.orders,
        reader_turn(r, h, poll).1.users == h.users,
        reader_turn(r, h, poll).1.bus == h.bus || reader_turn(r, h, poll).1.bus
            == h.bus.after_consume(),
        reader_turn(r, h, poll).1.bus.attempts == h.bus.attempts,
{
}

/// The writer never consumes and never touches the users: a turn leaves the
/// users as they were and takes nothing off the bus but what the bus itself
/// discards to admit a new event.
pub proof fn writer_never_consumes(w: WriterState, h: HostState, poll: PollResult)
    ensures
        writer_turn(w, h, poll).1.users == h.users,
        writer_turn(w, h, poll).1.bus == h.bus || (exists|event: Event|
            #[trigger] h.bus.after_publish(event) == writer_turn(w, h, poll).1.bus),
{
    let action = pending_action(w);
    if let WriterAction::Publish { event } = action {
        assert(h.bus.after_publish(event) == writer_turn(w, h, poll).1.bus);
    }
}

/// A turn keeps a well-formed host well formed.
pub proof fn turns_keep_host_wf(w: WriterState, r: ReaderState, h: HostState, poll: PollResult)
    requires
        h.wf(),
    ensures
        writer_turn(w, h, poll).1.wf(),
        reader_turn(r, h, poll).1.wf(),
{
}

/// The notes of one turn of the reader: those of the step it takes, none
/// when it does not move.
pub open spec fn reader_turn_notes(r: ReaderState, h: HostState, poll: PollResult) -> Seq<
    ReaderNote,
> {
    match reader_response(h, reader_pending(r), poll).1 {
        Some(event) => reader_next(r, event).notes,
        None => seq![],
    }
}

/// What the reader reports of an event it takes off the bus, over the turn
/// that consumes it and the turn that looks its slot up, is what
/// `process_event` reports of it: nothing for a slot that is empty by then.
pub proof fn reader_reports_as_process_event(r: ReaderState, h: HostState, poll: PollResult)
    requires
        r.wf(),
        h.wf(),
        r.phase is Draining,
        h.bus.pending.len() > 0,
    ensures
        ({
            let event = h.bus.pending[0];
            let (looking, consumed) = reader_turn(r, h, poll);
            let first = reader_turn_notes(r, h, poll);
            let second = if looking.phase is ReadingOrder || looking.phase is ReadingUser {
                reader_turn_notes(looking, consumed, poll)
            } else {
                seq![]
            };
            first + second == event_notes(event, h.orders, h.users)
        }),
{
    let event = h.bus.pending[0];
    let (looking, consumed) = reader_turn(r, h, poll);
    let first = reader_turn_notes(r, h, poll);
    let second = if looking.phase is ReadingOrder || looking.phase is ReadingUser {
        reader_turn_notes(looking, consumed, poll)
    } else {
        seq![]
    };
    assert(first + second =~= event_notes(event, h.orders, h.users));
}

} // verus!
