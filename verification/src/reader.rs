//! The reader worker: it drains the bus and, for each change event, looks up
//! the record the event names and reports what the slot holds now.
//!
//! Like the writer it is a state machine that names actions and is told their
//! outcomes. An event is consumed once and never put back; a slot that has
//! become empty since the event was published is passed over in silence.

use vstd::prelude::*;
use crate::bus::{consumed_event, decode_consume};
use crate::poll::{should_stop, stop_requested, PollResult};
use crate::records::{
    occupied_order, occupied_user, present_order, present_user, Event, Order, User, ORDERS_CAP,
    TABLE_ID_ORDERS, TABLE_ID_USERS, USERS_CAP,
};

verus! {

/// Pause after a drain pass, in milliseconds.
pub const READER_INTERVAL_MILLIS: u64 = 2;

/// After this many events in a row the reader yields the processor once.
pub const YIELD_INTERVAL: u8 = 10;

/// Where the reader stands in its cycle. Each phase but `Stopped` waits for
/// the outcome of one action. `handled` counts the events of the current
/// drain pass since the last yield.
#[derive(Debug, Clone, Copy, PartialEq, Eq)]
pub enum ReaderPhase {
    /// Waiting for a poll of the shutdown channel and the host's running flag.
    Polling,
    /// Waiting for the bus to answer a consume.
    Draining { handled: u8 },
    /// Waiting for the order that `event` names.
    ReadingOrder { event: Event, handled: u8 },
    /// Waiting for the user that `event` names.
    ReadingUser { event: Event, handled: u8 },
    /// Waiting for the processor to come back after a yield.
    Yielding,
    /// Waiting for the pause after a drain pass to pass.
    Sleeping,
    /// Done; nothing more will be asked for.
    Stopped,
}

/// The outcome of an action, as the caller reports it.
#[derive(Debug, Clone, Copy, PartialEq, Eq)]
pub enum ReaderEvent {
    /// The shutdown channel and the running flag were polled.
    Polled(PollResult),
    /// The bus answered a consume with `status`; `slot` is the buffer it was
    /// given to fill.
    Consumed { status: i32, slot: Event },
    /// The order slot was read; this is its raw content.
    OrderLoaded(Order),
    /// The user slot was read; this is its raw content.
    UserLoaded(User),
    /// The processor was yielded and has come back.
    Yielded,
    /// The pause has passed.
    Slept,
}

/// What the caller is to do next.
#[derive(Debug, Clone, Copy, PartialEq, Eq)]
pub enum ReaderAction {
    /// Poll the shutdown channel and the host's running flag, without blocking.
    Poll,
    /// Ask the bus for one event, without blocking.
    Consume,
    /// Read slot `index` of the orders table.
    LoadOrder { index: usize },
    /// Read slot `index` of the users table.
    LoadUser { index: usize },
    /// Yield the processor once.
    Yield,
    /// Pause for `millis` milliseconds.
    Sleep { millis: u64 },
    /// Leave the loop.
    Exit,
}

/// Something worth logging that a step has established.
#[derive(Debug, Clone, Copy, PartialEq, Eq)]
pub enum ReaderNote {
    /// The reader begins its cycle.
    Starting,
    /// `event` named an order slot, which now holds `order`.
    OrderRead { event: Event, order: Order },
    /// `event` named a user slot, which now holds `user`.
    UserRead { event: Event, user: User },
    /// An event named a table that does not exist.
    UnknownTable { table_id: u8 },
    /// The reader leaves its cycle.
    ShuttingDown,
}

/// The reader's state as a value.
pub struct ReaderState {
    pub phase: ReaderPhase,
}

/// What one step yields: the state after it, the action it asks for, and the
/// notes it leaves, oldest first.
pub struct ReaderOutcome {
    pub state: ReaderState,
    pub action: ReaderAction,
    pub notes: Seq<ReaderNote>,
}

/// The action whose outcome a reader in state `s` is waiting for.
pub open spec fn reader_pending(s: ReaderState) -> ReaderAction {
    match s.phase {
        ReaderPhase::Polling => ReaderAction::Poll,
        ReaderPhase::Draining { .. } => ReaderAction::Consume,
        ReaderPhase::ReadingOrder { event, .. } => ReaderAction::LoadOrder {
            index: event.index as usize,
        },
        ReaderPhase::ReadingUser { event, .. } => ReaderAction::LoadUser {
            index: event.index as usize,
        },
        ReaderPhase::Yielding => ReaderAction::Yield,
        ReaderPhase::Sleeping => ReaderAction::Sleep { millis: READER_INTERVAL_MILLIS },
        ReaderPhase::Stopped => ReaderAction::Exit,
    }
}

/// A reader in `phase`, asking for that phase's action.
pub open spec fn reader_enter(phase: ReaderPhase, notes: Seq<ReaderNote>) -> ReaderOutcome {
    let state = ReaderState { phase };
    ReaderOutcome { state, action: reader_pending(state), notes }
}

/// The phase after one more event of the drain pass was dealt with: after
/// every tenth the reader yields, otherwise it asks the bus again.
pub open spec fn after_event(handled: u8) -> ReaderPhase {
    if handled + 1 >= YIELD_INTERVAL {
        ReaderPhase::Yielding
    } else {
        ReaderPhase::Draining { handled: (handled + 1) as u8 }
    }
}

/// What a consumed event asks of the reader: a look at the slot it names, if
/// the table exists and the slot lies within it. An event for a table that
/// does not exist is noted; one for a slot outside its table reads as an
/// empty slot.
pub open spec fn take_event(event: Event, handled: u8) -> ReaderOutcome {
    if event.table_id == TABLE_ID_ORDERS {
        if event.index < ORDERS_CAP {
            reader_enter(ReaderPhase::ReadingOrder { event, handled }, seq![])
        } else {
            reader_enter(after_event(handled), seq![])
        }
    } else if event.table_id == TABLE_ID_USERS {
        if event.index < USERS_CAP {
            reader_enter(ReaderPhase::ReadingUser { event, handled }, seq![])
        } else {
            reader_enter(after_event(handled), seq![])
        }
    } else {
        reader_enter(
            after_event(handled),
            seq![ReaderNote::UnknownTable { table_id: event.table_id }],
        )
    }
}

/// The note on an order slot that was looked up for `event`: none when the
/// slot is empty.
pub open spec fn order_notes(event: Event, raw: Order) -> Seq<ReaderNote> {
    match present_order(raw) {
        Some(order) => seq![ReaderNote::OrderRead { event, order }],
        None => seq![],
    }
}

/// The note on a user slot that was looked up for `event`: none when the
/// slot is empty.
pub open spec fn user_notes(event: Event, raw: User) -> Seq<ReaderNote> {
    match present_user(raw) {
        Some(user) => seq![ReaderNote::UserRead { event, user }],
        None => seq![],
    }
}

/// What starting a reader yields.
pub open spec fn reader_start() -> ReaderOutcome {
    reader_enter(ReaderPhase::Polling, seq![ReaderNote::Starting])
}

/// The transition function of the reader.
///
/// * `Polling`: a poll that asks to stop ends the reader; any other poll
///   opens a drain pass.
/// * `Draining`: an event from the bus is taken up; an empty bus ends the
///   pass and the reader goes to sleep.
/// * `ReadingOrder`, `ReadingUser`: the slot's content is reported unless the
///   slot is empty, and the pass goes on.
/// * `Yielding`: the pass goes on.
/// * `Sleeping`: once the pause has passed the reader polls again.
///
/// An event that the current phase does not wait for changes nothing and
/// repeats the pending action.
pub open spec fn reader_next(s: ReaderState, e: ReaderEvent) -> ReaderOutcome {
    match (s.phase, e) {
        (ReaderPhase::Polling, ReaderEvent::Polled(poll)) => {
            if stop_requested(poll) {
                reader_enter(ReaderPhase::Stopped, seq![ReaderNote::ShuttingDown])
            } else {
                reader_enter(ReaderPhase::Draining { handled: 0 }, seq![])
            }
        },
        (ReaderPhase::Draining { handled }, ReaderEvent::Consumed { status, slot }) => {
            match consumed_event(status, slot) {
                Some(event) => take_event(event, handled),
                None => reader_enter(ReaderPhase::Sleeping, seq![]),
            }
        },
        (ReaderPhase::ReadingOrder { event, handled }, ReaderEvent::OrderLoaded(raw)) => {
            reader_enter(after_event(handled), order_notes(event, raw))
        },
        (ReaderPhase::ReadingUser { event, handled }, ReaderEvent::UserLoaded(raw)) => {
            reader_enter(after_event(handled), user_notes(event, raw))
        },
        (ReaderPhase::Yielding, ReaderEvent::Yielded) => {
            reader_enter(ReaderPhase::Draining { handled: 0 }, seq![])
        },
        (ReaderPhase::Sleeping, ReaderEvent::Slept) => reader_enter(ReaderPhase::Polling, seq![]),
        _ => ReaderOutcome { state: s, action: reader_pending(s), notes: seq![] },
    }
}

impl ReaderState {
    /// The count of events since the last yield stays below the yield
    /// interval, and a slot that is being read lies within its table.
    pub open spec fn wf(self) -> bool {
        match self.phase {
            ReaderPhase::Draining { handled } => handled < YIELD_INTERVAL,
            ReaderPhase::ReadingOrder { event, handled } => {
                &&& handled < YIELD_INTERVAL
                &&& event.table_id == TABLE_ID_ORDERS
                &&& event.index < ORDERS_CAP
            },
            ReaderPhase::ReadingUser { event, handled } => {
                &&& handled < YIELD_INTERVAL
                &&& event.table_id == TABLE_ID_USERS
                &&& event.index < USERS_CAP
            },
            _ => true,
        }
    }
}

/// What a step hands back: the next action, and the notes the step left,
/// oldest first.
#[derive(Debug, PartialEq, Eq)]
pub struct ReaderStep {
    pub action: ReaderAction,
    pub notes: Vec<ReaderNote>,
}

/// The reader worker.
#[derive(Debug, Clone, Copy)]
pub struct ReaderWorker {
    phase: ReaderPhase,
}

impl View for ReaderWorker {
    type V = ReaderState;

    closed spec fn view(&self) -> ReaderState {
        ReaderState { phase: self.phase }
    }
}

impl ReaderWorker {
    #[verifier::type_invariant]
    spec fn inv(self) -> bool {
        self@.wf()
    }

    /// Starts a reader. Its first action is to poll.
    pub fn start() -> (started: (ReaderWorker, ReaderStep))
        ensures
            started.0@ == reader_start().state,
            started.0@.wf(),
            started.1.action == reader_start().action,
            started.1.notes@ == reader_start().notes,
    {
        let mut notes: Vec<ReaderNote> = Vec::new();
        notes.push(ReaderNote::Starting);
        (ReaderWorker { phase: ReaderPhase::Polling }, ReaderStep { action: ReaderAction::Poll, notes })
    }

    /// The action whose outcome the reader is waiting for.
    pub fn pending(&self) -> (action: ReaderAction)
        ensures
            action == reader_pending(self@),
            self@.wf(),
    {
        proof {
            use_type_invariant(self);
        }
        match self.phase {
            ReaderPhase::Polling => ReaderAction::Poll,
            ReaderPhase::Draining { .. } => ReaderAction::Consume,
            ReaderPhase::ReadingOrder { event, .. } => ReaderAction::LoadOrder {
                index: event.index as usize,
            },
            ReaderPhase::ReadingUser { event, .. } => ReaderAction::LoadUser {
                index: event.index as usize,
            },
            ReaderPhase::Yielding => ReaderAction::Yield,
            ReaderPhase::Sleeping => ReaderAction::Sleep { millis: READER_INTERVAL_MILLIS },
            ReaderPhase::Stopped => ReaderAction::Exit,
        }
    }

    /// Whether the reader has stopped.
    pub fn is_stopped(&self) -> (stopped: bool)
        ensures
            stopped == (self@.phase is Stopped),
    {
        match self.phase {
            ReaderPhase::Stopped => true,
            _ => false,
        }
    }
}

/// The phase after one more event of the drain pass was dealt with.
fn next_in_pass(handled: u8) -> (phase: ReaderPhase)
    requires
        handled < YIELD_INTERVAL,
    ensures
        phase == after_event(handled),
        (ReaderState { phase }).wf(),
{
    if handled + 1 >= YIELD_INTERVAL {
        ReaderPhase::Yielding
    } else {
        ReaderPhase::Draining { handled: handled + 1 }
    }
}

/// Decides what a consumed event asks of the reader: which slot to look up,
/// or, when there is none to look up, the note to leave.
fn take_up(event: Event, handled: u8) -> (taken: (ReaderPhase, Vec<ReaderNote>))
    requires
        handled < YIELD_INTERVAL,
    ensures
        taken.0 == take_event(event, handled).state.phase,
        taken.1@ == take_event(event, handled).notes,
        (ReaderState { phase: taken.0 }).wf(),
{
    let mut notes: Vec<ReaderNote> = Vec::new();
    let index: usize = event.index as usize;
    let phase = if event.table_id == TABLE_ID_ORDERS {
        if index < ORDERS_CAP {
            ReaderPhase::ReadingOrder { event, handled }
        } else {
            next_in_pass(handled)
        }
    } else if event.table_id == TABLE_ID_USERS {
        if index < USERS_CAP {
            ReaderPhase::ReadingUser { event, handled }
        } else {
            next_in_pass(handled)
        }
    } else {
        notes.push(ReaderNote::UnknownTable { table_id: event.table_id });
        next_in_pass(handled)
    };
    (phase, notes)
}

/// Advances the reader by one step: takes the outcome of the action it was
/// waiting for and names the next one.
pub fn reader_loop(worker: &mut ReaderWorker, event: ReaderEvent) -> (step: ReaderStep)
    ensures
        final(worker)@ == reader_next(old(worker)@, event).state,
        final(worker)@.wf(),
        step.action == reader_next(old(worker)@, event).action,
        step.notes@ == reader_next(old(worker)@, event).notes,
{
    proof {
        use_type_invariant(&*worker);
    }
    let mut notes: Vec<ReaderNote> = Vec::new();
    match (worker.phase, event) {
        (ReaderPhase::Polling, ReaderEvent::Polled(poll)) => {
            if should_stop(poll) {
                notes.push(ReaderNote::ShuttingDown);
                worker.phase = ReaderPhase::Stopped;
            } else {
                worker.phase = ReaderPhase::Draining { handled: 0 };
            }
        },
        (ReaderPhase::Draining { handled }, ReaderEvent::Consumed { status, slot }) => {
            match decode_consume(status, slot) {
                Some(consumed) => {
                    let (phase, left) = take_up(consumed, handled);
                    notes = left;
                    worker.phase = phase;
                },
                None => {
                    worker.phase = ReaderPhase::Sleeping;
                },
            }
        },
        (ReaderPhase::ReadingOrder { event: source, handled }, ReaderEvent::OrderLoaded(raw)) => {
            if let Some(order) = occupied_order(raw) {
                notes.push(ReaderNote::OrderRead { event: source, order });
            }
            worker.phase = next_in_pass(handled);
        },
        (ReaderPhase::ReadingUser { event: source, handled }, ReaderEvent::UserLoaded(raw)) => {
            if let Some(user) = occupied_user(raw) {
                notes.push(ReaderNote::UserRead { event: source, user });
            }
            worker.phase = next_in_pass(handled);
        },
        (ReaderPhase::Yielding, ReaderEvent::Yielded) => {
            worker.phase = ReaderPhase::Draining { handled: 0 };
        },
        (ReaderPhase::Sleeping, ReaderEvent::Slept) => {
            worker.phase = ReaderPhase::Polling;
        },
        _ => {},
    }
    let action = worker.pending();
    ReaderStep { action, notes }
}

/// An event for a slot that has become empty since it was published leaves
/// no note and the drain pass goes on.
pub proof fn empty_slot_is_passed_over(event: Event, handled: u8, order: Order, user: User)
    requires
        order.id == 0,
        user.id == 0,
    ensures
        reader_next(
            ReaderState { phase: ReaderPhase::ReadingOrder { event, handled } },
            ReaderEvent::OrderLoaded(order),
        ) == reader_enter(after_event(handled), seq![]),
        reader_next(
            ReaderState { phase: ReaderPhase::ReadingUser { event, handled } },
            ReaderEvent::UserLoaded(user),
        ) == reader_enter(after_event(handled), seq![]),
        !(after_event(handled) is Stopped),
{
}

/// Only a poll stops the reader: whatever else is reported to it, a reader
/// that has not stopped goes on.
pub proof fn reader_stops_only_on_poll(s: ReaderState, e: ReaderEvent)
    requires
        !(s.phase is Stopped),
        reader_next(s, e).state.phase is Stopped,
    ensures
        s.phase is Polling,
        e matches ReaderEvent::Polled(poll) && stop_requested(poll),
{
}

/// A reader that has stopped stays stopped and asks only to leave.
pub proof fn reader_stopped_is_final(s: ReaderState, e: ReaderEvent)
    requires
        s.phase is Stopped,
    ensures
        reader_next(s, e).state == s,
        reader_next(s, e).action == ReaderAction::Exit,
        reader_next(s, e).notes == Seq::<ReaderNote>::empty(),
{
}

/// Every step leaves the reader well formed: the slot it asks to read lies
/// within its table.
pub proof fn reader_next_keeps_wf(s: ReaderState, e: ReaderEvent)
    requires
        s.wf(),
    ensures
        reader_next(s, e).state.wf(),
        reader_next(s, e).action == reader_pending(reader_next(s, e).state),
        match reader_next(s, e).action {
            ReaderAction::LoadOrder { index } => index < ORDERS_CAP,
            ReaderAction::LoadUser { index } => index < USERS_CAP,
            _ => true,
        },
{
}

} // verus!
