//! The writer worker: on a fixed cadence it picks the next slot of the orders
//! table in round-robin order, reads what the slot holds, stores a fresh order
//! under the next version, and announces the change on the bus.
//!
//! The worker is a state machine. It never touches the table, the bus or the
//! clock itself: each step takes the outcome of the last action and names the
//! next one, and the caller carries the actions out.

use vstd::prelude::*;
use vstd::assert_by_contradiction;
use crate::bus::{decode_publish, publish_outcome, PublishOutcome};
use crate::poll::{should_stop, stop_requested, PollResult};
use crate::records::{Event, Order, EV_OP_UPSERT, ORDERS_CAP, TABLE_ID_ORDERS};
use crate::rng::{lcg_next, simple_random, SimpleRng, LCG_SEED};

verus! {

/// Pause between two iterations at the default cadence, in milliseconds.
pub const DEFAULT_INTERVAL_MILLIS: u64 = 150;

/// Pause between two iterations at the high-frequency cadence, in milliseconds.
pub const HIGH_FREQUENCY_INTERVAL_MILLIS: u64 = 15;

/// Every this many iterations the worker reports its progress.
pub const PROGRESS_INTERVAL: u64 = 50;

/// Identifier of the first order a worker generates.
pub const FIRST_ORDER_ID: u32 = 8000;

/// Lowest price a generated order carries, in cents.
pub const MIN_PRICE_CENTS: u32 = 10000;

/// Number of distinct prices a generated order can carry.
pub const PRICE_SPAN_CENTS: u32 = 50000;

/// Largest quantity a generated order carries.
pub const MAX_QTY: u32 = 100;

/// The two toggles that are read once, when the worker starts.
#[derive(Debug, Clone, Copy, PartialEq, Eq, Structural)]
pub struct WriterConfig {
    /// The worker stops at once and writes nothing.
    pub writer_disabled: bool,
    /// The worker pauses 15 ms between iterations in place of 150 ms.
    pub high_frequency: bool,
}

/// The counter of order identifiers and the state of the payload generator.
///
/// Identifiers are unique in the process as long as one seed serves it: the
/// seed is made once, a worker takes it when it starts and gives it back when
/// it ends, and the next worker goes on from there.
#[derive(Debug, Clone, Copy, PartialEq, Eq, Structural)]
pub struct WriterSeed {
    /// Identifier that the next generated order receives.
    pub next_order_id: u32,
    /// State of the payload generator.
    pub rng_state: u32,
}

/// Where the worker stands in its cycle. Each phase but `Stopped` waits for
/// the outcome of one action.
#[derive(Debug, Clone, Copy, PartialEq, Eq)]
pub enum WriterPhase {
    /// Waiting for a poll of the shutdown channel and the host's running flag.
    Polling,
    /// Waiting for the current content of slot `index`.
    Generating { index: usize },
    /// Waiting for `order` to be stored in slot `index`.
    Storing { index: usize, order: Order },
    /// Waiting for the bus to answer the announcement of `order`.
    Publishing { index: usize, order: Order },
    /// Waiting for the pause between two iterations to pass.
    Sleeping,
    /// Done; nothing more will be asked for.
    Stopped,
}

/// The outcome of an action, as the caller reports it.
#[derive(Debug, Clone, Copy, PartialEq, Eq)]
pub enum WriterEvent {
    /// The shutdown channel and the running flag were polled.
    Polled(PollResult),
    /// The slot was read; this is its raw content, an empty slot included.
    SlotLoaded(Order),
    /// The store was attempted.
    Stored(Result<(), &'static str>),
    /// The bus answered a publish with this status code.
    Published(i32),
    /// The pause has passed.
    Slept,
}

/// What the caller is to do next.
#[derive(Debug, Clone, Copy, PartialEq, Eq)]
pub enum WriterAction {
    /// Poll the shutdown channel and the host's running flag, without blocking.
    Poll,
    /// Read slot `index` of the orders table.
    LoadSlot { index: usize },
    /// Store `order` in slot `index` as one whole value, and make the store
    /// visible before anything is published.
    Store { index: usize, order: Order },
    /// Offer `event` to the bus, without blocking.
    Publish { event: Event },
    /// Pause for `millis` milliseconds.
    Sleep { millis: u64 },
    /// Leave the loop.
    Exit,
}

/// Something worth logging that a step has established.
#[derive(Debug, Clone, Copy, PartialEq, Eq)]
pub enum WriterNote {
    /// The worker was disabled by configuration and does no work.
    Disabled,
    /// The worker begins its cycle.
    Starting,
    /// The store into slot `index` failed; the iteration was abandoned.
    WriteFailed { index: usize, reason: &'static str },
    /// The bus discarded its oldest pending event to admit the new one.
    EventDropped,
    /// The bus did not admit the event. The stored order stands.
    PublishFailed,
    /// `order` now stands in slot `index`.
    Snapshot { index: usize, order: Order },
    /// The worker has completed `iterations` iterations so far.
    Progress { iterations: u64 },
    /// The worker leaves its cycle.
    ShuttingDown,
}

/// The worker's state as a value.
pub struct WriterState {
    pub phase: WriterPhase,
    pub config: WriterConfig,
    /// Iterations completed so far; the round-robin index.
    pub iterations: u64,
    /// Identifier that the next generated order receives.
    pub next_order_id: u32,
    /// State of the payload generator.
    pub rng_state: u32,
}

/// What one step yields: the state after it, the action it asks for, and the
/// notes it leaves, oldest first.
pub struct WriterOutcome {
    pub state: WriterState,
    pub action: WriterAction,
    pub notes: Seq<WriterNote>,
}

/// The slot that iteration number `iterations` writes: the round-robin index
/// wrapped over the table's capacity.
pub open spec fn slot_for(iterations: u64) -> usize {
    (iterations as int % ORDERS_CAP as int) as usize
}

/// The version a reader finds in a slot that holds `raw`; an empty slot
/// counts as version 0.
pub open spec fn current_version(raw: Order) -> u32 {
    if raw.id == 0 {
        0
    } else {
        raw.version
    }
}

/// The seed with which a process begins: the first identifier and the
/// generator's seed state.
pub open spec fn first_seed() -> WriterSeed {
    WriterSeed { next_order_id: FIRST_ORDER_ID, rng_state: LCG_SEED }
}

/// The order that `seed` yields for a slot whose version is `current`: the
/// next identifier, the next version, a quantity from 1 to 100 drawn from the
/// first random value and a price from 10000 to 59999 cents drawn from the
/// second.
pub open spec fn drawn_order(seed: WriterSeed, current: u32) -> Order {
    let first = lcg_next(seed.rng_state);
    let second = lcg_next(first);
    Order {
        id: seed.next_order_id as u64,
        version: (current + 1) as u32,
        qty: (1 + first % MAX_QTY) as i32,
        price_cents: (MIN_PRICE_CENTS + second % PRICE_SPAN_CENTS) as u32,
    }
}

/// The seed after one order was drawn from it: one identifier is used up and
/// the generator has moved on by two values.
pub open spec fn seed_after_draw(seed: WriterSeed) -> WriterSeed {
    WriterSeed {
        next_order_id: next_id_after(seed.next_order_id),
        rng_state: lcg_next(lcg_next(seed.rng_state)),
    }
}

/// The seed after `n` orders were drawn from it.
pub open spec fn seed_after_draws(seed: WriterSeed, n: nat) -> WriterSeed
    decreases n,
{
    if n == 0 {
        seed
    } else {
        seed_after_draws(seed_after_draw(seed), (n - 1) as nat)
    }
}

/// The identifier that is `n` draws after `id`. The counter wraps at 2^32.
pub open spec fn id_after(id: u32, n: nat) -> u32 {
    ((id + n) % 0x1_0000_0000) as u32
}

/// The order that a worker in state `s` generates for a slot that holds `raw`.
pub open spec fn generated_order(s: WriterState, raw: Order) -> Order {
    drawn_order(s.seed(), current_version(raw))
}

/// The identifier counter after one order was generated. It wraps.
pub open spec fn next_id_after(id: u32) -> u32 {
    if id == u32::MAX {
        0
    } else {
        (id + 1) as u32
    }
}

/// The event that announces `order` in slot `index`.
pub open spec fn upsert_event(index: usize, order: Order) -> Event {
    Event { table_id: TABLE_ID_ORDERS, index: index as u16, op: EV_OP_UPSERT, version: order.version }
}

/// The pause between two iterations under `config`.
pub open spec fn interval_millis(config: WriterConfig) -> u64 {
    if config.high_frequency {
        HIGH_FREQUENCY_INTERVAL_MILLIS
    } else {
        DEFAULT_INTERVAL_MILLIS
    }
}

/// The progress note that is due once `iterations` iterations are complete.
pub open spec fn progress_notes(iterations: u64) -> Seq<WriterNote> {
    if iterations % PROGRESS_INTERVAL == 0 {
        seq![WriterNote::Progress { iterations }]
    } else {
        seq![]
    }
}

/// The note that a publish outcome calls for.
pub open spec fn publish_notes(outcome: PublishOutcome) -> Seq<WriterNote> {
    match outcome {
        PublishOutcome::Delivered => seq![],
        PublishOutcome::DeliveredWithDrop => seq![WriterNote::EventDropped],
        PublishOutcome::Failed => seq![WriterNote::PublishFailed],
    }
}

/// The action whose outcome a worker in state `s` is waiting for.
pub open spec fn pending_action(s: WriterState) -> WriterAction {
    match s.phase {
        WriterPhase::Polling => WriterAction::Poll,
        WriterPhase::Generating { index } => WriterAction::LoadSlot { index },
        WriterPhase::Storing { index, order } => WriterAction::Store { index, order },
        WriterPhase::Publishing { index, order } => WriterAction::Publish {
            event: upsert_event(index, order),
        },
        WriterPhase::Sleeping => WriterAction::Sleep { millis: interval_millis(s.config) },
        WriterPhase::Stopped => WriterAction::Exit,
    }
}

/// State `s` moved to `phase`, asking for that phase's action.
pub open spec fn enter(s: WriterState, phase: WriterPhase, notes: Seq<WriterNote>) -> WriterOutcome {
    let state = WriterState { phase, ..s };
    WriterOutcome { state, action: pending_action(state), notes }
}

/// The end of an iteration: the round-robin index advances, a progress note
/// follows `notes` when one is due, and the worker goes to sleep.
pub open spec fn finish_iteration(s: WriterState, notes: Seq<WriterNote>) -> WriterOutcome {
    let done = (s.iterations + 1) as u64;
    enter(WriterState { iterations: done, ..s }, WriterPhase::Sleeping, notes + progress_notes(done))
}

/// The state of a worker that was just started under `config` from `seed`.
pub open spec fn initial_state(config: WriterConfig, seed: WriterSeed) -> WriterState {
    WriterState {
        phase: if config.writer_disabled {
            WriterPhase::Stopped
        } else {
            WriterPhase::Polling
        },
        config,
        iterations: 0,
        next_order_id: seed.next_order_id,
        rng_state: seed.rng_state,
    }
}

/// What starting a worker under `config` from `seed` yields.
pub open spec fn writer_start(config: WriterConfig, seed: WriterSeed) -> WriterOutcome {
    let state = initial_state(config, seed);
    WriterOutcome {
        state,
        action: pending_action(state),
        notes: if config.writer_disabled {
            seq![WriterNote::Disabled]
        } else {
            seq![WriterNote::Starting]
        },
    }
}

/// The transition function of the writer.
///
/// * `Polling`: a poll that asks to stop ends the worker; any other poll
///   opens an iteration on the slot the round-robin index selects.
/// * `Generating`: the slot's content yields the order to store.
/// * `Storing`: a successful store is followed by its announcement; a failed
///   one is noted and ends the iteration.
/// * `Publishing`: whatever the bus answers, the stored order is reported and
///   the iteration ends. A drop or a failure is noted, never retried.
/// * `Sleeping`: once the pause has passed the worker polls again.
///
/// An event that the current phase does not wait for changes nothing and
/// repeats the pending action.
pub open spec fn writer_next(s: WriterState, e: WriterEvent) -> WriterOutcome {
    match (s.phase, e) {
        (WriterPhase::Polling, WriterEvent::Polled(poll)) => {
            if stop_requested(poll) {
                enter(s, WriterPhase::Stopped, seq![WriterNote::ShuttingDown])
            } else {
                enter(s, WriterPhase::Generating { index: slot_for(s.iterations) }, seq![])
            }
        },
        (WriterPhase::Generating { index }, WriterEvent::SlotLoaded(raw)) => {
            let order = generated_order(s, raw);
            enter(s.with_seed(seed_after_draw(s.seed())), WriterPhase::Storing { index, order }, seq![])
        },
        (WriterPhase::Storing { index, order }, WriterEvent::Stored(Ok(_))) => {
            enter(s, WriterPhase::Publishing { index, order }, seq![])
        },
        (WriterPhase::Storing { index, order }, WriterEvent::Stored(Err(reason))) => {
            finish_iteration(s, seq![WriterNote::WriteFailed { index, reason }])
        },
        (WriterPhase::Publishing { index, order }, WriterEvent::Published(status)) => {
            finish_iteration(
                s,
                publish_notes(publish_outcome(status)) + seq![WriterNote::Snapshot { index, order }],
            )
        },
        (WriterPhase::Sleeping, WriterEvent::Slept) => enter(s, WriterPhase::Polling, seq![]),
        _ => WriterOutcome { state: s, action: pending_action(s), notes: seq![] },
    }
}

/// The events a worker in state `s` can take without a counter leaving its
/// range: the version found in the slot must have a successor, and an
/// iteration can only end while the iteration count has one.
pub open spec fn writer_accepts(s: WriterState, e: WriterEvent) -> bool {
    match (s.phase, e) {
        (WriterPhase::Generating { .. }, WriterEvent::SlotLoaded(raw)) => current_version(raw)
            < u32::MAX,
        (WriterPhase::Storing { .. }, WriterEvent::Stored(Err(_))) => s.iterations < u64::MAX,
        (WriterPhase::Publishing { .. }, WriterEvent::Published(_)) => s.iterations < u64::MAX,
        _ => true,
    }
}

impl WriterState {
    /// The seed as the worker holds it: what it would give back if it ended
    /// now.
    pub open spec fn seed(self) -> WriterSeed {
        WriterSeed { next_order_id: self.next_order_id, rng_state: self.rng_state }
    }

    /// This state with its seed replaced by `seed`.
    pub open spec fn with_seed(self, seed: WriterSeed) -> WriterState {
        WriterState { next_order_id: seed.next_order_id, rng_state: seed.rng_state, ..self }
    }

    /// A slot named by the phase is the one the round-robin index selects.
    pub open spec fn wf(self) -> bool {
        match self.phase {
            WriterPhase::Generating { index } => index == slot_for(self.iterations),
            WriterPhase::Storing { index, .. } => index == slot_for(self.iterations),
            WriterPhase::Publishing { index, .. } => index == slot_for(self.iterations),
            _ => true,
        }
    }
}

/// What a step hands back: the next action, and the notes the step left,
/// oldest first.
#[derive(Debug, PartialEq, Eq)]
pub struct WriterStep {
    pub action: WriterAction,
    pub notes: Vec<WriterNote>,
}

/// The writer worker.
#[derive(Debug, Clone, Copy)]
pub struct WriterWorker {
    phase: WriterPhase,
    config: WriterConfig,
    iterations: u64,
    seed: WriterSeed,
}

impl WriterSeed {
    /// The seed with which a process begins. It is to be made once; every
    /// worker of the process draws from it in turn.
    pub fn first() -> (seed: WriterSeed)
        ensures
            seed == first_seed(),
    {
        WriterSeed { next_order_id: FIRST_ORDER_ID, rng_state: LCG_SEED }
    }

    /// Draws the order for a slot whose version is `current`, and moves the
    /// seed on. The identifier counter wraps.
    pub fn draw_order(&mut self, current: u32) -> (order: Order)
        requires
            current < u32::MAX,
        ensures
            order == drawn_order(*old(self), current),
            *final(self) == seed_after_draw(*old(self)),
    {
        let mut rng = SimpleRng::from_state(self.rng_state);
        let first: u32 = simple_random(&mut rng);
        let second: u32 = simple_random(&mut rng);
        let order = Order {
            id: self.next_order_id as u64,
            version: current + 1,
            qty: (1 + first % MAX_QTY) as i32,
            price_cents: MIN_PRICE_CENTS + second % PRICE_SPAN_CENTS,
        };
        self.next_order_id = self.next_order_id.wrapping_add(1);
        self.rng_state = rng.state();
        order
    }
}

impl View for WriterWorker {
    type V = WriterState;

    closed spec fn view(&self) -> WriterState {
        WriterState {
            phase: self.phase,
            config: self.config,
            iterations: self.iterations,
            next_order_id: self.seed.next_order_id,
            rng_state: self.seed.rng_state,
        }
    }
}

impl WriterWorker {
    #[verifier::type_invariant]
    spec fn inv(self) -> bool {
        self@.wf()
    }

    /// Starts a worker from `seed`. A disabled worker is stopped from the
    /// outset and its first action is to exit; any other begins by polling.
    /// The worker goes on from the seed it is given: it starts neither the
    /// identifiers nor the generator anew.
    pub fn start(config: WriterConfig, seed: WriterSeed) -> (started: (WriterWorker, WriterStep))
        ensures
            started.0@ == writer_start(config, seed).state,
            started.0@.next_order_id == seed.next_order_id,
            started.0@.rng_state == seed.rng_state,
            started.0@.wf(),
            started.1.action == writer_start(config, seed).action,
            started.1.notes@ == writer_start(config, seed).notes,
    {
        let mut notes: Vec<WriterNote> = Vec::new();
        let phase = if config.writer_disabled {
            notes.push(WriterNote::Disabled);
            WriterPhase::Stopped
        } else {
            notes.push(WriterNote::Starting);
            WriterPhase::Polling
        };
        let worker = WriterWorker {
            phase,
            config,
            iterations: 0,
            seed,
        };
        let action = worker.pending();
        (worker, WriterStep { action, notes })
    }

    /// The action whose outcome the worker is waiting for.
    pub fn pending(&self) -> (action: WriterAction)
        ensures
            action == pending_action(self@),
            self@.wf(),
    {
        proof {
            use_type_invariant(self);
        }
        match self.phase {
            WriterPhase::Polling => WriterAction::Poll,
            WriterPhase::Generating { index } => WriterAction::LoadSlot { index },
            WriterPhase::Storing { index, order } => WriterAction::Store { index, order },
            WriterPhase::Publishing { index, order } => WriterAction::Publish {
                event: Event {
                    table_id: TABLE_ID_ORDERS,
                    index: index as u16,
                    op: EV_OP_UPSERT,
                    version: order.version,
                },
            },
            WriterPhase::Sleeping => WriterAction::Sleep { millis: self.interval() },
            WriterPhase::Stopped => WriterAction::Exit,
        }
    }

    /// The pause between two iterations.
    pub fn interval(&self) -> (millis: u64)
        ensures
            millis == interval_millis(self@.config),
    {
        if self.config.high_frequency {
            HIGH_FREQUENCY_INTERVAL_MILLIS
        } else {
            DEFAULT_INTERVAL_MILLIS
        }
    }

    /// The seed as the worker holds it now, for whoever starts the next
    /// worker.
    pub fn seed(&self) -> (seed: WriterSeed)
        ensures
            seed == self@.seed(),
            seed.next_order_id == self@.next_order_id,
            seed.rng_state == self@.rng_state,
    {
        self.seed
    }

    /// Iterations completed so far.
    pub fn iterations(&self) -> (count: u64)
        ensures
            count == self@.iterations,
    {
        self.iterations
    }

    /// Whether the worker has stopped.
    pub fn is_stopped(&self) -> (stopped: bool)
        ensures
            stopped == (self@.phase is Stopped),
    {
        match self.phase {
            WriterPhase::Stopped => true,
            _ => false,
        }
    }

    /// Whether `writer_loop` may be called with `event`.
    pub fn accepts(&self, event: &WriterEvent) -> (ok: bool)
        ensures
            ok == writer_accepts(self@, *event),
    {
        match (self.phase, *event) {
            (WriterPhase::Generating { .. }, WriterEvent::SlotLoaded(raw)) => raw.id == 0
                || raw.version < u32::MAX,
            (WriterPhase::Storing { .. }, WriterEvent::Stored(Err(_))) => self.iterations
                < u64::MAX,
            (WriterPhase::Publishing { .. }, WriterEvent::Published(_)) => self.iterations
                < u64::MAX,
            _ => true,
        }
    }

    /// Ends the current iteration: advances the round-robin index, appends
    /// the progress note when one is due, and goes to sleep.
    fn finish(&mut self, notes: Vec<WriterNote>) -> (step: WriterStep)
        requires
            old(self)@.iterations < u64::MAX,
        ensures
            final(self)@ == finish_iteration(old(self)@, notes@).state,
            step.action == finish_iteration(old(self)@, notes@).action,
            step.notes@ == finish_iteration(old(self)@, notes@).notes,
    {
        let mut notes = notes;
        let done: u64 = self.iterations + 1;
        if done % PROGRESS_INTERVAL == 0 {
            notes.push(WriterNote::Progress { iterations: done });
        }
        *self = WriterWorker {
            phase: WriterPhase::Sleeping,
            config: self.config,
            iterations: done,
            seed: self.seed,
        };
        WriterStep { action: WriterAction::Sleep { millis: self.interval() }, notes }
    }
}

/// Advances the writer by one step: takes the outcome of the action it was
/// waiting for and names the next one.
pub fn writer_loop(worker: &mut WriterWorker, event: WriterEvent) -> (step: WriterStep)
    requires
        writer_accepts(old(worker)@, event),
    ensures
        final(worker)@ == writer_next(old(worker)@, event).state,
        final(worker)@.wf(),
        step.action == writer_next(old(worker)@, event).action,
        step.notes@ == writer_next(old(worker)@, event).notes,
{
    proof {
        use_type_invariant(&*worker);
    }
    let mut notes: Vec<WriterNote> = Vec::new();
    match (worker.phase, event) {
        (WriterPhase::Polling, WriterEvent::Polled(poll)) => {
            if should_stop(poll) {
                notes.push(WriterNote::ShuttingDown);
                worker.phase = WriterPhase::Stopped;
            } else {
                let index: usize = (worker.iterations % (ORDERS_CAP as u64)) as usize;
                worker.phase = WriterPhase::Generating { index };
            }
        },
        (WriterPhase::Generating { index }, WriterEvent::SlotLoaded(raw)) => {
            let current: u32 = if raw.id == 0 {
                0
            } else {
                raw.version
            };
            let mut seed = worker.seed;
            let order = seed.draw_order(current);
            *worker = WriterWorker {
                phase: WriterPhase::Storing { index, order },
                config: worker.config,
                iterations: worker.iterations,
                seed,
            };
        },
        (WriterPhase::Storing { index, order }, WriterEvent::Stored(Ok(_))) => {
            worker.phase = WriterPhase::Publishing { index, order };
        },
        (WriterPhase::Storing { index, order }, WriterEvent::Stored(Err(reason))) => {
            notes.push(WriterNote::WriteFailed { index, reason });
            return worker.finish(notes);
        },
        (WriterPhase::Publishing { index, order }, WriterEvent::Published(status)) => {
            match decode_publish(status) {
                PublishOutcome::Delivered => {},
                PublishOutcome::DeliveredWithDrop => {
                    notes.push(WriterNote::EventDropped);
                },
                PublishOutcome::Failed => {
                    notes.push(WriterNote::PublishFailed);
                },
            }
            notes.push(WriterNote::Snapshot { index, order });
            return worker.finish(notes);
        },
        (WriterPhase::Sleeping, WriterEvent::Slept) => {
            worker.phase = WriterPhase::Polling;
        },
        _ => {},
    }
    let action = worker.pending();
    WriterStep { action, notes }
}

/// Only a poll stops the writer: whatever else is reported to it, a failed
/// store and a failed publish included, a writer that has not stopped goes
/// on.
pub proof fn writer_stops_only_on_poll(s: WriterState, e: WriterEvent)
    requires
        !(s.phase is Stopped),
        writer_next(s, e).state.phase is Stopped,
    ensures
        s.phase is Polling,
        e matches WriterEvent::Polled(poll) && stop_requested(poll),
{
}

/// A writer that has stopped stays stopped and asks only to leave. A writer
/// that was disabled is stopped from the start.
pub proof fn writer_stopped_is_final(s: WriterState, e: WriterEvent)
    requires
        s.phase is Stopped,
    ensures
        writer_next(s, e).state == s,
        writer_next(s, e).action == WriterAction::Exit,
        writer_next(s, e).notes == Seq::<WriterNote>::empty(),
{
}

/// Every step leaves the writer well formed, and what it asks to read or to
/// store lies within the orders table.
pub proof fn writer_next_keeps_wf(s: WriterState, e: WriterEvent)
    requires
        s.wf(),
    ensures
        writer_next(s, e).state.wf(),
        writer_next(s, e).action == pending_action(writer_next(s, e).state),
        match writer_next(s, e).action {
            WriterAction::LoadSlot { index } => index < ORDERS_CAP,
            WriterAction::Store { index, .. } => index < ORDERS_CAP,
            _ => true,
        },
{
}

/// The writer stores before it announces: it comes to ask for a publish only
/// when a store is reported as done, and the event then carries the slot and
/// the version of the order that was stored.
pub proof fn publish_follows_store(s: WriterState, e: WriterEvent)
    requires
        s.wf(),
        !(s.phase is Publishing),
        writer_next(s, e).action is Publish,
    ensures
        s.phase is Storing,
        e matches WriterEvent::Stored(Ok(_)),
        ({
            let index = s.phase->Storing_index;
            let order = s.phase->Storing_order;
            let event = writer_next(s, e).action->Publish_event;
            &&& event.table_id == TABLE_ID_ORDERS
            &&& event.op == EV_OP_UPSERT
            &&& event.index == index
            &&& event.version == order.version
        }),
{
}

/// How the bus answers a publish changes the notes of the step and nothing
/// else: the writer goes on to the same state and the same action.
pub proof fn publish_outcome_is_only_noted(s: WriterState, first: i32, second: i32)
    requires
        s.phase is Publishing,
    ensures
        writer_next(s, WriterEvent::Published(first)).state == writer_next(
            s,
            WriterEvent::Published(second),
        ).state,
        writer_next(s, WriterEvent::Published(first)).action == writer_next(
            s,
            WriterEvent::Published(second),
        ).action,
{
}

/// Drawing once and then `n` times is drawing `n + 1` times.
pub proof fn draws_shift(seed: WriterSeed, n: nat)
    ensures
        seed_after_draws(seed_after_draw(seed), n) == seed_after_draws(seed, n + 1),
{
    reveal_with_fuel(seed_after_draws, 2);
}

/// The identifiers drawn from a seed are consecutive: draw number `n`,
/// counted from 0, hands out the identifier that is `n` after the seed's,
/// whatever versions the draws are for.
pub proof fn draws_are_consecutive(seed: WriterSeed, n: nat)
    ensures
        seed_after_draws(seed, n).next_order_id == id_after(seed.next_order_id, n),
        forall|current: u32|
            (#[trigger] drawn_order(seed_after_draws(seed, n), current)).id == id_after(
                seed.next_order_id,
                n,
            ),
    decreases n,
{
    if n > 0 {
        draws_are_consecutive(seed_after_draw(seed), (n - 1) as nat);
    }
}

/// Within 2^32 draws no identifier comes twice: two draws from one seed, the
/// later fewer than 2^32 draws after the earlier, hand out different
/// identifiers. This holds across workers as long as each goes on from the
/// seed that the one before it left.
pub proof fn ids_differ(id: u32, earlier: nat, later: nat)
    requires
        earlier < later < earlier + 0x1_0000_0000,
    ensures
        id_after(id, earlier) != id_after(id, later),
{
    let a = id + earlier;
    let b = id + later;
    assert_by_contradiction!(id_after(id, earlier) != id_after(id, later), {
        assert(a % 0x1_0000_0000 == b % 0x1_0000_0000);
        assert(b == a + (later - earlier));
        assert(a == 0x1_0000_0000 * (a / 0x1_0000_0000) + a % 0x1_0000_0000);
        assert(b == 0x1_0000_0000 * (b / 0x1_0000_0000) + b % 0x1_0000_0000);
    });
}

} // verus!
