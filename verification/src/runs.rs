//! Whole runs of the workers on a host, and what holds of them.
//!
//! An iteration of the writer takes five turns: a poll, a read of the slot,
//! the store, the announcement and the pause. The statements about the writer
//! are about runs in which every poll lets it go on.

use vstd::prelude::*;
use crate::host::{reader_turn, stored_version, writer_turn, HostState, MemoryHost};
use crate::poll::{stop_requested, PollResult};
use crate::reader::{reader_next, ReaderEvent, ReaderNote, ReaderPhase, ReaderState};
use crate::records::{Event, Order, ORDERS_CAP, TABLE_ID_ORDERS};
use crate::writer::{current_version, draws_are_consecutive, draws_shift, drawn_order,
    generated_order, id_after, seed_after_draw, seed_after_draws, slot_for, upsert_event,
    writer_start, WriterConfig, WriterPhase, WriterState, WriterWorker};

verus! {

/// The writer and the host after `n` turns in a row, each poll finding `poll`.
#[verifier::opaque]
pub open spec fn writer_turns(w: WriterState, h: HostState, poll: PollResult, n: nat) -> (
    WriterState,
    HostState,
)
    decreases n,
{
    if n == 0 {
        (w, h)
    } else {
        let (w1, h1) = writer_turn(w, h, poll);
        writer_turns(w1, h1, poll, (n - 1) as nat)
    }
}

/// The writer and the host after `n` iterations in a row.
pub open spec fn writer_iterations(w: WriterState, h: HostState, poll: PollResult, n: nat) -> (
    WriterState,
    HostState,
) {
    writer_turns(w, h, poll, 5 * n)
}

/// The writer after it has completed one more iteration: back at the poll,
/// with the round-robin index advanced by one, one identifier used up and two
/// random values drawn.
pub open spec fn after_iteration(w: WriterState) -> WriterState {
    WriterState {
        phase: WriterPhase::Polling,
        config: w.config,
        iterations: (w.iterations + 1) as u64,
        next_order_id: seed_after_draw(w.seed()).next_order_id,
        rng_state: seed_after_draw(w.seed()).rng_state,
    }
}

/// The order that the next iteration of `w` stores on host `h`.
pub open spec fn next_order(w: WriterState, h: HostState) -> Order {
    generated_order(w, h.orders[slot_for(w.iterations) as int])
}

/// The host after the next iteration of `w`: the slot that the round-robin
/// index selects holds the new order, and the bus has been offered the event
/// that announces it.
pub open spec fn host_after_iteration(w: WriterState, h: HostState) -> HostState {
    let slot = slot_for(w.iterations);
    let order = next_order(w, h);
    HostState {
        orders: h.orders.update(slot as int, order),
        users: h.users,
        bus: h.bus.after_publish(upsert_event(slot, order)),
    }
}

/// The next iteration of `w` on `h` can run to its end: the iteration count
/// and the version in the selected slot both have a successor.
pub open spec fn can_iterate(w: WriterState, h: HostState) -> bool {
    &&& w.phase is Polling
    &&& h.wf()
    &&& w.iterations < u64::MAX
    &&& current_version(h.orders[slot_for(w.iterations) as int]) < u32::MAX
}

/// No turn changes nothing.
pub proof fn no_turn(w: WriterState, h: HostState, poll: PollResult)
    ensures
        writer_turns(w, h, poll, 0) == (w, h),
{
    reveal_with_fuel(writer_turns, 1);
}

/// Turns add up: `a + b` turns are `a` turns followed by `b` turns.
pub proof fn writer_turns_split(w: WriterState, h: HostState, poll: PollResult, a: nat, b: nat)
    ensures
        writer_turns(w, h, poll, a + b) == ({
            let (w1, h1) = writer_turns(w, h, poll, a);
            writer_turns(w1, h1, poll, b)
        }),
    decreases a,
{
    reveal_with_fuel(writer_turns, 2);
    if a > 0 {
        let (w1, h1) = writer_turn(w, h, poll);
        assert((a + b - 1) as nat == (a - 1) as nat + b);
        writer_turns_split(w1, h1, poll, (a - 1) as nat, b);
    }
}

/// One more turn after `n` turns makes `n + 1` turns.
proof fn one_more_turn(w: WriterState, h: HostState, poll: PollResult, n: nat)
    ensures
        writer_turns(w, h, poll, n + 1) == ({
            let (w1, h1) = writer_turns(w, h, poll, n);
            writer_turn(w1, h1, poll)
        }),
{
    writer_turns_split(w, h, poll, n, 1);
    reveal_with_fuel(writer_turns, 2);
}

/// Gives the writer `turns` turns in a row on `host`, each poll finding
/// `poll`. Five turns make an iteration.
pub fn run_writer(host: &mut MemoryHost, worker: &mut WriterWorker, poll: PollResult, turns: u64)
    ensures
        (final(worker)@, final(host)@) == writer_turns(
            old(worker)@,
            old(host)@,
            poll,
            turns as nat,
        ),
        old(host)@.wf() ==> final(host)@.wf(),
{
    let ghost first_worker = worker@;
    let ghost first_host = host@;
    proof {
        no_turn(first_worker, first_host, poll);
    }
    let mut taken: u64 = 0;
    while taken < turns
        invariant
            taken <= turns,
            (worker@, host@) == writer_turns(first_worker, first_host, poll, taken as nat),
            first_host.wf() ==> host@.wf(),
        decreases turns - taken,
    {
        proof {
            one_more_turn(first_worker, first_host, poll, taken as nat);
        }
        host.turn_writer(worker, poll);
        taken += 1;
    }
}

/// One iteration, from poll to poll, whatever the bus holds and however it
/// answers: the writer reads the slot that its round-robin index selects,
/// stores there an order whose version is one above what the slot held, and
/// offers the bus one event, for that slot and that version. Nothing else in
/// the host changes.
pub proof fn iteration_effect(w: WriterState, h: HostState, poll: PollResult)
    requires
        can_iterate(w, h),
        !stop_requested(poll),
    ensures
        writer_iterations(w, h, poll, 1) == (after_iteration(w), host_after_iteration(w, h)),
        next_order(w, h).version == current_version(h.orders[slot_for(w.iterations) as int]) + 1,
        host_after_iteration(w, h).wf(),
        host_after_iteration(w, h).bus.attempts == h.bus.attempts + 1,
        h.bus.drops <= host_after_iteration(w, h).bus.drops <= h.bus.drops + 1,
{
    reveal_with_fuel(writer_turns, 2);
    let slot = slot_for(w.iterations);
    let order = next_order(w, h);
    let (w1, h1) = writer_turn(w, h, poll);
    assert(w1.phase == WriterPhase::Generating { index: slot });
    assert(h1 == h);
    let (w2, h2) = writer_turn(w1, h1, poll);
    assert(w2.phase == WriterPhase::Storing { index: slot, order });
    assert(h2 == h);
    let (w3, h3) = writer_turn(w2, h2, poll);
    assert(w3.phase == WriterPhase::Publishing { index: slot, order });
    assert(h3.orders == h.orders.update(slot as int, order));
    let (w4, h4) = writer_turn(w3, h3, poll);
    assert(w4.phase == WriterPhase::Sleeping);
    let (w5, h5) = writer_turn(w4, h4, poll);
    assert(w5 == after_iteration(w));
    assert(h5 == host_after_iteration(w, h));
    assert(writer_turns(w5, h5, poll, 0) == (w5, h5));
    assert(writer_turns(w4, h4, poll, 1) == (w5, h5));
    assert(writer_turns(w3, h3, poll, 2) == (w5, h5));
    assert(writer_turns(w2, h2, poll, 3) == (w5, h5));
    assert(writer_turns(w1, h1, poll, 4) == (w5, h5));
    assert(writer_turns(w, h, poll, 5) == (w5, h5));
}

/// How many of the `n` iterations that begin with iteration number `first`
/// write to `slot`.
pub open spec fn writes_to(slot: int, first: int, n: nat) -> nat
    decreases n,
{
    if n == 0 {
        0
    } else {
        let here: nat = if first % ORDERS_CAP as int == slot {
            1
        } else {
            0
        };
        here + writes_to(slot, first + 1, (n - 1) as nat)
    }
}

/// An iteration of the writer does to the seed, the orders and the bus what
/// `generate_and_write_order` does to them at the slot that the round-robin
/// index selects.
pub proof fn iteration_generates_and_writes(w: WriterState, h: HostState, poll: PollResult)
    requires
        can_iterate(w, h),
        !stop_requested(poll),
    ensures
        ({
            let slot = slot_for(w.iterations);
            let order = drawn_order(w.seed(), stored_version(h.orders, slot as int));
            let (after, host) = writer_iterations(w, h, poll, 1);
            &&& slot < ORDERS_CAP
            &&& stored_version(h.orders, slot as int) < u32::MAX
            &&& after.seed() == seed_after_draw(w.seed())
            &&& host.orders == h.orders.update(slot as int, order)
            &&& host.bus == h.bus.after_publish(upsert_event(slot, order))
            &&& host.users == h.users
        }),
{
    iteration_effect(w, h, poll);
}

/// The next `n` iterations of `w` on `h` can all run to their end: the
/// iteration count has `n` successors, and the version in each slot has as
/// many successors as the run writes to the slot.
pub open spec fn can_run(w: WriterState, h: HostState, n: nat) -> bool {
    &&& w.phase is Polling
    &&& h.wf()
    &&& w.iterations + n <= u64::MAX
    &&& forall|i: int|
        0 <= i < ORDERS_CAP ==> current_version(#[trigger] h.orders[i]) + writes_to(
            i,
            w.iterations as int,
            n,
        ) <= u32::MAX
}

/// Every identifier that the next `n` iterations of `w` hand out differs from
/// 0, the mark of an empty slot: the counter does not wrap within them.
pub open spec fn ids_stay_nonzero(w: WriterState, n: nat) -> bool {
    n > 0 ==> 1 <= w.next_order_id && w.next_order_id + n <= 0x1_0000_0000
}

/// The writes of a run are those of its first iteration and those of the
/// rest.
proof fn writes_to_first(slot: int, first: int, n: nat)
    requires
        n > 0,
    ensures
        writes_to(slot, first, n) == writes_to(slot, first, 1) + writes_to(
            slot,
            first + 1,
            (n - 1) as nat,
        ),
        writes_to(slot, first, 1) == (if first % ORDERS_CAP as int == slot {
            1nat
        } else {
            0nat
        }),
{
    reveal_with_fuel(writes_to, 2);
}

/// A run writes to a slot at most once per iteration, and a longer run
/// writes to it at least as often as a shorter one.
pub proof fn writes_to_grows(slot: int, first: int, shorter: nat, longer: nat)
    requires
        shorter <= longer,
    ensures
        writes_to(slot, first, shorter) <= writes_to(slot, first, longer) <= longer,
    decreases longer,
{
    if longer > 0 {
        writes_to_first(slot, first, longer);
        if shorter > 0 {
            writes_to_first(slot, first, shorter);
            writes_to_grows(slot, first + 1, (shorter - 1) as nat, (longer - 1) as nat);
        } else {
            writes_to_grows(slot, first + 1, 0, (longer - 1) as nat);
        }
    }
}

/// A run that can be had can be cut short.
pub proof fn can_run_shorter(w: WriterState, h: HostState, shorter: nat, n: nat)
    requires
        shorter <= n,
        can_run(w, h, n),
    ensures
        can_run(w, h, shorter),
{
    assert forall|i: int| 0 <= i < ORDERS_CAP implies current_version(#[trigger] h.orders[i])
        + writes_to(i, w.iterations as int, shorter) <= u32::MAX by {
        writes_to_grows(i, w.iterations as int, shorter, n);
    }
}

/// A run of `n` iterations can be had wherever the version in every slot has
/// `n` successors: no slot is written more than `n` times.
pub proof fn can_run_with_room(w: WriterState, h: HostState, n: nat)
    requires
        w.phase is Polling,
        h.wf(),
        w.iterations + n <= u64::MAX,
        forall|i: int| 0 <= i < ORDERS_CAP ==> current_version(#[trigger] h.orders[i]) + n <= u32::MAX,
    ensures
        can_run(w, h, n),
{
    assert forall|i: int| 0 <= i < ORDERS_CAP implies current_version(#[trigger] h.orders[i])
        + writes_to(i, w.iterations as int, n) <= u32::MAX by {
        writes_to_grows(i, w.iterations as int, n, n);
    }
}

/// A run can be taken one iteration at a time.
proof fn run_step(w: WriterState, h: HostState, poll: PollResult, n: nat)
    requires
        can_run(w, h, n),
        n > 0,
        !stop_requested(poll),
    ensures
        can_iterate(w, h),
        can_run(after_iteration(w), host_after_iteration(w, h), (n - 1) as nat),
        writer_iterations(w, h, poll, n) == writer_iterations(
            after_iteration(w),
            host_after_iteration(w, h),
            poll,
            (n - 1) as nat,
        ),
{
    let first = w.iterations as int;
    let slot = slot_for(w.iterations) as int;
    assert(0 <= slot < ORDERS_CAP);
    assert(slot == first % ORDERS_CAP as int);
    writes_to_first(slot, first, n);
    assert(current_version(h.orders[slot]) + writes_to(slot, first, n) <= u32::MAX);
    iteration_effect(w, h, poll);
    let h1 = host_after_iteration(w, h);
    let order = next_order(w, h);
    assert(after_iteration(w).iterations as int == first + 1);
    assert forall|i: int| 0 <= i < ORDERS_CAP implies current_version(#[trigger] h1.orders[i])
        + writes_to(i, first + 1, (n - 1) as nat) <= u32::MAX by {
        writes_to_first(i, first, n);
        assert(current_version(h.orders[i]) + writes_to(i, first, n) <= u32::MAX);
        if i == slot {
            assert(h1.orders[i] == order);
            assert(current_version(order) <= current_version(h.orders[i]) + 1);
        } else {
            assert(h1.orders[i] == h.orders[i]);
        }
    }
    assert(5 * n == 5 + 5 * (n - 1) as nat);
    writer_turns_split(w, h, poll, 5, (5 * (n - 1)) as nat);
}

/// The identifiers of a run are consecutive from the seed the writer was
/// started with: iteration number `k` of the run hands out the identifier
/// that is `k` draws after the first, and after `k` iterations the writer
/// holds the one that comes next. With `ids_differ`, no two iterations of
/// a run, nor of two runs of which the second goes on from the seed that
/// the first left, hand out the same identifier within 2^32 draws.
pub proof fn ids_are_consecutive(w: WriterState, h: HostState, poll: PollResult, n: nat, k: nat)
    requires
        can_run(w, h, n),
        !stop_requested(poll),
        k <= n,
    ensures
        ({
            let (wk, hk) = writer_iterations(w, h, poll, k);
            &&& wk.next_order_id == id_after(w.next_order_id, k)
            &&& wk.seed() == seed_after_draws(w.seed(), k)
            &&& wk.iterations == w.iterations + k
            &&& can_run(wk, hk, (n - k) as nat)
            &&& k < n ==> can_iterate(wk, hk) && next_order(wk, hk).id == id_after(
                w.next_order_id,
                k,
            )
        }),
    decreases k,
{
    draws_are_consecutive(w.seed(), k);
    if k == 0 {
        no_turn(w, h, poll);
        if n > 0 {
            run_step(w, h, poll, n);
        }
    } else {
        can_run_shorter(w, h, k, n);
        run_step(w, h, poll, k);
        run_step(w, h, poll, n);
        let w1 = after_iteration(w);
        let h1 = host_after_iteration(w, h);
        ids_are_consecutive(w1, h1, poll, (n - 1) as nat, (k - 1) as nat);
        draws_shift(w.seed(), (k - 1) as nat);
        assert(w1.seed() == seed_after_draw(w.seed()));
    }
}

/// A worker that is started from the seed another one left goes on where
/// that one ended: its first identifier is the one the other would have
/// handed out next, and its generator is in the state the other left.
pub proof fn restart_goes_on(config: WriterConfig, ended: WriterState)
    ensures
        writer_start(config, ended.seed()).state.seed() == ended.seed(),
        writer_start(config, ended.seed()).state.next_order_id == ended.next_order_id,
{
}

/// A run of `n` iterations makes exactly `n` publish attempts, of which the
/// bus answers at most `n` by discarding an older event; the writer is back
/// at the poll with its round-robin index `n` further on.
pub proof fn one_publish_per_iteration(w: WriterState, h: HostState, poll: PollResult, n: nat)
    requires
        can_run(w, h, n),
        !stop_requested(poll),
    ensures
        ({
            let (w2, h2) = writer_iterations(w, h, poll, n);
            &&& w2.phase is Polling
            &&& w2.iterations == w.iterations + n
            &&& w2.config == w.config
            &&& h2.wf()
            &&& h2.users == h.users
            &&& h2.bus.attempts == h.bus.attempts + n
            &&& h.bus.drops <= h2.bus.drops <= h.bus.drops + n
        }),
    decreases n,
{
    if n > 0 {
        run_step(w, h, poll, n);
        iteration_effect(w, h, poll);
        one_publish_per_iteration(
            after_iteration(w),
            host_after_iteration(w, h),
            poll,
            (n - 1) as nat,
        );
    } else {
        no_turn(w, h, poll);
    }
}

/// What the bus holds, and how it answers, has no bearing on what is stored:
/// on two hosts with the same orders, a run leaves the same orders and the
/// same writer, whatever their buses are.
pub proof fn store_is_independent_of_bus(
    w: WriterState,
    h: HostState,
    other: HostState,
    poll: PollResult,
    n: nat,
)
    requires
        can_run(w, h, n),
        other.wf(),
        other.orders == h.orders,
        !stop_requested(poll),
    ensures
        writer_iterations(w, other, poll, n).0 == writer_iterations(w, h, poll, n).0,
        writer_iterations(w, other, poll, n).1.orders == writer_iterations(w, h, poll, n).1.orders,
    decreases n,
{
    if n > 0 {
        run_step(w, h, poll, n);
        run_step(w, other, poll, n);
        store_is_independent_of_bus(
            after_iteration(w),
            host_after_iteration(w, h),
            host_after_iteration(w, other),
            poll,
            (n - 1) as nat,
        );
    } else {
        no_turn(w, h, poll);
        no_turn(w, other, poll);
    }
}

/// One iteration raises the version in the slot it writes by one and leaves
/// the version in every other slot as it was.
pub proof fn iteration_raises_one_version(w: WriterState, h: HostState)
    requires
        can_iterate(w, h),
        w.next_order_id != 0,
    ensures
        forall|slot: int|
            0 <= slot < ORDERS_CAP ==> current_version(
                #[trigger] host_after_iteration(w, h).orders[slot],
            ) == current_version(h.orders[slot]) + writes_to(slot, w.iterations as int, 1),
{
    let written = slot_for(w.iterations) as int;
    let order = next_order(w, h);
    let after = host_after_iteration(w, h);
    assert(order.id != 0);
    assert(order.version == current_version(h.orders[written]) + 1);
    assert(written == (w.iterations as int) % (ORDERS_CAP as int));
    assert forall|slot: int| 0 <= slot < ORDERS_CAP implies current_version(
        #[trigger] after.orders[slot],
    ) == current_version(h.orders[slot]) + writes_to(slot, w.iterations as int, 1) by {
        reveal_with_fuel(writes_to, 2);
        if slot == written {
            assert(after.orders[slot] == order);
        } else {
            assert(after.orders[slot] == h.orders[slot]);
        }
    }
}

/// Over a run of `n` iterations the version in each slot goes up by one for
/// each write to the slot, and by nothing else: a slot's versions are
/// strictly increasing from write to write.
pub proof fn versions_count_writes(w: WriterState, h: HostState, poll: PollResult, n: nat)
    requires
        can_run(w, h, n),
        ids_stay_nonzero(w, n),
        !stop_requested(poll),
    ensures
        forall|slot: int|
            0 <= slot < ORDERS_CAP ==> current_version(
                #[trigger] writer_iterations(w, h, poll, n).1.orders[slot],
            ) == current_version(h.orders[slot]) + writes_to(slot, w.iterations as int, n),
    decreases n,
{
    if n > 0 {
        let w1 = after_iteration(w);
        let h1 = host_after_iteration(w, h);
        run_step(w, h, poll, n);
        iteration_raises_one_version(w, h);
        versions_count_writes(w1, h1, poll, (n - 1) as nat);
        let last = writer_iterations(w1, h1, poll, (n - 1) as nat).1;
        counts_compose(h.orders, h1.orders, last.orders, w.iterations as int, n);
    } else {
        no_turn(w, h, poll);
    }
}

/// Version counts add up over a first iteration and the rest of a run.
proof fn counts_compose(
    before: Seq<Order>,
    mid: Seq<Order>,
    last: Seq<Order>,
    first: int,
    n: nat,
)
    requires
        n > 0,
        forall|slot: int|
            0 <= slot < ORDERS_CAP ==> current_version(#[trigger] mid[slot]) == current_version(
                before[slot],
            ) + writes_to(slot, first, 1),
        forall|slot: int|
            0 <= slot < ORDERS_CAP ==> current_version(#[trigger] last[slot]) == current_version(
                mid[slot],
            ) + writes_to(slot, first + 1, (n - 1) as nat),
    ensures
        forall|slot: int|
            0 <= slot < ORDERS_CAP ==> current_version(#[trigger] last[slot]) == current_version(
                before[slot],
            ) + writes_to(slot, first, n),
{
    assert forall|slot: int| 0 <= slot < ORDERS_CAP implies current_version(#[trigger] last[slot])
        == current_version(before[slot]) + writes_to(slot, first, n) by {
        assert(current_version(mid[slot]) == current_version(before[slot]) + writes_to(
            slot,
            first,
            1,
        ));
        writes_to_first(slot, first, n);
    }
}

/// The announcement `event` is backed by `orders`: if it names a slot of the
/// orders table, the version in that slot has reached the announced one.
pub open spec fn backed(orders: Seq<Order>, event: Event) -> bool {
    event.table_id == TABLE_ID_ORDERS && event.index < orders.len() ==> event.version
        <= current_version(orders[event.index as int])
}

/// Every event that is pending on the bus of `h` is backed by its orders.
pub open spec fn announcements_backed(h: HostState) -> bool {
    forall|k: int| 0 <= k < h.bus.pending.len() ==> backed(h.orders, #[trigger] h.bus.pending[k])
}

/// A bus without pending events has nothing to back.
pub proof fn empty_bus_is_backed(h: HostState)
    requires
        h.bus.pending.len() == 0,
    ensures
        announcements_backed(h),
{
}

/// An iteration of the writer keeps every pending event backed: the store
/// comes before the announcement and never lowers a version.
pub proof fn iteration_keeps_announcements_backed(w: WriterState, h: HostState)
    requires
        can_iterate(w, h),
        w.next_order_id != 0,
        announcements_backed(h),
    ensures
        announcements_backed(host_after_iteration(w, h)),
{
    let slot = slot_for(w.iterations);
    let order = next_order(w, h);
    let event = upsert_event(slot, order);
    let after = host_after_iteration(w, h);
    assert(order.id != 0);
    assert(current_version(after.orders[slot as int]) == order.version);
    assert forall|e: Event| backed(h.orders, e) implies backed(after.orders, e) by {
        if e.table_id == TABLE_ID_ORDERS && e.index < after.orders.len() {
            if e.index as int == slot as int {
                assert(after.orders[e.index as int] == order);
            } else {
                assert(after.orders[e.index as int] == h.orders[e.index as int]);
            }
        }
    }
    assert(backed(after.orders, event));
    assert forall|k: int| 0 <= k < after.bus.pending.len() implies backed(
        after.orders,
        #[trigger] after.bus.pending[k],
    ) by {
        let old = h.bus.pending;
        if h.bus.capacity == 0 {
            assert(after.bus.pending[k] == old[k]);
        } else if old.len() < h.bus.capacity {
            if k < old.len() {
                assert(after.bus.pending[k] == old[k]);
            } else {
                assert(after.bus.pending[k] == event);
            }
        } else {
            if k < old.len() - 1 {
                assert(after.bus.pending[k] == old[k + 1]);
            } else {
                assert(after.bus.pending[k] == event);
            }
        }
    }
}

/// A turn of the reader keeps every pending event backed.
pub proof fn reader_keeps_announcements_backed(r: ReaderState, h: HostState, poll: PollResult)
    requires
        announcements_backed(h),
    ensures
        announcements_backed(reader_turn(r, h, poll).1),
{
    let after = reader_turn(r, h, poll).1;
    assert(after.orders == h.orders);
    assert forall|k: int| 0 <= k < after.bus.pending.len() implies backed(
        after.orders,
        #[trigger] after.bus.pending[k],
    ) by {
        if after.bus.pending == h.bus.pending {
        } else {
            assert(after.bus.pending == h.bus.pending.drop_first());
            assert(after.bus.pending[k] == h.bus.pending[k + 1]);
        }
    }
}

/// Over a whole run of the writer every pending event stays backed.
pub proof fn run_keeps_announcements_backed(w: WriterState, h: HostState, poll: PollResult, n: nat)
    requires
        can_run(w, h, n),
        ids_stay_nonzero(w, n),
        announcements_backed(h),
        !stop_requested(poll),
    ensures
        announcements_backed(writer_iterations(w, h, poll, n).1),
    decreases n,
{
    if n > 0 {
        run_step(w, h, poll, n);
        iteration_keeps_announcements_backed(w, h);
        run_keeps_announcements_backed(
            after_iteration(w),
            host_after_iteration(w, h),
            poll,
            (n - 1) as nat,
        );
    } else {
        no_turn(w, h, poll);
    }
}

/// What the reader reports is never older than what was announced: on a host
/// whose pending events are backed, a reader that consumes an event for an
/// order and finds the slot occupied reports a version that has reached the
/// event's.
pub proof fn reader_sees_announced_version(r: ReaderState, h: HostState, poll: PollResult)
    requires
        h.wf(),
        r.wf(),
        r.phase is Draining,
        announcements_backed(h),
        h.bus.pending.len() > 0,
        h.bus.pending[0].table_id == TABLE_ID_ORDERS,
        h.bus.pending[0].index < ORDERS_CAP,
    ensures
        ({
            let event = h.bus.pending[0];
            let (reading, consumed) = reader_turn(r, h, poll);
            let loaded = ReaderEvent::OrderLoaded(consumed.orders[event.index as int]);
            let notes = reader_next(reading, loaded).notes;
            &&& reading.phase matches ReaderPhase::ReadingOrder { event: taken, .. } && taken
                == event
            &&& consumed.bus.pending == h.bus.pending.drop_first()
            &&& reader_turn(reading, consumed, poll).0 == reader_next(reading, loaded).state
            &&& notes.len() <= 1
            &&& forall|i: int|
                0 <= i < notes.len() ==> (#[trigger] notes[i] matches ReaderNote::OrderRead {
                    event: source,
                    order,
                } && source == event && order.version >= event.version)
        }),
{
    let event = h.bus.pending[0];
    assert(backed(h.orders, event));
}

} // verus!
