use sync_module::poll::{PollResult, ShutdownSignal};
use sync_module::reader::{
    reader_loop, ReaderAction, ReaderEvent, ReaderNote, ReaderWorker, READER_INTERVAL_MILLIS,
    YIELD_INTERVAL,
};
use sync_module::records::{Event, Order, User};

const KEEP_GOING: PollResult = PollResult { signal: ShutdownSignal::Quiet, host_running: true };

const BLANK: Event = Event { table_id: 0, index: 0, op: 0, version: 0 };

fn draining() -> ReaderWorker {
    let (mut worker, _) = ReaderWorker::start();
    let step = reader_loop(&mut worker, ReaderEvent::Polled(KEEP_GOING));
    assert_eq!(step.action, ReaderAction::Consume);
    worker
}

fn consumed(event: Event) -> ReaderEvent {
    ReaderEvent::Consumed { status: 1, slot: event }
}

#[test]
fn reader_constants() {
    assert_eq!(READER_INTERVAL_MILLIS, 2);
    assert_eq!(YIELD_INTERVAL, 10);
}

#[test]
fn reader_starts_by_polling() {
    let (worker, step) = ReaderWorker::start();
    assert_eq!(step.action, ReaderAction::Poll);
    assert_eq!(step.notes, vec![ReaderNote::Starting]);
    assert!(!worker.is_stopped());
    assert_eq!(worker.pending(), ReaderAction::Poll);
}

#[test]
fn order_event_is_looked_up_and_reported() {
    let mut worker = draining();
    let event = Event { table_id: 1, index: 5, op: 1, version: 3 };
    let step = reader_loop(&mut worker, consumed(event));
    assert_eq!(step.action, ReaderAction::LoadOrder { index: 5 });
    assert!(step.notes.is_empty());
    let order = Order { id: 8000, version: 4, qty: 2, price_cents: 10000 };
    let step = reader_loop(&mut worker, ReaderEvent::OrderLoaded(order));
    assert_eq!(step.action, ReaderAction::Consume);
    assert_eq!(step.notes, vec![ReaderNote::OrderRead { event, order }]);
}

#[test]
fn user_event_is_looked_up_and_reported() {
    let mut worker = draining();
    let event = Event { table_id: 2, index: 63, op: 1, version: 1 };
    let step = reader_loop(&mut worker, consumed(event));
    assert_eq!(step.action, ReaderAction::LoadUser { index: 63 });
    let mut name = [0u8; 32];
    name[..5].copy_from_slice(b"Alice");
    let user = User { id: 9, version: 1, name };
    let step = reader_loop(&mut worker, ReaderEvent::UserLoaded(user));
    assert_eq!(step.action, ReaderAction::Consume);
    assert_eq!(step.notes, vec![ReaderNote::UserRead { event, user }]);
}

#[test]
fn event_for_a_deleted_slot_is_passed_over() {
    let mut worker = draining();
    let event = Event { table_id: 1, index: 7, op: 1, version: 2 };
    let step = reader_loop(&mut worker, consumed(event));
    assert_eq!(step.action, ReaderAction::LoadOrder { index: 7 });
    let erased = Order { id: 0, version: 2, qty: 5, price_cents: 10000 };
    let step = reader_loop(&mut worker, ReaderEvent::OrderLoaded(erased));
    assert!(step.notes.is_empty());
    assert_eq!(step.action, ReaderAction::Consume);
    assert!(!worker.is_stopped());
}

#[test]
fn event_for_a_deleted_user_is_passed_over() {
    let mut worker = draining();
    let event = Event { table_id: 2, index: 0, op: 2, version: 2 };
    reader_loop(&mut worker, consumed(event));
    let step = reader_loop(&mut worker, ReaderEvent::UserLoaded(User::empty()));
    assert!(step.notes.is_empty());
    assert_eq!(step.action, ReaderAction::Consume);
}

#[test]
fn event_for_an_unknown_table_is_noted() {
    let mut worker = draining();
    for table_id in [0u8, 3, 255] {
        let event = Event { table_id, index: 1, op: 1, version: 1 };
        let step = reader_loop(&mut worker, consumed(event));
        assert_eq!(step.action, ReaderAction::Consume);
        assert_eq!(step.notes, vec![ReaderNote::UnknownTable { table_id }]);
    }
}

#[test]
fn event_outside_its_table_is_skipped_in_silence() {
    let mut worker = draining();
    for (table_id, index) in [(1u8, 128u16), (1, 65535), (2, 64), (2, 127)] {
        let event = Event { table_id, index, op: 1, version: 1 };
        let step = reader_loop(&mut worker, consumed(event));
        assert_eq!(step.action, ReaderAction::Consume);
        assert!(step.notes.is_empty());
    }
    let step = reader_loop(&mut worker, consumed(Event { table_id: 1, index: 127, op: 1, version: 1 }));
    assert_eq!(step.action, ReaderAction::LoadOrder { index: 127 });
}

#[test]
fn empty_bus_ends_the_pass_with_a_short_sleep() {
    let mut worker = draining();
    for status in [0, -1, 2] {
        let step = reader_loop(&mut worker, ReaderEvent::Consumed { status, slot: BLANK });
        assert_eq!(step.action, ReaderAction::Sleep { millis: 2 });
        assert!(step.notes.is_empty());
        let step = reader_loop(&mut worker, ReaderEvent::Slept);
        assert_eq!(step.action, ReaderAction::Poll);
        let step = reader_loop(&mut worker, ReaderEvent::Polled(KEEP_GOING));
        assert_eq!(step.action, ReaderAction::Consume);
    }
}

#[test]
fn reader_yields_after_every_tenth_event() {
    let mut worker = draining();
    let unknown = Event { table_id: 9, index: 0, op: 1, version: 1 };
    for round in 0..3 {
        for handled in 1..=10 {
            let step = reader_loop(&mut worker, consumed(unknown));
            if handled == 10 {
                assert_eq!(step.action, ReaderAction::Yield, "round {}", round);
            } else {
                assert_eq!(step.action, ReaderAction::Consume);
            }
        }
        let step = reader_loop(&mut worker, ReaderEvent::Yielded);
        assert_eq!(step.action, ReaderAction::Consume);
    }
}

#[test]
fn looked_up_events_count_towards_the_yield() {
    let mut worker = draining();
    let event = Event { table_id: 1, index: 1, op: 1, version: 1 };
    let order = Order { id: 1, version: 1, qty: 1, price_cents: 10000 };
    for handled in 1..=10 {
        let step = reader_loop(&mut worker, consumed(event));
        assert_eq!(step.action, ReaderAction::LoadOrder { index: 1 });
        let step = reader_loop(&mut worker, ReaderEvent::OrderLoaded(order));
        if handled == 10 {
            assert_eq!(step.action, ReaderAction::Yield);
        } else {
            assert_eq!(step.action, ReaderAction::Consume);
        }
    }
}

#[test]
fn count_towards_the_yield_starts_anew_with_each_pass() {
    let mut worker = draining();
    let unknown = Event { table_id: 9, index: 0, op: 1, version: 1 };
    for _ in 0..9 {
        assert_eq!(reader_loop(&mut worker, consumed(unknown)).action, ReaderAction::Consume);
    }
    reader_loop(&mut worker, ReaderEvent::Consumed { status: 0, slot: BLANK });
    reader_loop(&mut worker, ReaderEvent::Slept);
    reader_loop(&mut worker, ReaderEvent::Polled(KEEP_GOING));
    for _ in 0..9 {
        assert_eq!(reader_loop(&mut worker, consumed(unknown)).action, ReaderAction::Consume);
    }
    assert_eq!(reader_loop(&mut worker, consumed(unknown)).action, ReaderAction::Yield);
}

#[test]
fn stop_request_ends_the_reader() {
    let (mut worker, _) = ReaderWorker::start();
    let poll = PollResult { signal: ShutdownSignal::Requested, host_running: true };
    let step = reader_loop(&mut worker, ReaderEvent::Polled(poll));
    assert_eq!(step.action, ReaderAction::Exit);
    assert_eq!(step.notes, vec![ReaderNote::ShuttingDown]);
    assert!(worker.is_stopped());
    let step = reader_loop(&mut worker, ReaderEvent::Polled(KEEP_GOING));
    assert_eq!(step.action, ReaderAction::Exit);
    assert!(step.notes.is_empty());
}

#[test]
fn host_that_stopped_running_ends_the_reader() {
    let (mut worker, _) = ReaderWorker::start();
    let poll = PollResult { signal: ShutdownSignal::Disconnected, host_running: false };
    assert_eq!(reader_loop(&mut worker, ReaderEvent::Polled(poll)).action, ReaderAction::Exit);
    assert!(worker.is_stopped());
}

#[test]
fn reader_ignores_what_it_does_not_wait_for() {
    let mut worker = draining();
    for event in [
        ReaderEvent::Slept,
        ReaderEvent::Yielded,
        ReaderEvent::Polled(KEEP_GOING),
        ReaderEvent::OrderLoaded(Order::empty()),
        ReaderEvent::UserLoaded(User::empty()),
    ] {
        let step = reader_loop(&mut worker, event);
        assert_eq!(step.action, ReaderAction::Consume);
        assert!(step.notes.is_empty());
    }
    let event = Event { table_id: 1, index: 2, op: 1, version: 1 };
    reader_loop(&mut worker, consumed(event));
    let step = reader_loop(&mut worker, ReaderEvent::UserLoaded(User::empty()));
    assert_eq!(step.action, ReaderAction::LoadOrder { index: 2 });
}
