use sync_module::lifecycle::{
    classify, rust_module_emergency_shutdown, rust_module_init, rust_module_shutdown,
    rust_module_status, LifecycleController, ModuleStatus, ShutdownStep, WorkerKind,
    STATUS_INCONSISTENT, STATUS_RUNNING, STATUS_STOPPED,
};

fn fresh() -> LifecycleController<&'static str, u32> {
    LifecycleController::new()
}

#[test]
fn test_module_status_initially_stopped() {
    let controller = fresh();
    let status = rust_module_status(&controller);
    assert_eq!(status, 0); // Should be stopped initially
}

#[test]
fn status_codes() {
    assert_eq!(STATUS_RUNNING, 1);
    assert_eq!(STATUS_STOPPED, 0);
    assert_eq!(STATUS_INCONSISTENT, -1);
    assert_eq!(ModuleStatus::Running.code(), 1);
    assert_eq!(ModuleStatus::Stopped.code(), 0);
    assert_eq!(ModuleStatus::Inconsistent.code(), -1);
}

#[test]
fn one_half_present_is_inconsistent() {
    assert_eq!(classify(true, true), ModuleStatus::Running);
    assert_eq!(classify(false, false), ModuleStatus::Stopped);
    assert_eq!(classify(true, false), ModuleStatus::Inconsistent);
    assert_eq!(classify(false, true), ModuleStatus::Inconsistent);
}

#[test]
fn status_follows_init_and_shutdown() {
    let mut controller = fresh();
    assert_eq!(controller.status(), ModuleStatus::Stopped);
    for round in 0..3u32 {
        rust_module_init(&mut controller, "reader", "writer", round, round + 100);
        assert_eq!(controller.status(), ModuleStatus::Running);
        assert_eq!(rust_module_status(&controller), 1);
        let steps = rust_module_shutdown(&mut controller);
        assert_eq!(steps.len(), 4);
        assert_eq!(controller.status(), ModuleStatus::Stopped);
        assert_eq!(rust_module_status(&controller), 0);
    }
}

#[test]
fn shutdown_signals_both_then_joins_both_reader_first() {
    let mut controller = fresh();
    rust_module_init(&mut controller, "to-reader", "to-writer", 11, 22);
    let steps = rust_module_shutdown(&mut controller);
    assert_eq!(
        steps,
        vec![
            ShutdownStep::Signal { worker: WorkerKind::Reader, sender: "to-reader" },
            ShutdownStep::Signal { worker: WorkerKind::Writer, sender: "to-writer" },
            ShutdownStep::Join { worker: WorkerKind::Reader, handle: 11 },
            ShutdownStep::Join { worker: WorkerKind::Writer, handle: 22 },
        ]
    );
}

#[test]
fn second_shutdown_has_nothing_to_do() {
    let mut controller = fresh();
    rust_module_init(&mut controller, "r", "w", 1, 2);
    assert_eq!(rust_module_shutdown(&mut controller).len(), 4);
    let again = rust_module_shutdown(&mut controller);
    assert!(again.is_empty());
    assert_eq!(rust_module_status(&controller), 0);
}

#[test]
fn shutdown_of_a_stopped_module_is_a_no_op() {
    let mut controller = fresh();
    assert!(rust_module_shutdown(&mut controller).is_empty());
    assert_eq!(rust_module_status(&controller), 0);
}

#[test]
fn emergency_shutdown_drops_everything_without_steps() {
    let mut controller = fresh();
    rust_module_init(&mut controller, "r", "w", 1, 2);
    rust_module_emergency_shutdown(&mut controller);
    assert_eq!(rust_module_status(&controller), 0);
    assert!(rust_module_shutdown(&mut controller).is_empty());
    rust_module_emergency_shutdown(&mut controller);
    assert_eq!(rust_module_status(&controller), 0);
}

#[test]
fn second_init_replaces_the_first() {
    let mut controller = fresh();
    rust_module_init(&mut controller, "r1", "w1", 1, 2);
    rust_module_init(&mut controller, "r2", "w2", 3, 4);
    assert_eq!(rust_module_status(&controller), 1);
    let steps = rust_module_shutdown(&mut controller);
    assert_eq!(
        steps,
        vec![
            ShutdownStep::Signal { worker: WorkerKind::Reader, sender: "r2" },
            ShutdownStep::Signal { worker: WorkerKind::Writer, sender: "w2" },
            ShutdownStep::Join { worker: WorkerKind::Reader, handle: 3 },
            ShutdownStep::Join { worker: WorkerKind::Writer, handle: 4 },
        ]
    );
}

#[test]
fn status_is_never_inconsistent_over_any_call_sequence() {
    // Every sequence of up to six calls, each a start, a shutdown or an
    // emergency shutdown.
    for length in 0..=6u32 {
        for code in 0..3u32.pow(length) {
            let mut controller = fresh();
            let mut rest = code;
            let mut last = 1;
            for _ in 0..length {
                last = rest % 3;
                rest /= 3;
                match last {
                    0 => rust_module_init(&mut controller, "r", "w", 1, 2),
                    1 => {
                        rust_module_shutdown(&mut controller);
                    }
                    _ => rust_module_emergency_shutdown(&mut controller),
                }
                let expected = if last == 0 { 1 } else { 0 };
                assert_eq!(rust_module_status(&controller), expected);
            }
            assert_ne!(rust_module_status(&controller), -1);
        }
    }
}
