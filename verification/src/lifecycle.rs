//! The lifecycle controller: it owns the two shutdown senders and the two
//! worker handles, and says what starting, stopping and abandoning the workers
//! do to them.
//!
//! The controller holds the senders and the handles as values of any type and
//! never uses them. Stopping hands them back as a list of steps in the order
//! in which they are to be carried out, so that the caller can release
//! whatever guards the controller before it blocks on a join.

use vstd::prelude::*;

verus! {

/// Status code of a module whose senders and handles are both present.
pub const STATUS_RUNNING: i32 = 1;

/// Status code of a module that holds neither senders nor handles.
pub const STATUS_STOPPED: i32 = 0;

/// Status code of a module that holds only one of the two.
pub const STATUS_INCONSISTENT: i32 = -1;

/// The state of the module as a whole.
#[derive(Debug, Clone, Copy, PartialEq, Eq, Structural)]
pub enum ModuleStatus {
    /// Senders and handles are both present.
    Running,
    /// Neither is present.
    Stopped,
    /// Exactly one of the two is present. This is a fault and is reported as
    /// such.
    Inconsistent,
}

/// One of the two workers.
#[derive(Debug, Clone, Copy, PartialEq, Eq, Structural)]
pub enum WorkerKind {
    Reader,
    Writer,
}

/// One step of a shutdown.
#[derive(Debug, PartialEq, Eq)]
pub enum ShutdownStep<S, H> {
    /// Send a stop request through `sender`. A failure to send means that the
    /// worker is gone already and is ignored.
    Signal { worker: WorkerKind, sender: S },
    /// Wait for the worker behind `handle` to end. A failure to join is
    /// logged and the shutdown goes on.
    Join { worker: WorkerKind, handle: H },
}

/// What the controller holds: the senders and the handles, each as a pair of
/// the reader's and the writer's.
pub struct LifecycleState<S, H> {
    pub channels: Option<(S, S)>,
    pub handles: Option<(H, H)>,
}

/// A call on the controller.
pub enum LifecycleCall<S, H> {
    /// A start with these senders and handles.
    Init { channels: (S, S), handles: (H, H) },
    /// A graceful shutdown.
    Shutdown,
    /// An emergency shutdown.
    EmergencyShutdown,
}

/// The status of a module, from whether its senders and its handles are
/// present.
pub open spec fn module_status(channels_exist: bool, threads_exist: bool) -> ModuleStatus {
    if channels_exist && threads_exist {
        ModuleStatus::Running
    } else if !channels_exist && !threads_exist {
        ModuleStatus::Stopped
    } else {
        ModuleStatus::Inconsistent
    }
}

/// The code under which a status is reported.
pub open spec fn status_code(status: ModuleStatus) -> i32 {
    match status {
        ModuleStatus::Running => STATUS_RUNNING,
        ModuleStatus::Stopped => STATUS_STOPPED,
        ModuleStatus::Inconsistent => STATUS_INCONSISTENT,
    }
}

/// The steps that send a stop request to both workers, the reader first.
pub open spec fn signal_steps<S, H>(channels: Option<(S, S)>) -> Seq<ShutdownStep<S, H>> {
    match channels {
        Some((reader, writer)) => seq![
            ShutdownStep::Signal { worker: WorkerKind::Reader, sender: reader },
            ShutdownStep::Signal { worker: WorkerKind::Writer, sender: writer },
        ],
        None => seq![],
    }
}

/// The steps that join both workers, the reader first.
pub open spec fn join_steps<S, H>(handles: Option<(H, H)>) -> Seq<ShutdownStep<S, H>> {
    match handles {
        Some((reader, writer)) => seq![
            ShutdownStep::Join { worker: WorkerKind::Reader, handle: reader },
            ShutdownStep::Join { worker: WorkerKind::Writer, handle: writer },
        ],
        None => seq![],
    }
}

impl<S, H> LifecycleState<S, H> {
    /// The state that holds nothing.
    pub open spec fn stopped() -> Self {
        LifecycleState { channels: None, handles: None }
    }

    /// The state that holds the given senders and handles.
    pub open spec fn running(channels: (S, S), handles: (H, H)) -> Self {
        LifecycleState { channels: Some(channels), handles: Some(handles) }
    }

    /// The status of a module in this state.
    pub open spec fn status(self) -> ModuleStatus {
        module_status(self.channels is Some, self.handles is Some)
    }

    /// The state after `call`: a start leaves the controller holding what it
    /// was given, either shutdown leaves it holding nothing.
    pub open spec fn after(self, call: LifecycleCall<S, H>) -> Self {
        match call {
            LifecycleCall::Init { channels, handles } => Self::running(channels, handles),
            LifecycleCall::Shutdown => Self::stopped(),
            LifecycleCall::EmergencyShutdown => Self::stopped(),
        }
    }

    /// The state of a controller that was made and then took `calls`, the
    /// first of them first.
    pub open spec fn after_calls(calls: Seq<LifecycleCall<S, H>>) -> Self
        decreases calls.len(),
    {
        if calls.len() == 0 {
            Self::stopped()
        } else {
            Self::after_calls(calls.drop_last()).after(calls.last())
        }
    }

    /// The steps of a graceful shutdown from this state: both stop requests,
    /// then both joins, each time the reader first.
    pub open spec fn shutdown_steps(self) -> Seq<ShutdownStep<S, H>> {
        signal_steps(self.channels) + join_steps(self.handles)
    }
}

/// Classifies a module from whether its senders and its handles are present.
pub fn classify(channels_exist: bool, threads_exist: bool) -> (status: ModuleStatus)
    ensures
        status == module_status(channels_exist, threads_exist),
{
    if channels_exist && threads_exist {
        ModuleStatus::Running
    } else if !channels_exist && !threads_exist {
        ModuleStatus::Stopped
    } else {
        ModuleStatus::Inconsistent
    }
}

impl ModuleStatus {
    /// The code under which the status is reported: 1 running, 0 stopped,
    /// -1 inconsistent.
    pub fn code(self) -> (code: i32)
        ensures
            code == status_code(self),
    {
        match self {
            ModuleStatus::Running => STATUS_RUNNING,
            ModuleStatus::Stopped => STATUS_STOPPED,
            ModuleStatus::Inconsistent => STATUS_INCONSISTENT,
        }
    }
}

/// The owner of the shutdown senders and the worker handles.
pub struct LifecycleController<S, H> {
    channels: Option<(S, S)>,
    handles: Option<(H, H)>,
}

impl<S, H> View for LifecycleController<S, H> {
    type V = LifecycleState<S, H>;

    closed spec fn view(&self) -> LifecycleState<S, H> {
        LifecycleState { channels: self.channels, handles: self.handles }
    }
}

impl<S, H> LifecycleController<S, H> {
    /// A controller that holds nothing: the module is stopped.
    pub fn new() -> (controller: Self)
        ensures
            controller@ == LifecycleState::<S, H>::stopped(),
    {
        LifecycleController { channels: None, handles: None }
    }

    /// The status of the module.
    pub fn status(&self) -> (status: ModuleStatus)
        ensures
            status == self@.status(),
    {
        classify(self.channels.is_some(), self.handles.is_some())
    }
}

/// Records a started pair of workers: the controller takes the two senders
/// and the two handles and the module is running.
///
/// A call on a controller that is running already replaces what it held. The
/// workers it knew before go on unattended; callers are to shut down first.
pub fn rust_module_init<S, H>(
    controller: &mut LifecycleController<S, H>,
    reader_sender: S,
    writer_sender: S,
    reader_handle: H,
    writer_handle: H,
)
    ensures
        final(controller)@ == old(controller)@.after(
            LifecycleCall::Init {
                channels: (reader_sender, writer_sender),
                handles: (reader_handle, writer_handle),
            },
        ),
{
    controller.channels = Some((reader_sender, writer_sender));
    controller.handles = Some((reader_handle, writer_handle));
}

/// Stops the module gracefully. The controller gives up everything it holds
/// and the result lists what is to be done with it, in order: a stop request
/// to the reader and to the writer, then a join of the reader and of the
/// writer. On a stopped controller the list is empty.
pub fn rust_module_shutdown<S, H>(controller: &mut LifecycleController<S, H>) -> (steps: Vec<
    ShutdownStep<S, H>,
>)
    ensures
        final(controller)@ == old(controller)@.after(LifecycleCall::Shutdown),
        steps@ == old(controller)@.shutdown_steps(),
{
    let mut steps: Vec<ShutdownStep<S, H>> = Vec::new();
    if let Some((reader, writer)) = controller.channels.take() {
        steps.push(ShutdownStep::Signal { worker: WorkerKind::Reader, sender: reader });
        steps.push(ShutdownStep::Signal { worker: WorkerKind::Writer, sender: writer });
    }
    if let Some((reader, writer)) = controller.handles.take() {
        steps.push(ShutdownStep::Join { worker: WorkerKind::Reader, handle: reader });
        steps.push(ShutdownStep::Join { worker: WorkerKind::Writer, handle: writer });
    }
    steps
}

/// Abandons the workers: the controller drops everything it holds without a
/// stop request and without a join, so that it cannot hang. Workers that are
/// still running go on detached.
pub fn rust_module_emergency_shutdown<S, H>(controller: &mut LifecycleController<S, H>)
    ensures
        final(controller)@ == old(controller)@.after(LifecycleCall::EmergencyShutdown),
{
    controller.channels = None;
    controller.handles = None;
}

/// The status of the module as a code: 1 running, 0 stopped, -1 inconsistent.
pub fn rust_module_status<S, H>(controller: &LifecycleController<S, H>) -> (code: i32)
    ensures
        code == status_code(controller@.status()),
{
    controller.status().code()
}

/// The status of the module follows the last call: stopped before any call,
/// running after a start, stopped after a graceful or an emergency shutdown.
/// It is never inconsistent, whatever the calls were and in whatever order
/// they came.
pub proof fn status_follows_last_call<S, H>(calls: Seq<LifecycleCall<S, H>>)
    ensures
        LifecycleState::after_calls(calls).status() == (if calls.len() > 0 && calls.last() is Init {
            ModuleStatus::Running
        } else {
            ModuleStatus::Stopped
        }),
        LifecycleState::after_calls(calls).status() != ModuleStatus::Inconsistent,
{
}

/// A second graceful shutdown in a row has nothing to do: it signals nobody,
/// joins nobody and leaves the controller as the first one left it.
pub proof fn second_shutdown_is_noop<S, H>(state: LifecycleState<S, H>)
    ensures
        state.after(LifecycleCall::Shutdown).shutdown_steps() == Seq::<ShutdownStep<S, H>>::empty(),
        state.after(LifecycleCall::Shutdown).after(LifecycleCall::Shutdown) == state.after(
            LifecycleCall::Shutdown,
        ),
{
}

/// A graceful shutdown of a running module signals both workers before it
/// joins either, and takes the reader before the writer each time.
pub proof fn shutdown_order<S, H>(channels: (S, S), handles: (H, H))
    ensures
        LifecycleState::running(channels, handles).shutdown_steps() == seq![
            ShutdownStep::Signal { worker: WorkerKind::Reader, sender: channels.0 },
            ShutdownStep::Signal { worker: WorkerKind::Writer, sender: channels.1 },
            ShutdownStep::Join { worker: WorkerKind::Reader, handle: handles.0 },
            ShutdownStep::Join { worker: WorkerKind::Writer, handle: handles.1 },
        ],
{
}

} // verus!
