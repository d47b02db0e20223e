//! The coordinator of the startup handshake.
//!
//! Before any child is created the process acquires the null device twice,
//! then waits, if the parent asked for it, for one write of the parent on an
//! inherited descriptor. The coordinator decides what is done next and what
//! each outcome leads to; it does none of the work itself. Whoever drives it
//! performs the pending action and hands back what happened.

use crate::arguments::Field;
use crate::error::{HandshakeOperation, LaunchError, Reason, Resource};
use crate::invocation::{
    derive_pid_file, pid_file_of, value_fault, InvocationDescriptor, InvocationDescriptorView,
};
use crate::number::{i32_value, parse_i32};
use vstd::prelude::*;

verus! {

/// The two descriptors of the null device, held for the life of the process.
#[derive(Clone, Copy, PartialEq, Eq, Structural, Debug)]
pub struct NullDeviceDescriptors {
    pub read_only: i32,
    pub write_only: i32,
}

/// The descriptor on which the parent signals, if the parent announced one.
/// `descriptor` means something only while `present` holds.
#[derive(Clone, Copy, PartialEq, Eq, Structural, Debug)]
pub struct HandshakeDescriptor {
    pub descriptor: i32,
    pub present: bool,
}

/// What `descriptor` holds when no handshake descriptor is present.
pub const NO_DESCRIPTOR: i32 = -1;

/// What the handshake variable announces: no descriptor when the variable is
/// not set, else the descriptor whose number its value is. A value that is no
/// number is an invalid argument.
pub open spec fn announced(value: Option<Seq<char>>) -> Result<HandshakeDescriptor, LaunchError> {
    match value {
        None => Ok(HandshakeDescriptor { descriptor: NO_DESCRIPTOR, present: false }),
        Some(text) => match value_fault(Field::StartPipe, text) {
            None => Ok(HandshakeDescriptor { descriptor: i32_value(text)->Some_0, present: true }),
            Some(reason) => Err(LaunchError::InvalidArgument { field: Field::StartPipe, reason }),
        },
    }
}

impl HandshakeDescriptor {
    /// Works out what the handshake variable announces.
    pub fn from_variable(value: Option<&str>) -> (outcome: Result<HandshakeDescriptor, LaunchError>)
        ensures
            outcome == announced(
                match value {
                    Some(text) => Some(text@),
                    None => None,
                },
            ),
    {
        match value {
            None => Ok(HandshakeDescriptor { descriptor: NO_DESCRIPTOR, present: false }),
            Some(text) => match parse_i32(text) {
                Some(descriptor) => Ok(HandshakeDescriptor { descriptor, present: true }),
                None => Err(
                    LaunchError::InvalidArgument {
                        field: Field::StartPipe,
                        reason: Reason::NotANumber,
                    },
                ),
            },
        }
    }
}

/// How the null device is opened.
#[derive(Clone, Copy, PartialEq, Eq, Structural, Debug)]
pub enum Access {
    ReadOnly,
    WriteOnly,
}

/// How far the coordinator has come.
#[derive(Clone, Copy, PartialEq, Eq, Structural, Debug)]
pub enum CoordinatorState {
    Init,
    DevicesAcquired,
    RendezvousPending,
    RendezvousSkipped,
    Ready,
    Failed,
}

/// How the read on the handshake descriptor ended.
#[derive(Clone, Copy, PartialEq, Eq, Structural, Debug)]
pub enum ReadOutcome {
    /// The parent wrote, or closed its end.
    Returned,
    /// The read failed with this error number.
    Failed { errno: i32 },
}

/// The state of the coordinator with what it holds in that state.
#[derive(Clone, Copy, PartialEq, Eq, Structural, Debug)]
pub enum Stage {
    /// The null devices are being opened; `read_only` is held once the first
    /// of them is open.
    Init { read_only: Option<i32> },
    /// Both null devices are held; `announced` is the handshake descriptor
    /// once the parent is known to have announced one.
    DevicesAcquired { devices: NullDeviceDescriptors, announced: Option<i32> },
    /// The handshake descriptor is close-on-exec; `read` is how the read on
    /// it ended, once it has.
    RendezvousPending { devices: NullDeviceDescriptors, descriptor: i32, read: Option<ReadOutcome> },
    /// The parent announced no handshake descriptor.
    RendezvousSkipped { devices: NullDeviceDescriptors },
    /// The launch may go on. `handshake` records the descriptor on which the
    /// rendezvous took place, by now closed, if there was one.
    Ready { devices: NullDeviceDescriptors, handshake: HandshakeDescriptor },
    /// The launch has failed for good.
    Failed { error: LaunchError },
}

/// What the driver is asked to do.
#[derive(Clone, Copy, PartialEq, Eq, Structural, Debug)]
pub enum Action {
    /// Open the null device; `close_on_exec` says whether the descriptor must
    /// be close-on-exec from the start, and it always must.
    OpenNullDevice { access: Access, close_on_exec: bool },
    /// Look the handshake variable up in the environment.
    LookUpStartPipe,
    /// Mark the descriptor close-on-exec.
    SetCloseOnExec { descriptor: i32 },
    /// Read once from the descriptor, for as long as it takes.
    AwaitParent { descriptor: i32 },
    /// Close the descriptor.
    Close { descriptor: i32 },
    /// Nothing to do outside: go on.
    Proceed,
    /// Take the launch context and start the runtime.
    Launch,
    /// Report the failure and end the process.
    Abort { error: LaunchError },
}

/// What the driver reports back.
#[derive(Clone, PartialEq, Eq, Debug)]
pub enum Event {
    /// The null device is open on this descriptor.
    DeviceOpened { descriptor: i32 },
    /// The null device could not be opened.
    DeviceUnavailable { errno: i32 },
    /// The environment does not hold the handshake variable.
    VariableAbsent,
    /// The environment holds the handshake variable with this value.
    VariableFound { text: String },
    /// The descriptor is now close-on-exec.
    CloseOnExecSet,
    /// The descriptor could not be marked close-on-exec.
    CloseOnExecRefused { errno: i32 },
    /// The read returned without an error.
    ReadReturned,
    /// The read failed.
    ReadFailed { errno: i32 },
    /// The descriptor is closed.
    Closed,
    /// Closing the descriptor failed.
    CloseFailed { errno: i32 },
    /// The driver went on, as asked.
    Proceeded,
}

impl Stage {
    /// The stage in which every coordinator starts.
    pub open spec fn initial() -> Stage {
        Stage::Init { read_only: None }
    }

    /// The state that the stage belongs to.
    pub open spec fn state(self) -> CoordinatorState {
        match self {
            Stage::Init { .. } => CoordinatorState::Init,
            Stage::DevicesAcquired { .. } => CoordinatorState::DevicesAcquired,
            Stage::RendezvousPending { .. } => CoordinatorState::RendezvousPending,
            Stage::RendezvousSkipped { .. } => CoordinatorState::RendezvousSkipped,
            Stage::Ready { .. } => CoordinatorState::Ready,
            Stage::Failed { .. } => CoordinatorState::Failed,
        }
    }

    /// The null devices, once both are held.
    pub open spec fn devices(self) -> Option<NullDeviceDescriptors> {
        match self {
            Stage::Init { .. } => None,
            Stage::DevicesAcquired { devices, .. } => Some(devices),
            Stage::RendezvousPending { devices, .. } => Some(devices),
            Stage::RendezvousSkipped { devices } => Some(devices),
            Stage::Ready { devices, .. } => Some(devices),
            Stage::Failed { .. } => None,
        }
    }

    /// What the driver is to do in this stage.
    pub open spec fn action(self) -> Action {
        match self {
            Stage::Init { read_only: None } => Action::OpenNullDevice {
                access: Access::ReadOnly,
                close_on_exec: true,
            },
            Stage::Init { read_only: Some(_) } => Action::OpenNullDevice {
                access: Access::WriteOnly,
                close_on_exec: true,
            },
            Stage::DevicesAcquired { announced: None, .. } => Action::LookUpStartPipe,
            Stage::DevicesAcquired { announced: Some(descriptor), .. } => Action::SetCloseOnExec {
                descriptor,
            },
            Stage::RendezvousPending { descriptor, read: None, .. } => Action::AwaitParent {
                descriptor,
            },
            Stage::RendezvousPending { descriptor, read: Some(_), .. } => Action::Close {
                descriptor,
            },
            Stage::RendezvousSkipped { .. } => Action::Proceed,
            Stage::Ready { .. } => Action::Launch,
            Stage::Failed { error } => Action::Abort { error },
        }
    }

    /// Where the lookup of the handshake variable leads: to the marking of
    /// the descriptor that it announces, past the rendezvous when it announces
    /// none, to failure when its value is no number.
    pub open spec fn after_lookup(
        devices: NullDeviceDescriptors,
        found: Result<HandshakeDescriptor, LaunchError>,
    ) -> Stage {
        match found {
            Ok(handshake) => if handshake.present {
                Stage::DevicesAcquired { devices, announced: Some(handshake.descriptor) }
            } else {
                Stage::RendezvousSkipped { devices }
            },
            Err(error) => Stage::Failed { error },
        }
    }

    /// The stage that an event leads to. An event that does not answer the
    /// pending action changes nothing.
    pub open spec fn after(self, event: Event) -> Stage {
        match (self, event) {
            (Stage::Init { read_only: None }, Event::DeviceOpened { descriptor }) => Stage::Init {
                read_only: Some(descriptor),
            },
            (Stage::Init { read_only: None }, Event::DeviceUnavailable { errno }) => Stage::Failed {
                error: LaunchError::ResourceAcquisitionFailed {
                    resource: Resource::NullDeviceReadOnly,
                    errno,
                },
            },
            (
                Stage::Init { read_only: Some(read_only) },
                Event::DeviceOpened { descriptor },
            ) => Stage::DevicesAcquired {
                devices: NullDeviceDescriptors { read_only, write_only: descriptor },
                announced: None,
            },
            (Stage::Init { read_only: Some(_) }, Event::DeviceUnavailable { errno }) => {
                Stage::Failed {
                    error: LaunchError::ResourceAcquisitionFailed {
                        resource: Resource::NullDeviceWriteOnly,
                        errno,
                    },
                }
            },
            (Stage::DevicesAcquired { devices, announced: None }, Event::VariableAbsent) => {
                Stage::after_lookup(devices, announced(None))
            },
            (Stage::DevicesAcquired { devices, announced: None }, Event::VariableFound { text }) => {
                Stage::after_lookup(devices, announced(Some(text@)))
            },
            (
                Stage::DevicesAcquired { devices, announced: Some(descriptor) },
                Event::CloseOnExecSet,
            ) => Stage::RendezvousPending { devices, descriptor, read: None },
            (
                Stage::DevicesAcquired { announced: Some(_), .. },
                Event::CloseOnExecRefused { errno },
            ) => Stage::Failed {
                error: LaunchError::ResourceAcquisitionFailed {
                    resource: Resource::HandshakeDescriptor,
                    errno,
                },
            },
            (
                Stage::RendezvousPending { devices, descriptor, read: None },
                Event::ReadReturned,
            ) => Stage::RendezvousPending {
                devices,
                descriptor,
                read: Some(ReadOutcome::Returned),
            },
            (
                Stage::RendezvousPending { devices, descriptor, read: None },
                Event::ReadFailed { errno },
            ) => Stage::RendezvousPending {
                devices,
                descriptor,
                read: Some(ReadOutcome::Failed { errno }),
            },
            (
                Stage::RendezvousPending { devices, descriptor, read: Some(ReadOutcome::Returned) },
                Event::Closed,
            ) => Stage::Ready {
                devices,
                handshake: HandshakeDescriptor { descriptor, present: true },
            },
            (
                Stage::RendezvousPending { read: Some(ReadOutcome::Returned), .. },
                Event::CloseFailed { errno },
            ) => Stage::Failed {
                error: LaunchError::HandshakeIoError { operation: HandshakeOperation::Close, errno },
            },
            (
                Stage::RendezvousPending { read: Some(ReadOutcome::Failed { errno }), .. },
                Event::Closed,
            ) => Stage::Failed {
                error: LaunchError::HandshakeIoError { operation: HandshakeOperation::Read, errno },
            },
            (
                Stage::RendezvousPending { read: Some(ReadOutcome::Failed { errno }), .. },
                Event::CloseFailed { .. },
            ) => Stage::Failed {
                error: LaunchError::HandshakeIoError { operation: HandshakeOperation::Read, errno },
            },
            (Stage::RendezvousSkipped { devices }, Event::Proceeded) => Stage::Ready {
                devices,
                handshake: HandshakeDescriptor { descriptor: NO_DESCRIPTOR, present: false },
            },
            _ => self,
        }
    }

    /// The stage that a run of events leads to, one after the other.
    pub open spec fn after_all(self, events: Seq<Event>) -> Stage
        decreases events.len(),
    {
        if events.len() == 0 {
            self
        } else {
            self.after_all(events.drop_last()).after(events.last())
        }
    }

    /// The stage in which every coordinator starts.
    pub fn start() -> (stage: Stage)
        ensures
            stage == Stage::initial(),
    {
        Stage::Init { read_only: None }
    }

    /// The state that the stage belongs to.
    pub fn current_state(&self) -> (state: CoordinatorState)
        ensures
            state == self.state(),
    {
        match self {
            Stage::Init { .. } => CoordinatorState::Init,
            Stage::DevicesAcquired { .. } => CoordinatorState::DevicesAcquired,
            Stage::RendezvousPending { .. } => CoordinatorState::RendezvousPending,
            Stage::RendezvousSkipped { .. } => CoordinatorState::RendezvousSkipped,
            Stage::Ready { .. } => CoordinatorState::Ready,
            Stage::Failed { .. } => CoordinatorState::Failed,
        }
    }

    /// What the driver is to do next.
    pub fn next_action(&self) -> (action: Action)
        ensures
            action == self.action(),
    {
        match self {
            Stage::Init { read_only: None } => Action::OpenNullDevice {
                access: Access::ReadOnly,
                close_on_exec: true,
            },
            Stage::Init { read_only: Some(_) } => Action::OpenNullDevice {
                access: Access::WriteOnly,
                close_on_exec: true,
            },
            Stage::DevicesAcquired { announced: None, .. } => Action::LookUpStartPipe,
            Stage::DevicesAcquired { announced: Some(descriptor), .. } => Action::SetCloseOnExec {
                descriptor: *descriptor,
            },
            Stage::RendezvousPending { descriptor, read: None, .. } => Action::AwaitParent {
                descriptor: *descriptor,
            },
            Stage::RendezvousPending { descriptor, read: Some(_), .. } => Action::Close {
                descriptor: *descriptor,
            },
            Stage::RendezvousSkipped { .. } => Action::Proceed,
            Stage::Ready { .. } => Action::Launch,
            Stage::Failed { error } => Action::Abort { error: *error },
        }
    }

    /// Moves on from the lookup of the handshake variable.
    fn settle_lookup(
        devices: NullDeviceDescriptors,
        found: Result<HandshakeDescriptor, LaunchError>,
    ) -> (next: Stage)
        ensures
            next == Stage::after_lookup(devices, found),
    {
        match found {
            Ok(handshake) => if handshake.present {
                Stage::DevicesAcquired { devices, announced: Some(handshake.descriptor) }
            } else {
                Stage::RendezvousSkipped { devices }
            },
            Err(error) => Stage::Failed { error },
        }
    }

    /// Takes in what the driver reports and moves on.
    pub fn advance(self, event: &Event) -> (next: Stage)
        ensures
            next == self.after(*event),
    {
        match self {
            Stage::Init { read_only: None } => match event {
                Event::DeviceOpened { descriptor } => Stage::Init { read_only: Some(*descriptor) },
                Event::DeviceUnavailable { errno } => Stage::Failed {
                    error: LaunchError::ResourceAcquisitionFailed {
                        resource: Resource::NullDeviceReadOnly,
                        errno: *errno,
                    },
                },
                _ => self,
            },
            Stage::Init { read_only: Some(read_only) } => match event {
                Event::DeviceOpened { descriptor } => Stage::DevicesAcquired {
                    devices: NullDeviceDescriptors { read_only, write_only: *descriptor },
                    announced: None,
                },
                Event::DeviceUnavailable { errno } => Stage::Failed {
                    error: LaunchError::ResourceAcquisitionFailed {
                        resource: Resource::NullDeviceWriteOnly,
                        errno: *errno,
                    },
                },
                _ => self,
            },
            Stage::DevicesAcquired { devices, announced: None } => match event {
                Event::VariableAbsent => Stage::settle_lookup(
                    devices,
                    HandshakeDescriptor::from_variable(None),
                ),
                Event::VariableFound { text } => Stage::settle_lookup(
                    devices,
                    HandshakeDescriptor::from_variable(Some(text.as_str())),
                ),
                _ => self,
            },
            Stage::DevicesAcquired { devices, announced: Some(descriptor) } => match event {
                Event::CloseOnExecSet => Stage::RendezvousPending { devices, descriptor, read: None },
                Event::CloseOnExecRefused { errno } => Stage::Failed {
                    error: LaunchError::ResourceAcquisitionFailed {
                        resource: Resource::HandshakeDescriptor,
                        errno: *errno,
                    },
                },
                _ => self,
            },
            Stage::RendezvousPending { devices, descriptor, read: None } => match event {
                Event::ReadReturned => Stage::RendezvousPending {
                    devices,
                    descriptor,
                    read: Some(ReadOutcome::Returned),
                },
                Event::ReadFailed { errno } => Stage::RendezvousPending {
                    devices,
                    descriptor,
                    read: Some(ReadOutcome::Failed { errno: *errno }),
                },
                _ => self,
            },
            Stage::RendezvousPending { devices, descriptor, read: Some(ReadOutcome::Returned) } => {
                match event {
                    Event::Closed => Stage::Ready {
                        devices,
                        handshake: HandshakeDescriptor { descriptor, present: true },
                    },
                    Event::CloseFailed { errno } => Stage::Failed {
                        error: LaunchError::HandshakeIoError {
                            operation: HandshakeOperation::Close,
                            errno: *errno,
                        },
                    },
                    _ => self,
                }
            },
            Stage::RendezvousPending { read: Some(ReadOutcome::Failed { errno }), .. } => {
                match event {
                    Event::Closed | Event::CloseFailed { .. } => Stage::Failed {
                        error: LaunchError::HandshakeIoError {
                            operation: HandshakeOperation::Read,
                            errno,
                        },
                    },
                    _ => self,
                }
            },
            Stage::RendezvousSkipped { devices } => match event {
                Event::Proceeded => Stage::Ready {
                    devices,
                    handshake: HandshakeDescriptor { descriptor: NO_DESCRIPTOR, present: false },
                },
                _ => self,
            },
            Stage::Ready { .. } => self,
            Stage::Failed { .. } => self,
        }
    }
}

/// What the launch of the runtime starts from. Only a coordinator that is
/// ready hands one out.
#[derive(Debug, PartialEq, Eq)]
pub struct LaunchContext {
    invocation: InvocationDescriptor,
    null_devices: NullDeviceDescriptors,
    pid_file: String,
}

/// A launch context as a mathematical object.
pub struct LaunchContextView {
    pub invocation: InvocationDescriptorView,
    pub null_devices: NullDeviceDescriptors,
    pub pid_file: Seq<char>,
}

impl View for LaunchContext {
    type V = LaunchContextView;

    closed spec fn view(&self) -> LaunchContextView {
        LaunchContextView {
            invocation: self.invocation@,
            null_devices: self.null_devices,
            pid_file: self.pid_file@,
        }
    }
}

impl LaunchContext {
    /// The invocation that is launched.
    pub fn invocation(&self) -> (invocation: &InvocationDescriptor)
        ensures
            invocation@ == self@.invocation,
    {
        &self.invocation
    }

    /// The two descriptors of the null device.
    pub fn null_devices(&self) -> (devices: NullDeviceDescriptors)
        ensures
            devices == self@.null_devices,
    {
        self.null_devices
    }

    /// The file for the process id.
    pub fn pid_file(&self) -> (path: &str)
        ensures
            path@ == self@.pid_file,
    {
        self.pid_file.as_str()
    }
}

/// The coordinator of one launch. There is none without a validated
/// invocation, so nothing of the handshake can happen on arguments that were
/// refused. It starts at the beginning and moves only by the events it is
/// handed, so the stage it is in is always the one that those events lead to.
pub struct Coordinator {
    invocation: InvocationDescriptor,
    working_directory: String,
    stage: Stage,
    history: Ghost<Seq<Event>>,
}

impl Coordinator {
    #[verifier::type_invariant]
    spec fn follows_its_history(&self) -> bool {
        self.stage == Stage::initial().after_all(self.history@)
    }

    /// The events that the coordinator has been handed, oldest first.
    pub closed spec fn history(&self) -> Seq<Event> {
        self.history@
    }

    /// The stage that the coordinator is in: the one that its history leads
    /// to from the start.
    pub open spec fn stage(&self) -> Stage {
        Stage::initial().after_all(self.history())
    }

    /// The invocation that the coordinator was made for.
    pub closed spec fn invocation(&self) -> InvocationDescriptorView {
        self.invocation@
    }

    /// The directory in which the process runs.
    pub closed spec fn working_directory(&self) -> Seq<char> {
        self.working_directory@
    }

    /// A coordinator for a validated invocation, with nothing done yet.
    pub fn new(invocation: InvocationDescriptor, working_directory: String) -> (coordinator:
        Coordinator)
        ensures
            coordinator.history() == Seq::<Event>::empty(),
            coordinator.stage() == Stage::initial(),
            coordinator.invocation() == invocation@,
            coordinator.working_directory() == working_directory@,
    {
        Coordinator {
            invocation,
            working_directory,
            stage: Stage::start(),
            history: Ghost(Seq::empty()),
        }
    }

    /// The stage that the coordinator is in.
    pub fn current_stage(&self) -> (stage: Stage)
        ensures
            stage == self.stage(),
    {
        proof {
            use_type_invariant(self);
        }
        self.stage
    }

    /// How far the coordinator has come.
    pub fn state(&self) -> (state: CoordinatorState)
        ensures
            state == self.stage().state(),
    {
        self.current_stage().current_state()
    }

    /// What the driver is to do next.
    pub fn next_action(&self) -> (action: Action)
        ensures
            action == self.stage().action(),
    {
        self.current_stage().next_action()
    }

    /// The failure that ended the launch, if one did.
    pub fn failure(&self) -> (error: Option<LaunchError>)
        ensures
            error == (match self.stage() {
                Stage::Failed { error } => Some(error),
                _ => None,
            }),
    {
        match self.current_stage() {
            Stage::Failed { error } => Some(error),
            _ => None,
        }
    }

    /// Takes in what the driver reports and moves on.
    pub fn handle(self, event: &Event) -> (next: Coordinator)
        ensures
            next.history() == self.history().push(*event),
            next.stage() == self.stage().after(*event),
            next.invocation() == self.invocation(),
            next.working_directory() == self.working_directory(),
    {
        proof {
            use_type_invariant(&self);
            assert(self.history@.push(*event).drop_last() =~= self.history@);
        }
        Coordinator {
            invocation: self.invocation,
            working_directory: self.working_directory,
            stage: self.stage.advance(event),
            history: Ghost(self.history@.push(*event)),
        }
    }

    /// Hands out the launch context. There is one only when the coordinator
    /// is ready.
    pub fn into_launch_context(self) -> (context: Option<LaunchContext>)
        ensures
            context is Some <==> self.stage() is Ready,
            context matches Some(context) ==> ({
                &&& context@.invocation == self.invocation()
                &&& Some(context@.null_devices) == self.stage().devices()
                &&& context@.pid_file == pid_file_of(self.invocation(), self.working_directory())
            }),
    {
        proof {
            use_type_invariant(&self);
        }
        match self.stage {
            Stage::Ready { devices, .. } => {
                let pid_file = derive_pid_file(&self.invocation, self.working_directory.as_str());
                Some(LaunchContext { invocation: self.invocation, null_devices: devices, pid_file })
            },
            _ => None,
        }
    }
}

/// The action that was pending after the first `i` events of a run from the start.
pub open spec fn pending_at(events: Seq<Event>, i: int) -> Action {
    Stage::initial().after_all(events.take(i)).action()
}

/// The stage is past the marking of this handshake descriptor.
pub open spec fn holds_handshake(stage: Stage, descriptor: i32) -> bool {
    match stage {
        Stage::RendezvousPending { descriptor: held, .. } => held == descriptor,
        Stage::Ready { handshake, .. } => handshake.present && handshake.descriptor == descriptor,
        _ => false,
    }
}

/// Once ready or failed, the coordinator stays as it is whatever is reported.
pub proof fn law_ready_and_failed_are_final(stage: Stage, event: Event)
    requires
        stage is Ready || stage is Failed,
    ensures
        stage.after(event) == stage,
{
}

/// A step changes the state only along the protocol: from the start to
/// both devices held by the opening of the second device; from there to a
/// pending rendezvous by the marking of the announced descriptor, or to a
/// skipped one when none is announced; to ready by the close after a read that
/// returned, or by going on after a skipped rendezvous; and from anywhere to
/// failed. The null devices, once held, stay the same.
pub proof fn law_steps_follow_the_protocol(stage: Stage, event: Event)
    ensures
        ({
            let next = stage.after(event);
            &&& next.state() == stage.state() || next is Failed || match next {
                Stage::DevicesAcquired { devices, announced } => {
                    &&& announced is None
                    &&& stage == Stage::Init { read_only: Some(devices.read_only) }
                    &&& event == Event::DeviceOpened { descriptor: devices.write_only }
                },
                Stage::RendezvousPending { descriptor, read, .. } => {
                    &&& read is None
                    &&& stage.action() == Action::SetCloseOnExec { descriptor }
                    &&& event is CloseOnExecSet
                },
                Stage::RendezvousSkipped { .. } => {
                    &&& stage.action() == Action::LookUpStartPipe
                    &&& event is VariableAbsent
                },
                Stage::Ready { handshake, .. } => if handshake.present {
                    &&& stage.action() == Action::Close { descriptor: handshake.descriptor }
                    &&& stage matches Stage::RendezvousPending {
                        read: Some(ReadOutcome::Returned),
                        ..
                    }
                    &&& event is Closed
                } else {
                    &&& stage is RendezvousSkipped
                    &&& event is Proceeded
                },
                _ => false,
            }
            &&& stage.devices() is Some && !(next is Failed) ==> next.devices() == stage.devices()
        }),
{
}

/// Whatever the state, an action of the handshake is pending only while both
/// null devices are held.
pub proof fn law_devices_come_first(stage: Stage)
    ensures
        stage.action() is LookUpStartPipe || stage.action() is SetCloseOnExec || stage.action()
            is AwaitParent || stage.action() is Close || stage.action() is Proceed
            || stage.action() is Launch ==> stage.devices() is Some,
        stage.devices() is Some <==> !(stage is Init) && !(stage is Failed),
{
}

/// Whenever the null device is to be opened, it is to be opened close-on-exec.
pub proof fn law_null_devices_are_close_on_exec(stage: Stage)
    ensures
        (stage.action() matches Action::OpenNullDevice { close_on_exec, .. } ==> close_on_exec),
        stage is Init <==> stage.action() is OpenNullDevice,
{
}

/// When the parent announced no handshake descriptor, the coordinator gets
/// ready without ever asking for a read.
pub proof fn law_without_start_pipe_nothing_blocks(devices: NullDeviceDescriptors)
    ensures
        ({
            let acquired = Stage::DevicesAcquired { devices, announced: None };
            let skipped = acquired.after(Event::VariableAbsent);
            let ready = skipped.after(Event::Proceeded);
            &&& acquired.action() == Action::LookUpStartPipe
            &&& skipped == Stage::RendezvousSkipped { devices }
            &&& skipped.action() == Action::Proceed
            &&& ready == Stage::Ready {
                devices,
                handshake: HandshakeDescriptor { descriptor: NO_DESCRIPTOR, present: false },
            }
            &&& ready.action() == Action::Launch
        }),
{
}

/// When the parent announced a handshake descriptor, the coordinator has it
/// marked close-on-exec, then waits for the read, then has the descriptor
/// closed, and only then is ready.
pub proof fn law_rendezvous_runs_in_order(
    devices: NullDeviceDescriptors,
    text: String,
    descriptor: i32,
)
    requires
        i32_value(text@) == Some(descriptor),
    ensures
        ({
            let acquired = Stage::DevicesAcquired { devices, announced: None };
            let announced = acquired.after(Event::VariableFound { text });
            let waiting = announced.after(Event::CloseOnExecSet);
            let signalled = waiting.after(Event::ReadReturned);
            let ready = signalled.after(Event::Closed);
            &&& announced.action() == Action::SetCloseOnExec { descriptor }
            &&& waiting.state() == CoordinatorState::RendezvousPending
            &&& waiting.action() == Action::AwaitParent { descriptor }
            &&& signalled.action() == Action::Close { descriptor }
            &&& ready == Stage::Ready {
                devices,
                handshake: HandshakeDescriptor { descriptor, present: true },
            }
        }),
{
}

/// While the read is awaited, nothing but its end moves the coordinator on.
pub proof fn law_waiting_ends_only_with_the_read(stage: Stage, event: Event)
    requires
        stage.action() is AwaitParent,
        !(event is ReadReturned),
        !(event is ReadFailed),
    ensures
        stage.after(event) == stage,
{
}

/// After the read, whether it returned or failed, the descriptor is closed
/// next; a read that failed ends in failure even if the close works.
pub proof fn law_descriptor_is_closed_whatever_the_read(stage: Stage, event: Event)
    requires
        stage.action() is AwaitParent,
        event is ReadReturned || event is ReadFailed,
    ensures
        stage.after(event).action() == (Action::Close {
            descriptor: stage.action()->AwaitParent_descriptor,
        }),
        (event matches Event::ReadFailed { errno } ==> stage.after(event).after(Event::Closed) == (
        Stage::Failed {
            error: LaunchError::HandshakeIoError { operation: HandshakeOperation::Read, errno },
        })),
{
}

proof fn lemma_take_of_longer(events: Seq<Event>, i: int)
    requires
        0 <= i < events.len(),
    ensures
        events.drop_last().take(i) == events.take(i),
        events.take(events.len() - 1) == events.drop_last(),
{
    assert(events.drop_last().take(i) =~= events.take(i));
    assert(events.take(events.len() - 1) =~= events.drop_last());
}

/// In every run from the start, a descriptor on which a read is awaited, or
/// was, has been marked close-on-exec before: at some earlier point the
/// marking was pending and was reported done.
pub proof fn law_close_on_exec_precedes_the_read(events: Seq<Event>, descriptor: i32)
    requires
        holds_handshake(Stage::initial().after_all(events), descriptor),
    ensures
        exists|i: int|
            0 <= i < events.len() && #[trigger] pending_at(events, i) == (Action::SetCloseOnExec {
                descriptor,
            }) && events[i] is CloseOnExecSet,
    decreases events.len(),
{
    if events.len() > 0 {
        let before = Stage::initial().after_all(events.drop_last());
        if holds_handshake(before, descriptor) {
            law_close_on_exec_precedes_the_read(events.drop_last(), descriptor);
            let i = choose|i: int|
                0 <= i < events.drop_last().len() && #[trigger] pending_at(events.drop_last(), i)
                    == (Action::SetCloseOnExec { descriptor }) && events.drop_last()[i]
                    is CloseOnExecSet;
            lemma_take_of_longer(events, i);
            assert(pending_at(events, i) == Action::SetCloseOnExec { descriptor });
        } else {
            let i = events.len() - 1;
            lemma_take_of_longer(events, i);
            assert(pending_at(events, i) == Action::SetCloseOnExec { descriptor });
        }
    }
}

/// In every run from the start that ends ready after a rendezvous, the
/// handshake descriptor has been closed: at some earlier point its close was
/// pending and was reported done.
pub proof fn law_descriptor_is_closed_before_ready(events: Seq<Event>, descriptor: i32)
    requires
        (Stage::initial().after_all(events) matches Stage::Ready { handshake, .. }
            && handshake.present && handshake.descriptor == descriptor),
    ensures
        exists|i: int|
            0 <= i < events.len() && #[trigger] pending_at(events, i) == (Action::Close {
                descriptor,
            }) && events[i] is Closed,
    decreases events.len(),
{
    if events.len() > 0 {
        let before = Stage::initial().after_all(events.drop_last());
        if before is Ready {
            law_descriptor_is_closed_before_ready(events.drop_last(), descriptor);
            let i = choose|i: int|
                0 <= i < events.drop_last().len() && #[trigger] pending_at(events.drop_last(), i)
                    == (Action::Close { descriptor }) && events.drop_last()[i] is Closed;
            lemma_take_of_longer(events, i);
            assert(pending_at(events, i) == Action::Close { descriptor });
        } else {
            let i = events.len() - 1;
            lemma_take_of_longer(events, i);
            assert(pending_at(events, i) == Action::Close { descriptor });
        }
    }
}

/// In every run from the start that is ready without a rendezvous, the lookup
/// of the handshake variable was pending at some earlier point and found the
/// variable absent.
pub proof fn law_rendezvous_is_skipped_only_without_start_pipe(events: Seq<Event>)
    requires
        ({
            let stage = Stage::initial().after_all(events);
            stage is RendezvousSkipped || (stage matches Stage::Ready { handshake, .. }
                && !handshake.present)
        }),
    ensures
        exists|i: int|
            0 <= i < events.len() && #[trigger] pending_at(events, i) == Action::LookUpStartPipe
                && events[i] is VariableAbsent,
    decreases events.len(),
{
    if events.len() > 0 {
        let before = Stage::initial().after_all(events.drop_last());
        if before is RendezvousSkipped || (before matches Stage::Ready { handshake, .. }
            && !handshake.present) {
            law_rendezvous_is_skipped_only_without_start_pipe(events.drop_last());
            let i = choose|i: int|
                0 <= i < events.drop_last().len() && #[trigger] pending_at(events.drop_last(), i)
                    == Action::LookUpStartPipe && events.drop_last()[i] is VariableAbsent;
            lemma_take_of_longer(events, i);
            assert(pending_at(events, i) == Action::LookUpStartPipe);
        } else {
            let i = events.len() - 1;
            lemma_take_of_longer(events, i);
            assert(pending_at(events, i) == Action::LookUpStartPipe);
        }
    }
}

proof fn lemma_first_device_was_opened(events: Seq<Event>, read_only: i32)
    requires
        Stage::initial().after_all(events) == (Stage::Init { read_only: Some(read_only) }),
    ensures
        exists|i: int|
            0 <= i < events.len() && #[trigger] pending_at(events, i) == (Action::OpenNullDevice {
                access: Access::ReadOnly,
                close_on_exec: true,
            }) && events[i] == (Event::DeviceOpened { descriptor: read_only }),
    decreases events.len(),
{
    if events.len() > 0 {
        let before = Stage::initial().after_all(events.drop_last());
        if before == (Stage::Init { read_only: Some(read_only) }) {
            lemma_first_device_was_opened(events.drop_last(), read_only);
            let i = choose|i: int|
                0 <= i < events.drop_last().len() && #[trigger] pending_at(events.drop_last(), i)
                    == (Action::OpenNullDevice { access: Access::ReadOnly, close_on_exec: true })
                    && events.drop_last()[i] == (Event::DeviceOpened { descriptor: read_only });
            lemma_take_of_longer(events, i);
            assert(pending_at(events, i) == Action::OpenNullDevice {
                access: Access::ReadOnly,
                close_on_exec: true,
            });
        } else {
            let i = events.len() - 1;
            lemma_take_of_longer(events, i);
            assert(pending_at(events, i) == Action::OpenNullDevice {
                access: Access::ReadOnly,
                close_on_exec: true,
            });
        }
    }
}

/// In every run from the start, null devices that are held have been opened,
/// close-on-exec, the one for reading before the one for writing: at two
/// earlier points their opening was pending and was reported with the very
/// descriptors that are held.
pub proof fn law_null_devices_were_opened(events: Seq<Event>, devices: NullDeviceDescriptors)
    requires
        Stage::initial().after_all(events).devices() == Some(devices),
    ensures
        exists|i: int, j: int|
            0 <= i < j < events.len() && #[trigger] pending_at(events, i) == (
            Action::OpenNullDevice { access: Access::ReadOnly, close_on_exec: true }) && events[i]
                == (Event::DeviceOpened { descriptor: devices.read_only }) && #[trigger] pending_at(
                events,
                j,
            ) == (Action::OpenNullDevice { access: Access::WriteOnly, close_on_exec: true })
                && events[j] == (Event::DeviceOpened { descriptor: devices.write_only }),
    decreases events.len(),
{
    let read = Action::OpenNullDevice { access: Access::ReadOnly, close_on_exec: true };
    let write = Action::OpenNullDevice { access: Access::WriteOnly, close_on_exec: true };
    if events.len() > 0 {
        let earlier = events.drop_last();
        let before = Stage::initial().after_all(earlier);
        if before.devices() == Some(devices) {
            law_null_devices_were_opened(earlier, devices);
            let (i, j) = choose|i: int, j: int|
                0 <= i < j < earlier.len() && #[trigger] pending_at(earlier, i) == read
                    && earlier[i] == (Event::DeviceOpened { descriptor: devices.read_only })
                    && #[trigger] pending_at(earlier, j) == write && earlier[j] == (
                Event::DeviceOpened { descriptor: devices.write_only });
            lemma_take_of_longer(events, i);
            lemma_take_of_longer(events, j);
            assert(pending_at(events, i) == read);
            assert(pending_at(events, j) == write);
        } else {
            let j = events.len() - 1;
            lemma_take_of_longer(events, j);
            assert(before == Stage::Init { read_only: Some(devices.read_only) });
            lemma_first_device_was_opened(earlier, devices.read_only);
            let i = choose|i: int|
                0 <= i < earlier.len() && #[trigger] pending_at(earlier, i) == read && earlier[i]
                    == (Event::DeviceOpened { descriptor: devices.read_only });
            lemma_take_of_longer(events, i);
            assert(pending_at(events, i) == read);
            assert(pending_at(events, j) == write);
        }
    }
}

} // verus!
