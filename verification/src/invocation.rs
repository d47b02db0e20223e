//! The rules that make a set of arguments a valid invocation, and the
//! descriptor that a valid set yields.
//!
//! An invocation either launches a fresh container or runs one more process in
//! an existing container. The `exec` switch alone selects between the two, and
//! each of them has its own set of required fields.

use crate::arguments::{
    law_field_positions, ArgumentSet, Defaults, DefaultsView, Field, RawArguments, Switch,
    ValueKind, FIELD_COUNT,
};
use crate::error::{LaunchError, Reason};
use crate::number::{i32_value, i64_value, parse_i32, parse_i64, parse_u64, u64_value};
use vstd::prelude::*;

verus! {

/// What is to be launched, with the fields that only that kind of launch has.
#[derive(Debug, PartialEq, Eq)]
pub enum InvocationMode {
    FreshContainer {
        container_id: String,
        container_uuid: String,
        exit_dir: String,
        bundle_path: String,
    },
    Exec { container_id: String, exec_process_spec_path: String },
}

/// An invocation mode as plain text.
pub enum InvocationModeView {
    FreshContainer {
        container_id: Seq<char>,
        container_uuid: Seq<char>,
        exit_dir: Seq<char>,
        bundle_path: Seq<char>,
    },
    Exec { container_id: Seq<char>, exec_process_spec_path: Seq<char> },
}

impl View for InvocationMode {
    type V = InvocationModeView;

    open spec fn view(&self) -> InvocationModeView {
        match self {
            InvocationMode::FreshContainer { container_id, container_uuid, exit_dir, bundle_path } => {
                InvocationModeView::FreshContainer {
                    container_id: container_id@,
                    container_uuid: container_uuid@,
                    exit_dir: exit_dir@,
                    bundle_path: bundle_path@,
                }
            },
            InvocationMode::Exec { container_id, exec_process_spec_path } => {
                InvocationModeView::Exec {
                    container_id: container_id@,
                    exec_process_spec_path: exec_process_spec_path@,
                }
            },
        }
    }
}

impl InvocationModeView {
    /// The container that the invocation is about.
    pub open spec fn container_id(self) -> Seq<char> {
        match self {
            InvocationModeView::FreshContainer { container_id, .. } => container_id,
            InvocationModeView::Exec { container_id, .. } => container_id,
        }
    }
}

/// A validated invocation as a mathematical object.
pub struct InvocationDescriptorView {
    pub mode: InvocationModeView,
    pub runtime_path: Seq<char>,
    pub log_path: Seq<char>,
    pub pid_file: Option<Seq<char>>,
    pub socket_dir: Seq<char>,
    pub timeout_seconds: u64,
    pub log_size_max_bytes: i64,
    pub no_pivot: bool,
    pub allocate_terminal: bool,
    pub attach_stdin: bool,
    pub systemd_cgroup: bool,
}

impl InvocationDescriptorView {
    /// No text that the descriptor has from the arguments is empty. The
    /// bundle and the socket directory may come from the defaults, so nothing
    /// is said of them.
    pub open spec fn well_formed(self) -> bool {
        &&& self.runtime_path.len() > 0
        &&& self.log_path.len() > 0
        &&& self.mode.container_id().len() > 0
        &&& (self.mode matches InvocationModeView::Exec { exec_process_spec_path, .. }
            ==> exec_process_spec_path.len() > 0)
        &&& (self.mode matches InvocationModeView::FreshContainer {
            container_uuid,
            exit_dir,
            ..
        } ==> container_uuid.len() > 0 && exit_dir.len() > 0)
        &&& (self.pid_file matches Some(path) ==> path.len() > 0)
    }
}

/// A validated invocation. It is made once, by [`validate`], and only read
/// after that: every descriptor there is holds what the rules allow.
#[derive(Debug, PartialEq, Eq)]
pub struct InvocationDescriptor {
    mode: InvocationMode,
    runtime_path: String,
    log_path: String,
    pid_file: Option<String>,
    socket_dir: String,
    timeout_seconds: u64,
    log_size_max_bytes: i64,
    no_pivot: bool,
    allocate_terminal: bool,
    attach_stdin: bool,
    systemd_cgroup: bool,
}

impl View for InvocationDescriptor {
    type V = InvocationDescriptorView;

    closed spec fn view(&self) -> InvocationDescriptorView {
        InvocationDescriptorView {
            mode: self.mode@,
            runtime_path: self.runtime_path@,
            log_path: self.log_path@,
            pid_file: match self.pid_file {
                Some(path) => Some(path@),
                None => None,
            },
            socket_dir: self.socket_dir@,
            timeout_seconds: self.timeout_seconds,
            log_size_max_bytes: self.log_size_max_bytes,
            no_pivot: self.no_pivot,
            allocate_terminal: self.allocate_terminal,
            attach_stdin: self.attach_stdin,
            systemd_cgroup: self.systemd_cgroup,
        }
    }
}

impl Clone for InvocationMode {
    fn clone(&self) -> (copy: Self)
        ensures
            copy@ == self@,
    {
        match self {
            InvocationMode::FreshContainer { container_id, container_uuid, exit_dir, bundle_path } => {
                InvocationMode::FreshContainer {
                    container_id: container_id.clone(),
                    container_uuid: container_uuid.clone(),
                    exit_dir: exit_dir.clone(),
                    bundle_path: bundle_path.clone(),
                }
            },
            InvocationMode::Exec { container_id, exec_process_spec_path } => InvocationMode::Exec {
                container_id: container_id.clone(),
                exec_process_spec_path: exec_process_spec_path.clone(),
            },
        }
    }
}

impl Clone for InvocationDescriptor {
    fn clone(&self) -> (copy: Self)
        ensures
            copy@ == self@,
    {
        proof {
            use_type_invariant(self);
        }
        InvocationDescriptor {
            mode: self.mode.clone(),
            runtime_path: self.runtime_path.clone(),
            log_path: self.log_path.clone(),
            pid_file: match &self.pid_file {
                Some(path) => Some(path.clone()),
                None => None,
            },
            socket_dir: self.socket_dir.clone(),
            timeout_seconds: self.timeout_seconds,
            log_size_max_bytes: self.log_size_max_bytes,
            no_pivot: self.no_pivot,
            allocate_terminal: self.allocate_terminal,
            attach_stdin: self.attach_stdin,
            systemd_cgroup: self.systemd_cgroup,
        }
    }
}

impl InvocationMode {
    /// The container that the invocation is about.
    pub fn container_id(&self) -> (id: &str)
        ensures
            id@ == self@.container_id(),
    {
        match self {
            InvocationMode::FreshContainer { container_id, .. } => container_id.as_str(),
            InvocationMode::Exec { container_id, .. } => container_id.as_str(),
        }
    }

    /// Whether the invocation runs a process in an existing container.
    pub fn is_exec(&self) -> (exec_mode: bool)
        ensures
            exec_mode == (self@ is Exec),
    {
        match self {
            InvocationMode::FreshContainer { .. } => false,
            InvocationMode::Exec { .. } => true,
        }
    }
}

impl InvocationDescriptor {
    #[verifier::type_invariant]
    spec fn holds_what_the_rules_allow(&self) -> bool {
        self@.well_formed()
    }

    /// What is to be launched. Whatever it is, the descriptor is well formed.
    pub fn mode(&self) -> (mode: &InvocationMode)
        ensures
            mode@ == self@.mode,
            self@.well_formed(),
    {
        proof {
            use_type_invariant(self);
        }
        &self.mode
    }

    /// The container that the invocation is about.
    pub fn container_id(&self) -> (id: &str)
        ensures
            id@ == self@.mode.container_id(),
            id@.len() > 0,
    {
        proof {
            use_type_invariant(self);
        }
        self.mode.container_id()
    }

    /// The runtime binary.
    pub fn runtime_path(&self) -> (path: &str)
        ensures
            path@ == self@.runtime_path,
            path@.len() > 0,
    {
        proof {
            use_type_invariant(self);
        }
        self.runtime_path.as_str()
    }

    /// The log file.
    pub fn log_path(&self) -> (path: &str)
        ensures
            path@ == self@.log_path,
            path@.len() > 0,
    {
        proof {
            use_type_invariant(self);
        }
        self.log_path.as_str()
    }

    /// The file for the process id, if the arguments name one.
    pub fn pid_file(&self) -> (path: Option<&str>)
        ensures
            (match path {
                Some(text) => self@.pid_file == Some(text@) && text@.len() > 0,
                None => self@.pid_file is None,
            }),
    {
        proof {
            use_type_invariant(self);
        }
        match &self.pid_file {
            Some(path) => Some(path.as_str()),
            None => None,
        }
    }

    /// The directory of the attach sockets.
    pub fn socket_dir(&self) -> (path: &str)
        ensures
            path@ == self@.socket_dir,
    {
        self.socket_dir.as_str()
    }

    /// The seconds allowed for an operation; 0 for no bound.
    pub fn timeout_seconds(&self) -> (seconds: u64)
        ensures
            seconds == self@.timeout_seconds,
    {
        self.timeout_seconds
    }

    /// The largest size of the log in bytes; -1 for no bound.
    pub fn log_size_max_bytes(&self) -> (bytes: i64)
        ensures
            bytes == self@.log_size_max_bytes,
    {
        self.log_size_max_bytes
    }

    /// Whether the runtime is told not to pivot the root.
    pub fn no_pivot(&self) -> (on: bool)
        ensures
            on == self@.no_pivot,
    {
        self.no_pivot
    }

    /// Whether a terminal is allocated for the container.
    pub fn allocate_terminal(&self) -> (on: bool)
        ensures
            on == self@.allocate_terminal,
    {
        self.allocate_terminal
    }

    /// Whether the standard input of the container stays open.
    pub fn attach_stdin(&self) -> (on: bool)
        ensures
            on == self@.attach_stdin,
    {
        self.attach_stdin
    }

    /// Whether control groups are managed through systemd.
    pub fn systemd_cgroup(&self) -> (on: bool)
        ensures
            on == self@.systemd_cgroup,
    {
        self.systemd_cgroup
    }
}

/// The file for the process id of a container when the arguments name none:
/// `pidfile-` and the container id, in the working directory.
pub open spec fn default_pid_file(working_directory: Seq<char>, container_id: Seq<char>) -> Seq<
    char,
> {
    working_directory + "/pidfile-"@ + container_id
}

/// The file for the process id: the one that the arguments name, else the default.
pub open spec fn pid_file_of(
    descriptor: InvocationDescriptorView,
    working_directory: Seq<char>,
) -> Seq<char> {
    match descriptor.pid_file {
        Some(path) => path,
        None => default_pid_file(working_directory, descriptor.mode.container_id()),
    }
}

/// Works out the file for the process id of an invocation.
pub fn derive_pid_file(descriptor: &InvocationDescriptor, working_directory: &str) -> (path: String)
    ensures
        path@ == pid_file_of(descriptor@, working_directory@),
{
    match descriptor.pid_file() {
        Some(path) => String::from_str(path),
        None => {
            let mut path = String::from_str(working_directory);
            path.append("/pidfile-");
            path.append(descriptor.container_id());
            path
        },
    }
}

/// The seconds allowed for an operation when no timeout is given: no bound.
pub const DEFAULT_TIMEOUT_SECONDS: u64 = 0;

/// The largest size of the log when none is given: no bound.
pub const DEFAULT_LOG_SIZE_MAX_BYTES: i64 = -1;

/// The fields that the launch of a fresh container cannot do without.
pub open spec fn required_for_fresh_container(field: Field) -> bool {
    field is ContainerId || field is Runtime || field is LogPath || field is ContainerUuid || field
        is ExitDir
}

/// The fields that a process in an existing container cannot do without.
pub open spec fn required_for_exec(field: Field) -> bool {
    field is ContainerId || field is Runtime || field is LogPath || field is ExecProcessSpec
}

/// A field that must be given. The `exec` switch selects the mode, and the
/// mode has its own set of required fields.
pub open spec fn required(args: ArgumentSet, field: Field) -> bool {
    if args.on(Switch::Exec) {
        required_for_exec(field)
    } else {
        required_for_fresh_container(field)
    }
}

/// What is wrong with a value given for a field, if anything: a number must
/// read as one of its type, any other value must not be empty.
pub open spec fn value_fault(field: Field, text: Seq<char>) -> Option<Reason> {
    let readable = match field.kind() {
        ValueKind::Text => text.len() > 0,
        ValueKind::Unsigned => u64_value(text) is Some,
        ValueKind::Signed => i64_value(text) is Some,
        ValueKind::Descriptor => i32_value(text) is Some,
    };
    if readable {
        None
    } else if field.kind() is Text {
        Some(Reason::Empty)
    } else {
        Some(Reason::NotANumber)
    }
}

/// What is wrong with a field in a set of arguments, if anything.
pub open spec fn fault(args: ArgumentSet, field: Field) -> Option<Reason> {
    match args.get(field) {
        Some(text) => value_fault(field, text),
        None => if required(args, field) {
            Some(Reason::Missing)
        } else {
            None
        },
    }
}

/// A set of arguments is acceptable when nothing is wrong with any field.
pub open spec fn acceptable(args: ArgumentSet) -> bool {
    forall|field: Field| (#[trigger] fault(args, field)) is None
}

/// `reason` is what is wrong with `field`, and nothing is wrong with any field
/// that is examined before it.
pub open spec fn is_first_fault(args: ArgumentSet, field: Field, reason: Reason) -> bool {
    &&& fault(args, field) == Some(reason)
    &&& forall|earlier: Field|
        earlier.rank() < field.rank() ==> (#[trigger] fault(args, earlier)) is None
}

/// The mode that an acceptable set of arguments selects.
pub open spec fn mode_of(args: ArgumentSet, defaults: DefaultsView) -> InvocationModeView {
    if args.on(Switch::Exec) {
        InvocationModeView::Exec {
            container_id: args.values[Field::ContainerId],
            exec_process_spec_path: args.values[Field::ExecProcessSpec],
        }
    } else {
        InvocationModeView::FreshContainer {
            container_id: args.values[Field::ContainerId],
            container_uuid: args.values[Field::ContainerUuid],
            exit_dir: args.values[Field::ExitDir],
            bundle_path: match args.get(Field::Bundle) {
                Some(path) => path,
                None => defaults.working_directory,
            },
        }
    }
}

/// The descriptor that an acceptable set of arguments yields.
pub open spec fn descriptor_of(args: ArgumentSet, defaults: DefaultsView) -> InvocationDescriptorView {
    InvocationDescriptorView {
        mode: mode_of(args, defaults),
        runtime_path: args.values[Field::Runtime],
        log_path: args.values[Field::LogPath],
        pid_file: args.get(Field::PidFile),
        socket_dir: match args.get(Field::SocketDir) {
            Some(path) => path,
            None => defaults.socket_dir,
        },
        timeout_seconds: match args.get(Field::Timeout) {
            Some(text) => u64_value(text)->Some_0,
            None => DEFAULT_TIMEOUT_SECONDS,
        },
        log_size_max_bytes: match args.get(Field::LogSizeMax) {
            Some(text) => i64_value(text)->Some_0,
            None => DEFAULT_LOG_SIZE_MAX_BYTES,
        },
        no_pivot: args.on(Switch::NoPivot),
        allocate_terminal: args.on(Switch::Terminal),
        attach_stdin: args.on(Switch::Stdin),
        systemd_cgroup: args.on(Switch::SystemdCgroup),
    }
}

/// A value was given for the field, and it is not empty.
pub open spec fn given(args: ArgumentSet, field: Field) -> bool {
    args.has(field) && args.values[field].len() > 0
}

/// The arguments with one more value, or with another value for a field.
pub open spec fn with_value(args: ArgumentSet, field: Field, text: Seq<char>) -> ArgumentSet {
    ArgumentSet { values: args.values.insert(field, text), switches: args.switches }
}

/// The arguments without a value for a field.
pub open spec fn without_value(args: ArgumentSet, field: Field) -> ArgumentSet {
    ArgumentSet { values: args.values.remove(field), switches: args.switches }
}

/// At most one field, with one reason, is the first at fault.
pub proof fn law_first_fault_is_unique(
    args: ArgumentSet,
    field: Field,
    reason: Reason,
    other: Field,
    other_reason: Reason,
)
    requires
        is_first_fault(args, field, reason),
        is_first_fault(args, other, other_reason),
    ensures
        field == other,
        reason == other_reason,
{
    law_field_positions(field);
    law_field_positions(other);
}

/// Arguments are refused exactly when some field is the first at fault.
pub proof fn law_refusal_names_a_field(args: ArgumentSet)
    ensures
        !acceptable(args) <==> exists|field: Field, reason: Reason|
            is_first_fault(args, field, reason),
{
    if !acceptable(args) {
        let faulty = choose|field: Field| (#[trigger] fault(args, field)) is Some;
        lemma_first_fault_before(args, faulty.rank() + 1);
    }
}

/// If a field before position `bound` is at fault, some field is the first at fault.
proof fn lemma_first_fault_before(args: ArgumentSet, bound: nat)
    requires
        exists|field: Field| field.rank() < bound && (#[trigger] fault(args, field)) is Some,
    ensures
        exists|field: Field, reason: Reason| is_first_fault(args, field, reason),
    decreases bound,
{
    let faulty = choose|field: Field| field.rank() < bound && (#[trigger] fault(args, field))
        is Some;
    if exists|earlier: Field|
        earlier.rank() < faulty.rank() && (#[trigger] fault(args, earlier)) is Some {
        lemma_first_fault_before(args, faulty.rank());
    } else {
        assert(is_first_fault(args, faulty, fault(args, faulty)->Some_0));
    }
}

/// Without the `exec` switch, and with nothing wrong in the optional fields,
/// arguments are acceptable exactly when the container id, the container uuid,
/// the exit directory, the runtime and the log path are all given and not empty.
pub proof fn law_fresh_container_requirements(args: ArgumentSet)
    requires
        !args.on(Switch::Exec),
        forall|field: Field|
            !required_for_fresh_container(field) ==> (#[trigger] fault(args, field)) is None,
    ensures
        acceptable(args) <==> (given(args, Field::ContainerId) && given(
            args,
            Field::ContainerUuid,
        ) && given(args, Field::ExitDir) && given(args, Field::Runtime) && given(
            args,
            Field::LogPath,
        )),
{
    if acceptable(args) {
        assert(fault(args, Field::ContainerId) is None);
        assert(fault(args, Field::ContainerUuid) is None);
        assert(fault(args, Field::ExitDir) is None);
        assert(fault(args, Field::Runtime) is None);
        assert(fault(args, Field::LogPath) is None);
    }
}

/// Without the `exec` switch, leaving out one of the five required fields,
/// with nothing wrong in any other field, is refused as that field missing.
pub proof fn law_fresh_container_omission(args: ArgumentSet, omitted: Field)
    requires
        !args.on(Switch::Exec),
        required_for_fresh_container(omitted),
        !args.has(omitted),
        forall|field: Field| field != omitted ==> (#[trigger] fault(args, field)) is None,
    ensures
        !acceptable(args),
        is_first_fault(args, omitted, Reason::Missing),
{
    assert(fault(args, omitted) is Some);
    assert forall|earlier: Field| earlier.rank() < omitted.rank() implies (#[trigger] fault(
        args,
        earlier,
    )) is None by {
        assert(earlier != omitted);
    }
}

/// With the `exec` switch, and with nothing wrong in any other field,
/// arguments are acceptable exactly when the process specification is given
/// and not empty.
pub proof fn law_exec_requirements(args: ArgumentSet)
    requires
        args.on(Switch::Exec),
        forall|field: Field|
            field != Field::ExecProcessSpec ==> (#[trigger] fault(args, field)) is None,
    ensures
        acceptable(args) <==> given(args, Field::ExecProcessSpec),
{
    if acceptable(args) {
        assert(fault(args, Field::ExecProcessSpec) is None);
    }
}

/// With the `exec` switch, it makes no difference whether the container uuid,
/// the exit directory or the bundle is given: neither to whether the arguments
/// are acceptable nor to the descriptor they yield.
pub proof fn law_exec_disregards_container_fields(
    args: ArgumentSet,
    defaults: DefaultsView,
    field: Field,
    text: Seq<char>,
)
    requires
        args.on(Switch::Exec),
        field is ContainerUuid || field is ExitDir || field is Bundle,
        text.len() > 0,
    ensures
        acceptable(with_value(args, field, text)) <==> acceptable(without_value(args, field)),
        descriptor_of(with_value(args, field, text), defaults) == descriptor_of(
            without_value(args, field),
            defaults,
        ),
{
    let given = with_value(args, field, text);
    let absent = without_value(args, field);
    assert forall|other: Field| fault(given, other) == fault(absent, other) by {
        if other != field {
            assert(given.get(other) == absent.get(other));
        }
    }
    if acceptable(given) {
        assert forall|other: Field| (#[trigger] fault(absent, other)) is None by {
            assert(fault(given, other) is None);
        }
    }
    if acceptable(absent) {
        assert forall|other: Field| (#[trigger] fault(given, other)) is None by {
            assert(fault(absent, other) is None);
        }
    }
}

/// A number that is not given takes its default: no timeout, and no bound on
/// the size of the log.
pub proof fn law_omitted_numbers_take_defaults(args: ArgumentSet, defaults: DefaultsView)
    ensures
        !args.has(Field::Timeout) ==> descriptor_of(args, defaults).timeout_seconds == 0,
        !args.has(Field::LogSizeMax) ==> descriptor_of(args, defaults).log_size_max_bytes == -1,
        !args.has(Field::Timeout) ==> fault(args, Field::Timeout) is None,
        !args.has(Field::LogSizeMax) ==> fault(args, Field::LogSizeMax) is None,
{
}

/// A number that is given and is none of its type is refused, whatever else
/// the arguments hold.
pub proof fn law_unreadable_numbers_are_refused(args: ArgumentSet)
    ensures
        args.has(Field::Timeout) && u64_value(args.values[Field::Timeout]) is None ==> !acceptable(
            args,
        ) && fault(args, Field::Timeout) == Some(Reason::NotANumber),
        args.has(Field::LogSizeMax) && i64_value(args.values[Field::LogSizeMax]) is None
            ==> !acceptable(args) && fault(args, Field::LogSizeMax) == Some(Reason::NotANumber),
{
    if args.has(Field::Timeout) && u64_value(args.values[Field::Timeout]) is None {
        assert(fault(args, Field::Timeout) is Some);
    }
    if args.has(Field::LogSizeMax) && i64_value(args.values[Field::LogSizeMax]) is None {
        assert(fault(args, Field::LogSizeMax) is Some);
    }
}

/// No text of an acceptable set of arguments is empty, so the descriptor that
/// they yield is well formed, and its mode is the one that the `exec` switch
/// selects.
pub proof fn law_descriptors_are_well_formed(args: ArgumentSet, defaults: DefaultsView)
    requires
        acceptable(args),
    ensures
        descriptor_of(args, defaults).well_formed(),
        descriptor_of(args, defaults).mode is Exec <==> args.on(Switch::Exec),
        descriptor_of(args, defaults).mode is FreshContainer <==> !args.on(Switch::Exec),
        ({
            let descriptor = descriptor_of(args, defaults);
            &&& (descriptor.mode matches InvocationModeView::FreshContainer { bundle_path, .. }
                ==> bundle_path.len() > 0 || bundle_path == defaults.working_directory)
            &&& (descriptor.socket_dir.len() > 0 || descriptor.socket_dir == defaults.socket_dir)
        }),
{
    assert(fault(args, Field::ContainerId) is None);
    assert(fault(args, Field::Runtime) is None);
    assert(fault(args, Field::LogPath) is None);
    assert(fault(args, Field::ContainerUuid) is None);
    assert(fault(args, Field::ExitDir) is None);
    assert(fault(args, Field::ExecProcessSpec) is None);
    assert(fault(args, Field::Bundle) is None);
    assert(fault(args, Field::PidFile) is None);
    assert(fault(args, Field::SocketDir) is None);
}

/// Whether a field must be given in these arguments.
pub fn is_required(raw: &RawArguments, field: Field) -> (needed: bool)
    ensures
        needed == required(raw@, field),
{
    if raw.is_on(Switch::Exec) {
        match field {
            Field::ContainerId | Field::Runtime | Field::LogPath | Field::ExecProcessSpec => true,
            _ => false,
        }
    } else {
        match field {
            Field::ContainerId
            | Field::Runtime
            | Field::LogPath
            | Field::ContainerUuid
            | Field::ExitDir => true,
            _ => false,
        }
    }
}

/// Examines a value given for a field.
pub fn examine_value(field: Field, text: &str) -> (found: Option<Reason>)
    ensures
        found == value_fault(field, text@),
{
    let readable = match field.value_kind() {
        ValueKind::Text => !text.is_empty(),
        ValueKind::Unsigned => parse_u64(text).is_some(),
        ValueKind::Signed => parse_i64(text).is_some(),
        ValueKind::Descriptor => parse_i32(text).is_some(),
    };
    if readable {
        None
    } else {
        match field.value_kind() {
            ValueKind::Text => Some(Reason::Empty),
            _ => Some(Reason::NotANumber),
        }
    }
}

/// Examines one field of the arguments.
pub fn examine_field(raw: &RawArguments, field: Field) -> (found: Option<Reason>)
    ensures
        found == fault(raw@, field),
{
    match raw.value(field) {
        Some(text) => examine_value(field, text.as_str()),
        None => if is_required(raw, field) {
            Some(Reason::Missing)
        } else {
            None
        },
    }
}

/// Examines the fields in their order and stops at the first that is at fault.
pub fn find_fault(raw: &RawArguments) -> (found: Option<(Field, Reason)>)
    ensures
        (match found {
            Some((field, reason)) => is_first_fault(raw@, field, reason),
            None => acceptable(raw@),
        }),
{
    let mut position: u8 = 0;
    while position < FIELD_COUNT
        invariant
            position <= FIELD_COUNT,
            forall|earlier: Field|
                earlier.rank() < position ==> (#[trigger] fault(raw@, earlier)) is None,
        decreases FIELD_COUNT - position,
    {
        match Field::from_position(position) {
            Some(field) => {
                match examine_field(raw, field) {
                    Some(reason) => {
                        return Some((field, reason));
                    },
                    None => {},
                }
                assert forall|earlier: Field| earlier.rank() < position + 1 implies (
                #[trigger] fault(raw@, earlier)) is None by {
                    law_field_positions(earlier);
                }
            },
            None => {},
        }
        position = position + 1;
    }
    assert forall|field: Field| (#[trigger] fault(raw@, field)) is None by {
        law_field_positions(field);
    }
    None
}

/// Decides whether a set of arguments is a valid invocation, and builds its
/// descriptor if it is.
///
/// The arguments are refused with the first field that is at fault, in the
/// order in which the fields are examined. Nothing else happens on a refusal:
/// the function touches nothing outside its arguments.
pub fn validate(raw: RawArguments, defaults: &Defaults) -> (outcome: Result<
    InvocationDescriptor,
    LaunchError,
>)
    ensures
        outcome is Ok <==> acceptable(raw@),
        (match outcome {
            Ok(descriptor) => descriptor@ == descriptor_of(raw@, defaults@)
                && descriptor@.well_formed(),
            Err(error) => error matches LaunchError::InvalidArgument { field, reason }
                && is_first_fault(raw@, field, reason),
        }),
{
    match find_fault(&raw) {
        Some((field, reason)) => {
            return Err(LaunchError::InvalidArgument { field, reason });
        },
        None => {},
    }
    let ghost args = raw@;
    proof {
        assert(fault(args, Field::ContainerId) is None);
        assert(fault(args, Field::Runtime) is None);
        assert(fault(args, Field::LogPath) is None);
        assert(fault(args, Field::ContainerUuid) is None);
        assert(fault(args, Field::ExitDir) is None);
        assert(fault(args, Field::ExecProcessSpec) is None);
        assert(fault(args, Field::PidFile) is None);
        assert(fault(args, Field::Timeout) is None);
        assert(fault(args, Field::LogSizeMax) is None);
    }
    let exec_mode = raw.is_on(Switch::Exec);
    let RawArguments {
        cid,
        runtime,
        log_path,
        cuuid,
        exit_dir,
        exec_process_spec,
        bundle,
        pid_file,
        socket_dir,
        timeout,
        log_size_max,
        exec_mode: _,
        no_pivot,
        terminal,
        stdin,
        systemd_cgroup,
    } = raw;
    let mode = if exec_mode {
        InvocationMode::Exec {
            container_id: cid.unwrap(),
            exec_process_spec_path: exec_process_spec.unwrap(),
        }
    } else {
        InvocationMode::FreshContainer {
            container_id: cid.unwrap(),
            container_uuid: cuuid.unwrap(),
            exit_dir: exit_dir.unwrap(),
            bundle_path: match bundle {
                Some(path) => path,
                None => defaults.working_directory.clone(),
            },
        }
    };
    let timeout_seconds: u64 = match timeout {
        Some(text) => parse_u64(text.as_str()).unwrap(),
        None => DEFAULT_TIMEOUT_SECONDS,
    };
    let log_size_max_bytes: i64 = match log_size_max {
        Some(text) => parse_i64(text.as_str()).unwrap(),
        None => DEFAULT_LOG_SIZE_MAX_BYTES,
    };
    let descriptor = InvocationDescriptor {
        mode,
        runtime_path: runtime.unwrap(),
        log_path: log_path.unwrap(),
        pid_file,
        socket_dir: match socket_dir {
            Some(path) => path,
            None => defaults.socket_dir.clone(),
        },
        timeout_seconds,
        log_size_max_bytes,
        no_pivot,
        allocate_terminal: terminal,
        attach_stdin: stdin,
        systemd_cgroup,
    };
    assert(descriptor@ == descriptor_of(args, defaults@));
    Ok(descriptor)
}

} // verus!
