//! The arguments of one launch as they were given, before any rule is applied.

use vstd::prelude::*;

verus! {

/// An input that carries a value: the command-line options that take one, and
/// the environment variable that announces the handshake descriptor.
#[derive(Clone, Copy, PartialEq, Eq, Structural, Debug)]
pub enum Field {
    ContainerId,
    Runtime,
    LogPath,
    ContainerUuid,
    ExitDir,
    ExecProcessSpec,
    Bundle,
    PidFile,
    SocketDir,
    Timeout,
    LogSizeMax,
    StartPipe,
}

/// An option that takes no value: it is either given or not.
#[derive(Clone, Copy, PartialEq, Eq, Structural, Debug)]
pub enum Switch {
    Exec,
    NoPivot,
    Terminal,
    Stdin,
    SystemdCgroup,
}

/// What kind of value a field takes.
#[derive(Clone, Copy, PartialEq, Eq, Structural, Debug)]
pub enum ValueKind {
    /// A path or an identifier: any text but the empty one.
    Text,
    /// A number that cannot be negative, of 64 bits.
    Unsigned,
    /// A number that may be negative, of 64 bits.
    Signed,
    /// The number of a descriptor: it may carry a sign, and has 32 bits.
    Descriptor,
}

/// How many fields there are.
pub const FIELD_COUNT: u8 = 12;

/// How many switches there are.
pub const SWITCH_COUNT: u8 = 5;

impl Field {
    /// Position of the field in the order in which the fields are examined.
    pub open spec fn rank(self) -> nat {
        match self {
            Field::ContainerId => 0,
            Field::Runtime => 1,
            Field::LogPath => 2,
            Field::ContainerUuid => 3,
            Field::ExitDir => 4,
            Field::ExecProcessSpec => 5,
            Field::Bundle => 6,
            Field::PidFile => 7,
            Field::SocketDir => 8,
            Field::Timeout => 9,
            Field::LogSizeMax => 10,
            Field::StartPipe => 11,
        }
    }

    /// The field at a position, the last one for any position past the end.
    pub open spec fn at(rank: nat) -> Field {
        if rank == 0 {
            Field::ContainerId
        } else if rank == 1 {
            Field::Runtime
        } else if rank == 2 {
            Field::LogPath
        } else if rank == 3 {
            Field::ContainerUuid
        } else if rank == 4 {
            Field::ExitDir
        } else if rank == 5 {
            Field::ExecProcessSpec
        } else if rank == 6 {
            Field::Bundle
        } else if rank == 7 {
            Field::PidFile
        } else if rank == 8 {
            Field::SocketDir
        } else if rank == 9 {
            Field::Timeout
        } else if rank == 10 {
            Field::LogSizeMax
        } else {
            Field::StartPipe
        }
    }

    /// The name under which the field is given: the long option without its
    /// dashes, or the name of the environment variable.
    pub open spec fn name(self) -> Seq<char> {
        match self {
            Field::ContainerId => "cid"@,
            Field::Runtime => "runtime"@,
            Field::LogPath => "log-path"@,
            Field::ContainerUuid => "cuuid"@,
            Field::ExitDir => "exit-dir"@,
            Field::ExecProcessSpec => "exec-process-spec"@,
            Field::Bundle => "bundle"@,
            Field::PidFile => "pid-file"@,
            Field::SocketDir => "socket-dir-path"@,
            Field::Timeout => "timeout"@,
            Field::LogSizeMax => "log-size-max"@,
            Field::StartPipe => "_OCI_STARTPIPE"@,
        }
    }

    /// The kind of value that the field takes.
    pub open spec fn kind(self) -> ValueKind {
        match self {
            Field::Timeout => ValueKind::Unsigned,
            Field::LogSizeMax => ValueKind::Signed,
            Field::StartPipe => ValueKind::Descriptor,
            _ => ValueKind::Text,
        }
    }

    /// The field is an option of the command line. All are but the handshake
    /// variable, which comes from the environment.
    pub open spec fn is_option(self) -> bool {
        !(self is StartPipe)
    }

    /// The one-letter form of the option, if it has one.
    pub open spec fn short_name(self) -> Option<char> {
        match self {
            Field::ContainerId => Some('c'),
            Field::ContainerUuid => Some('u'),
            Field::Runtime => Some('r'),
            Field::LogPath => Some('l'),
            Field::PidFile => Some('p'),
            Field::Timeout => Some('T'),
            Field::Bundle => Some('b'),
            _ => None,
        }
    }

    /// The kind of value that the field takes.
    pub fn value_kind(&self) -> (kind: ValueKind)
        ensures
            kind == self.kind(),
    {
        match self {
            Field::Timeout => ValueKind::Unsigned,
            Field::LogSizeMax => ValueKind::Signed,
            Field::StartPipe => ValueKind::Descriptor,
            _ => ValueKind::Text,
        }
    }

    /// Whether the field is an option of the command line.
    pub fn is_command_line_option(&self) -> (option: bool)
        ensures
            option == self.is_option(),
    {
        match self {
            Field::StartPipe => false,
            _ => true,
        }
    }

    /// The one-letter form of the option, if it has one.
    pub fn short(&self) -> (letter: Option<char>)
        ensures
            letter == self.short_name(),
    {
        match self {
            Field::ContainerId => Some('c'),
            Field::ContainerUuid => Some('u'),
            Field::Runtime => Some('r'),
            Field::LogPath => Some('l'),
            Field::PidFile => Some('p'),
            Field::Timeout => Some('T'),
            Field::Bundle => Some('b'),
            _ => None,
        }
    }

    /// The position of this field.
    pub fn position(&self) -> (rank: u8)
        ensures
            rank == self.rank(),
            rank < FIELD_COUNT,
    {
        match self {
            Field::ContainerId => 0,
            Field::Runtime => 1,
            Field::LogPath => 2,
            Field::ContainerUuid => 3,
            Field::ExitDir => 4,
            Field::ExecProcessSpec => 5,
            Field::Bundle => 6,
            Field::PidFile => 7,
            Field::SocketDir => 8,
            Field::Timeout => 9,
            Field::LogSizeMax => 10,
            Field::StartPipe => 11,
        }
    }

    /// The field at a position, if there is one.
    pub fn from_position(rank: u8) -> (field: Option<Field>)
        ensures
            field == (if rank < FIELD_COUNT {
                Some(Field::at(rank as nat))
            } else {
                None
            }),
    {
        match rank {
            0 => Some(Field::ContainerId),
            1 => Some(Field::Runtime),
            2 => Some(Field::LogPath),
            3 => Some(Field::ContainerUuid),
            4 => Some(Field::ExitDir),
            5 => Some(Field::ExecProcessSpec),
            6 => Some(Field::Bundle),
            7 => Some(Field::PidFile),
            8 => Some(Field::SocketDir),
            9 => Some(Field::Timeout),
            10 => Some(Field::LogSizeMax),
            11 => Some(Field::StartPipe),
            _ => None,
        }
    }

    /// The name under which the field is given.
    pub fn as_str(&self) -> (name: &'static str)
        ensures
            name@ == self.name(),
    {
        match self {
            Field::ContainerId => "cid",
            Field::Runtime => "runtime",
            Field::LogPath => "log-path",
            Field::ContainerUuid => "cuuid",
            Field::ExitDir => "exit-dir",
            Field::ExecProcessSpec => "exec-process-spec",
            Field::Bundle => "bundle",
            Field::PidFile => "pid-file",
            Field::SocketDir => "socket-dir-path",
            Field::Timeout => "timeout",
            Field::LogSizeMax => "log-size-max",
            Field::StartPipe => "_OCI_STARTPIPE",
        }
    }
}

/// Every field has a position, and is the field at that position.
pub proof fn law_field_positions(field: Field)
    ensures
        field.rank() < FIELD_COUNT,
        Field::at(field.rank()) == field,
{
}

/// Every position holds a field, and is the position of that field.
pub proof fn law_position_fields(rank: nat)
    requires
        rank < FIELD_COUNT,
    ensures
        Field::at(rank).rank() == rank,
{
}

impl Switch {
    /// Position of the switch in the list of switches.
    pub open spec fn rank(self) -> nat {
        match self {
            Switch::Exec => 0,
            Switch::NoPivot => 1,
            Switch::Terminal => 2,
            Switch::Stdin => 3,
            Switch::SystemdCgroup => 4,
        }
    }

    /// The switch at a position, the last one for any position past the end.
    pub open spec fn at(rank: nat) -> Switch {
        if rank == 0 {
            Switch::Exec
        } else if rank == 1 {
            Switch::NoPivot
        } else if rank == 2 {
            Switch::Terminal
        } else if rank == 3 {
            Switch::Stdin
        } else {
            Switch::SystemdCgroup
        }
    }

    /// The one-letter form of the switch, if it has one.
    pub open spec fn short_name(self) -> Option<char> {
        match self {
            Switch::Exec => Some('e'),
            Switch::Terminal => Some('t'),
            Switch::Stdin => Some('i'),
            Switch::SystemdCgroup => Some('s'),
            Switch::NoPivot => None,
        }
    }

    /// The switch at a position, if there is one.
    pub fn from_position(rank: u8) -> (switch: Option<Switch>)
        ensures
            switch == (if rank < SWITCH_COUNT {
                Some(Switch::at(rank as nat))
            } else {
                None
            }),
    {
        match rank {
            0 => Some(Switch::Exec),
            1 => Some(Switch::NoPivot),
            2 => Some(Switch::Terminal),
            3 => Some(Switch::Stdin),
            4 => Some(Switch::SystemdCgroup),
            _ => None,
        }
    }

    /// The one-letter form of the switch, if it has one.
    pub fn short(&self) -> (letter: Option<char>)
        ensures
            letter == self.short_name(),
    {
        match self {
            Switch::Exec => Some('e'),
            Switch::Terminal => Some('t'),
            Switch::Stdin => Some('i'),
            Switch::SystemdCgroup => Some('s'),
            Switch::NoPivot => None,
        }
    }

    /// The long option that turns the switch on, without its dashes.
    pub open spec fn name(self) -> Seq<char> {
        match self {
            Switch::Exec => "exec"@,
            Switch::NoPivot => "no-pivot"@,
            Switch::Terminal => "terminal"@,
            Switch::Stdin => "stdin"@,
            Switch::SystemdCgroup => "systemd-cgroup"@,
        }
    }

    /// The long option that turns the switch on, without its dashes.
    pub fn as_str(&self) -> (name: &'static str)
        ensures
            name@ == self.name(),
    {
        match self {
            Switch::Exec => "exec",
            Switch::NoPivot => "no-pivot",
            Switch::Terminal => "terminal",
            Switch::Stdin => "stdin",
            Switch::SystemdCgroup => "systemd-cgroup",
        }
    }
}

/// Every switch has a position, and is the switch at that position.
pub proof fn law_switch_positions(switch: Switch)
    ensures
        switch.rank() < SWITCH_COUNT,
        Switch::at(switch.rank()) == switch,
{
}

/// No two options share a one-letter form.
pub proof fn law_short_names_are_distinct(
    field: Field,
    other: Field,
    switch: Switch,
    another: Switch,
)
    ensures
        field.short_name() is Some && field.short_name() == other.short_name() ==> field == other,
        switch.short_name() is Some && switch.short_name() == another.short_name() ==> switch
            == another,
        field.short_name() is Some ==> field.short_name() != switch.short_name(),
        field.short_name() is Some ==> field.is_option(),
{
}

/// The length of a name and its first character: enough to tell the names apart.
spec fn signature(name: Seq<char>) -> (nat, char) {
    (name.len(), name[0])
}

spec fn field_signature(field: Field) -> (nat, char) {
    match field {
        Field::ContainerId => (3, 'c'),
        Field::Runtime => (7, 'r'),
        Field::LogPath => (8, 'l'),
        Field::ContainerUuid => (5, 'c'),
        Field::ExitDir => (8, 'e'),
        Field::ExecProcessSpec => (17, 'e'),
        Field::Bundle => (6, 'b'),
        Field::PidFile => (8, 'p'),
        Field::SocketDir => (15, 's'),
        Field::Timeout => (7, 't'),
        Field::LogSizeMax => (12, 'l'),
        Field::StartPipe => (14, '_'),
    }
}

spec fn switch_signature(switch: Switch) -> (nat, char) {
    match switch {
        Switch::Exec => (4, 'e'),
        Switch::NoPivot => (8, 'n'),
        Switch::Terminal => (8, 't'),
        Switch::Stdin => (5, 's'),
        Switch::SystemdCgroup => (14, 's'),
    }
}

proof fn lemma_field_signature(field: Field)
    ensures
        signature(field.name()) == field_signature(field),
{
    reveal_strlit("cid");
    reveal_strlit("runtime");
    reveal_strlit("log-path");
    reveal_strlit("cuuid");
    reveal_strlit("exit-dir");
    reveal_strlit("exec-process-spec");
    reveal_strlit("bundle");
    reveal_strlit("pid-file");
    reveal_strlit("socket-dir-path");
    reveal_strlit("timeout");
    reveal_strlit("log-size-max");
    reveal_strlit("_OCI_STARTPIPE");
}

proof fn lemma_switch_signature(switch: Switch)
    ensures
        signature(switch.name()) == switch_signature(switch),
{
    reveal_strlit("exec");
    reveal_strlit("no-pivot");
    reveal_strlit("terminal");
    reveal_strlit("stdin");
    reveal_strlit("systemd-cgroup");
}

/// No two fields go by the same name, no two switches do, and no field goes
/// by the name of a switch. So what is given under one name is never taken
/// for something else.
pub proof fn law_names_are_distinct(field: Field, other: Field, switch: Switch, another: Switch)
    ensures
        field.name() == other.name() ==> field == other,
        switch.name() == another.name() ==> switch == another,
        field.name() != switch.name(),
{
    lemma_field_signature(field);
    lemma_field_signature(other);
    lemma_switch_signature(switch);
    lemma_switch_signature(another);
}

/// A set of arguments as a mathematical object: the values that were given, by
/// field, and the switches that were turned on.
pub struct ArgumentSet {
    pub values: Map<Field, Seq<char>>,
    pub switches: Set<Switch>,
}

impl ArgumentSet {
    /// A value was given for the field.
    pub open spec fn has(self, field: Field) -> bool {
        self.values.dom().contains(field)
    }

    /// The value given for the field, if any.
    pub open spec fn get(self, field: Field) -> Option<Seq<char>> {
        if self.has(field) {
            Some(self.values[field])
        } else {
            None
        }
    }

    /// The switch was turned on.
    pub open spec fn on(self, switch: Switch) -> bool {
        self.switches.contains(switch)
    }
}

/// The arguments of one launch, each value still as text.
#[derive(Clone, Debug)]
pub struct RawArguments {
    pub cid: Option<String>,
    pub runtime: Option<String>,
    pub log_path: Option<String>,
    pub cuuid: Option<String>,
    pub exit_dir: Option<String>,
    pub exec_process_spec: Option<String>,
    pub bundle: Option<String>,
    pub pid_file: Option<String>,
    pub socket_dir: Option<String>,
    pub timeout: Option<String>,
    pub log_size_max: Option<String>,
    pub exec_mode: bool,
    pub no_pivot: bool,
    pub terminal: bool,
    pub stdin: bool,
    pub systemd_cgroup: bool,
}

impl RawArguments {
    /// The arguments of a command line that gives none.
    pub fn empty() -> (raw: RawArguments)
        ensures
            forall|field: Field| (#[trigger] raw.held(field)) is None,
            forall|switch: Switch| !(#[trigger] raw.flagged(switch)),
            raw@.values == Map::<Field, Seq<char>>::empty(),
            raw@.switches == Set::<Switch>::empty(),
    {
        let raw = RawArguments {
            cid: None,
            runtime: None,
            log_path: None,
            cuuid: None,
            exit_dir: None,
            exec_process_spec: None,
            bundle: None,
            pid_file: None,
            socket_dir: None,
            timeout: None,
            log_size_max: None,
            exec_mode: false,
            no_pivot: false,
            terminal: false,
            stdin: false,
            systemd_cgroup: false,
        };
        assert(raw@.values =~= Map::<Field, Seq<char>>::empty());
        assert(raw@.switches =~= Set::<Switch>::empty());
        raw
    }

    /// The text held for a field, if any. The handshake variable is no
    /// command-line argument, so nothing is ever held for it.
    pub open spec fn held(&self, field: Field) -> Option<String> {
        match field {
            Field::ContainerId => self.cid,
            Field::Runtime => self.runtime,
            Field::LogPath => self.log_path,
            Field::ContainerUuid => self.cuuid,
            Field::ExitDir => self.exit_dir,
            Field::ExecProcessSpec => self.exec_process_spec,
            Field::Bundle => self.bundle,
            Field::PidFile => self.pid_file,
            Field::SocketDir => self.socket_dir,
            Field::Timeout => self.timeout,
            Field::LogSizeMax => self.log_size_max,
            Field::StartPipe => None,
        }
    }

    /// Whether a switch is held as turned on.
    pub open spec fn flagged(&self, switch: Switch) -> bool {
        match switch {
            Switch::Exec => self.exec_mode,
            Switch::NoPivot => self.no_pivot,
            Switch::Terminal => self.terminal,
            Switch::Stdin => self.stdin,
            Switch::SystemdCgroup => self.systemd_cgroup,
        }
    }

    /// The value given for a field, if any.
    pub fn value(&self, field: Field) -> (value: Option<&String>)
        ensures
            (match value {
                Some(text) => self@.get(field) == Some(text@),
                None => self@.get(field) is None,
            }),
    {
        match field {
            Field::ContainerId => self.cid.as_ref(),
            Field::Runtime => self.runtime.as_ref(),
            Field::LogPath => self.log_path.as_ref(),
            Field::ContainerUuid => self.cuuid.as_ref(),
            Field::ExitDir => self.exit_dir.as_ref(),
            Field::ExecProcessSpec => self.exec_process_spec.as_ref(),
            Field::Bundle => self.bundle.as_ref(),
            Field::PidFile => self.pid_file.as_ref(),
            Field::SocketDir => self.socket_dir.as_ref(),
            Field::Timeout => self.timeout.as_ref(),
            Field::LogSizeMax => self.log_size_max.as_ref(),
            Field::StartPipe => None,
        }
    }

    /// Whether a switch was turned on.
    pub fn is_on(&self, switch: Switch) -> (on: bool)
        ensures
            on == self@.on(switch),
    {
        match switch {
            Switch::Exec => self.exec_mode,
            Switch::NoPivot => self.no_pivot,
            Switch::Terminal => self.terminal,
            Switch::Stdin => self.stdin,
            Switch::SystemdCgroup => self.systemd_cgroup,
        }
    }
}

impl View for RawArguments {
    type V = ArgumentSet;

    open spec fn view(&self) -> ArgumentSet {
        ArgumentSet {
            values: Map::new(
                |field: Field| self.held(field) is Some,
                |field: Field| self.held(field)->Some_0@,
            ),
            switches: Set::new(|switch: Switch| self.flagged(switch)),
        }
    }
}

/// What stands in for an argument that was not given.
#[derive(Clone, Debug)]
pub struct Defaults {
    /// The directory in which the process runs.
    pub working_directory: String,
    /// The directory of the attach sockets.
    pub socket_dir: String,
}

/// The defaults as plain text.
pub struct DefaultsView {
    pub working_directory: Seq<char>,
    pub socket_dir: Seq<char>,
}

impl View for Defaults {
    type V = DefaultsView;

    open spec fn view(&self) -> DefaultsView {
        DefaultsView { working_directory: self.working_directory@, socket_dir: self.socket_dir@ }
    }
}

/// Where the attach sockets live unless the arguments say otherwise.
pub open spec fn system_socket_dir() -> Seq<char> {
    "/var/lib/crio"@
}

impl Defaults {
    /// The defaults of a process that runs in `working_directory`.
    pub fn system(working_directory: String) -> (defaults: Defaults)
        ensures
            defaults@.working_directory == working_directory@,
            defaults@.socket_dir == system_socket_dir(),
    {
        Defaults { working_directory, socket_dir: String::from_str("/var/lib/crio") }
    }
}

} // verus!
