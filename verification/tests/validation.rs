use conmon_rs::arguments::{
    Defaults, Field, RawArguments, Switch, ValueKind, FIELD_COUNT, SWITCH_COUNT,
};
use conmon_rs::error::{LaunchError, Reason};
use conmon_rs::invocation::{
    examine_field, examine_value, derive_pid_file, find_fault, is_required, validate,
    InvocationDescriptor, InvocationMode,
};

fn text(value: &str) -> Option<String> {
    Some(value.to_string())
}

fn defaults_in(working_directory: &str) -> Defaults {
    Defaults::system(working_directory.to_string())
}

fn fresh_container_arguments() -> RawArguments {
    let mut raw = RawArguments::empty();
    raw.cid = text("c1");
    raw.runtime = text("/bin/runc");
    raw.log_path = text("/tmp/l");
    raw.cuuid = text("u1");
    raw.exit_dir = text("/tmp/e");
    raw
}

fn exec_arguments() -> RawArguments {
    let mut raw = RawArguments::empty();
    raw.cid = text("c1");
    raw.runtime = text("/bin/runc");
    raw.log_path = text("/tmp/l");
    raw.exec_mode = true;
    raw.exec_process_spec = text("/tmp/spec.json");
    raw
}

fn accepted(raw: RawArguments) -> InvocationDescriptor {
    validate(raw, &defaults_in("/run/x")).expect("the arguments are valid")
}

fn refused(raw: RawArguments) -> LaunchError {
    validate(raw, &defaults_in("/run/x")).expect_err("the arguments are not valid")
}

fn invalid(field: Field, reason: Reason) -> LaunchError {
    LaunchError::InvalidArgument { field, reason }
}

#[test]
fn fresh_container_without_bundle_takes_the_working_directory() {
    let descriptor = accepted(fresh_container_arguments());
    assert_eq!(
        descriptor.mode(),
        &InvocationMode::FreshContainer {
            container_id: "c1".to_string(),
            container_uuid: "u1".to_string(),
            exit_dir: "/tmp/e".to_string(),
            bundle_path: "/run/x".to_string(),
        }
    );
    assert!(!descriptor.mode().is_exec());
    assert_eq!(descriptor.container_id(), "c1");
    assert_eq!(descriptor.runtime_path(), "/bin/runc");
    assert_eq!(descriptor.log_path(), "/tmp/l");
    assert_eq!(descriptor.pid_file(), None);
    assert_eq!(descriptor.socket_dir(), "/var/lib/crio");
    assert_eq!(descriptor.timeout_seconds(), 0);
    assert_eq!(descriptor.log_size_max_bytes(), -1);
    assert!(!descriptor.no_pivot());
    assert!(!descriptor.allocate_terminal());
    assert!(!descriptor.attach_stdin());
    assert!(!descriptor.systemd_cgroup());
}

#[test]
fn exec_needs_no_container_fields() {
    let descriptor = accepted(exec_arguments());
    assert_eq!(
        descriptor.mode(),
        &InvocationMode::Exec {
            container_id: "c1".to_string(),
            exec_process_spec_path: "/tmp/spec.json".to_string(),
        }
    );
    assert!(descriptor.mode().is_exec());
    assert_eq!(descriptor.mode().container_id(), "c1");
    assert_eq!(descriptor.runtime_path(), "/bin/runc");
    assert_eq!(descriptor.log_path(), "/tmp/l");
}

#[test]
fn fresh_container_with_every_option() {
    let mut raw = fresh_container_arguments();
    raw.bundle = text("/bundles/b");
    raw.pid_file = text("/run/pid");
    raw.socket_dir = text("/run/sockets");
    raw.timeout = text("30");
    raw.log_size_max = text("4096");
    raw.no_pivot = true;
    raw.terminal = true;
    raw.stdin = true;
    raw.systemd_cgroup = true;
    let descriptor = accepted(raw);
    assert_eq!(
        descriptor.mode(),
        &InvocationMode::FreshContainer {
            container_id: "c1".to_string(),
            container_uuid: "u1".to_string(),
            exit_dir: "/tmp/e".to_string(),
            bundle_path: "/bundles/b".to_string(),
        }
    );
    assert_eq!(descriptor.pid_file(), Some("/run/pid"));
    assert_eq!(descriptor.socket_dir(), "/run/sockets");
    assert_eq!(descriptor.timeout_seconds(), 30);
    assert_eq!(descriptor.log_size_max_bytes(), 4096);
    assert!(descriptor.no_pivot());
    assert!(descriptor.allocate_terminal());
    assert!(descriptor.attach_stdin());
    assert!(descriptor.systemd_cgroup());
}

#[test]
fn switches_are_kept_apart() {
    let mut raw = fresh_container_arguments();
    raw.terminal = true;
    let descriptor = accepted(raw);
    assert!(descriptor.allocate_terminal());
    assert!(!descriptor.attach_stdin());
    assert!(!descriptor.no_pivot());
    assert!(!descriptor.systemd_cgroup());

    let mut raw = fresh_container_arguments();
    raw.stdin = true;
    let descriptor = accepted(raw);
    assert!(descriptor.attach_stdin());
    assert!(!descriptor.allocate_terminal());

    let mut raw = fresh_container_arguments();
    raw.no_pivot = true;
    let descriptor = accepted(raw);
    assert!(descriptor.no_pivot());
    assert!(!descriptor.systemd_cgroup());

    let mut raw = fresh_container_arguments();
    raw.systemd_cgroup = true;
    let descriptor = accepted(raw);
    assert!(descriptor.systemd_cgroup());
    assert!(!descriptor.no_pivot());
}

#[test]
fn fresh_container_omitting_the_container_id() {
    let mut raw = fresh_container_arguments();
    raw.cid = None;
    assert_eq!(refused(raw), invalid(Field::ContainerId, Reason::Missing));
}

#[test]
fn fresh_container_omitting_the_container_uuid() {
    let mut raw = fresh_container_arguments();
    raw.cuuid = None;
    assert_eq!(refused(raw), invalid(Field::ContainerUuid, Reason::Missing));
}

#[test]
fn fresh_container_omitting_the_exit_directory() {
    let mut raw = fresh_container_arguments();
    raw.exit_dir = None;
    assert_eq!(refused(raw), invalid(Field::ExitDir, Reason::Missing));
}

#[test]
fn fresh_container_omitting_the_runtime() {
    let mut raw = fresh_container_arguments();
    raw.runtime = None;
    assert_eq!(refused(raw), invalid(Field::Runtime, Reason::Missing));
}

#[test]
fn fresh_container_omitting_the_log_path() {
    let mut raw = fresh_container_arguments();
    raw.log_path = None;
    assert_eq!(refused(raw), invalid(Field::LogPath, Reason::Missing));
}

#[test]
fn fresh_container_with_an_empty_required_value() {
    let mut raw = fresh_container_arguments();
    raw.cid = text("");
    assert_eq!(refused(raw), invalid(Field::ContainerId, Reason::Empty));
    let mut raw = fresh_container_arguments();
    raw.cuuid = text("");
    assert_eq!(refused(raw), invalid(Field::ContainerUuid, Reason::Empty));
    let mut raw = fresh_container_arguments();
    raw.exit_dir = text("");
    assert_eq!(refused(raw), invalid(Field::ExitDir, Reason::Empty));
    let mut raw = fresh_container_arguments();
    raw.runtime = text("");
    assert_eq!(refused(raw), invalid(Field::Runtime, Reason::Empty));
    let mut raw = fresh_container_arguments();
    raw.log_path = text("");
    assert_eq!(refused(raw), invalid(Field::LogPath, Reason::Empty));
}

#[test]
fn empty_optional_values_are_refused() {
    let mut raw = fresh_container_arguments();
    raw.bundle = text("");
    assert_eq!(refused(raw), invalid(Field::Bundle, Reason::Empty));
    let mut raw = fresh_container_arguments();
    raw.pid_file = text("");
    assert_eq!(refused(raw), invalid(Field::PidFile, Reason::Empty));
    let mut raw = fresh_container_arguments();
    raw.socket_dir = text("");
    assert_eq!(refused(raw), invalid(Field::SocketDir, Reason::Empty));
    let mut raw = fresh_container_arguments();
    raw.exec_process_spec = text("");
    assert_eq!(refused(raw), invalid(Field::ExecProcessSpec, Reason::Empty));
}

#[test]
fn exec_without_process_spec_is_refused() {
    let mut raw = exec_arguments();
    raw.exec_process_spec = None;
    assert_eq!(refused(raw), invalid(Field::ExecProcessSpec, Reason::Missing));
    let mut raw = exec_arguments();
    raw.exec_process_spec = text("");
    assert_eq!(refused(raw), invalid(Field::ExecProcessSpec, Reason::Empty));
}

#[test]
fn exec_still_needs_the_common_fields() {
    let mut raw = exec_arguments();
    raw.cid = None;
    assert_eq!(refused(raw), invalid(Field::ContainerId, Reason::Missing));
    let mut raw = exec_arguments();
    raw.runtime = None;
    assert_eq!(refused(raw), invalid(Field::Runtime, Reason::Missing));
    let mut raw = exec_arguments();
    raw.log_path = None;
    assert_eq!(refused(raw), invalid(Field::LogPath, Reason::Missing));
}

#[test]
fn exec_disregards_container_fields_that_are_given() {
    let plain = accepted(exec_arguments());
    let mut raw = exec_arguments();
    raw.cuuid = text("u1");
    raw.exit_dir = text("/tmp/e");
    raw.bundle = text("/bundles/b");
    let descriptor = accepted(raw);
    assert_eq!(descriptor, plain);
    assert_eq!(
        descriptor.mode(),
        &InvocationMode::Exec {
            container_id: "c1".to_string(),
            exec_process_spec_path: "/tmp/spec.json".to_string(),
        }
    );
}

#[test]
fn exec_refuses_an_empty_container_field() {
    let mut raw = exec_arguments();
    raw.cuuid = text("");
    assert_eq!(refused(raw), invalid(Field::ContainerUuid, Reason::Empty));
}

#[test]
fn process_spec_without_exec_launches_a_fresh_container() {
    let mut raw = fresh_container_arguments();
    raw.exec_process_spec = text("/tmp/spec.json");
    let descriptor = accepted(raw);
    assert!(!descriptor.mode().is_exec());
}

#[test]
fn timeout_omitted_means_no_timeout() {
    assert_eq!(accepted(fresh_container_arguments()).timeout_seconds(), 0);
    assert_eq!(accepted(exec_arguments()).timeout_seconds(), 0);
}

#[test]
fn timeout_that_is_no_number_is_refused() {
    let mut raw = fresh_container_arguments();
    raw.timeout = text("abc");
    assert_eq!(refused(raw), invalid(Field::Timeout, Reason::NotANumber));
    let mut raw = fresh_container_arguments();
    raw.timeout = text("-1");
    assert_eq!(refused(raw), invalid(Field::Timeout, Reason::NotANumber));
    let mut raw = fresh_container_arguments();
    raw.timeout = text("");
    assert_eq!(refused(raw), invalid(Field::Timeout, Reason::NotANumber));
    let mut raw = fresh_container_arguments();
    raw.timeout = text("18446744073709551616");
    assert_eq!(refused(raw), invalid(Field::Timeout, Reason::NotANumber));
}

#[test]
fn timeout_is_read_in_seconds() {
    let mut raw = fresh_container_arguments();
    raw.timeout = text("90");
    assert_eq!(accepted(raw).timeout_seconds(), 90);
    let mut raw = exec_arguments();
    raw.timeout = text("18446744073709551615");
    assert_eq!(accepted(raw).timeout_seconds(), u64::MAX);
}

#[test]
fn log_size_max_omitted_means_no_bound() {
    assert_eq!(accepted(fresh_container_arguments()).log_size_max_bytes(), -1);
}

#[test]
fn log_size_max_may_be_negative() {
    let mut raw = fresh_container_arguments();
    raw.log_size_max = text("-5");
    assert_eq!(accepted(raw).log_size_max_bytes(), -5);
    let mut raw = fresh_container_arguments();
    raw.log_size_max = text("1048576");
    assert_eq!(accepted(raw).log_size_max_bytes(), 1048576);
}

#[test]
fn log_size_max_that_is_no_number_is_refused() {
    let mut raw = fresh_container_arguments();
    raw.log_size_max = text("big");
    assert_eq!(refused(raw), invalid(Field::LogSizeMax, Reason::NotANumber));
    let mut raw = fresh_container_arguments();
    raw.log_size_max = text("9223372036854775808");
    assert_eq!(refused(raw), invalid(Field::LogSizeMax, Reason::NotANumber));
}

#[test]
fn the_first_field_at_fault_is_reported() {
    let mut raw = RawArguments::empty();
    raw.timeout = text("abc");
    raw.log_size_max = text("abc");
    raw.pid_file = text("");
    assert_eq!(find_fault(&raw), Some((Field::ContainerId, Reason::Missing)));
    raw.cid = text("c1");
    assert_eq!(find_fault(&raw), Some((Field::Runtime, Reason::Missing)));
    raw.runtime = text("/bin/runc");
    assert_eq!(find_fault(&raw), Some((Field::LogPath, Reason::Missing)));
    raw.log_path = text("/tmp/l");
    assert_eq!(find_fault(&raw), Some((Field::ContainerUuid, Reason::Missing)));
    raw.cuuid = text("u1");
    assert_eq!(find_fault(&raw), Some((Field::ExitDir, Reason::Missing)));
    raw.exit_dir = text("/tmp/e");
    assert_eq!(find_fault(&raw), Some((Field::PidFile, Reason::Empty)));
    raw.pid_file = None;
    assert_eq!(find_fault(&raw), Some((Field::Timeout, Reason::NotANumber)));
    raw.timeout = text("1");
    assert_eq!(find_fault(&raw), Some((Field::LogSizeMax, Reason::NotANumber)));
    raw.log_size_max = text("1");
    assert_eq!(find_fault(&raw), None);
    assert!(validate(raw, &defaults_in("/")).is_ok());
}

#[test]
fn requirements_follow_the_exec_switch() {
    let fresh = fresh_container_arguments();
    let exec = exec_arguments();
    for field in [Field::ContainerId, Field::Runtime, Field::LogPath] {
        assert!(is_required(&fresh, field));
        assert!(is_required(&exec, field));
    }
    for field in [Field::ContainerUuid, Field::ExitDir] {
        assert!(is_required(&fresh, field));
        assert!(!is_required(&exec, field));
    }
    assert!(!is_required(&fresh, Field::ExecProcessSpec));
    assert!(is_required(&exec, Field::ExecProcessSpec));
    for field in [
        Field::Bundle,
        Field::PidFile,
        Field::SocketDir,
        Field::Timeout,
        Field::LogSizeMax,
        Field::StartPipe,
    ] {
        assert!(!is_required(&fresh, field));
        assert!(!is_required(&exec, field));
    }
}

#[test]
fn single_values_are_examined_by_their_kind() {
    assert_eq!(examine_value(Field::ContainerId, "c1"), None);
    assert_eq!(examine_value(Field::ContainerId, ""), Some(Reason::Empty));
    assert_eq!(examine_value(Field::Bundle, "12"), None);
    assert_eq!(examine_value(Field::Timeout, "12"), None);
    assert_eq!(examine_value(Field::Timeout, "-12"), Some(Reason::NotANumber));
    assert_eq!(examine_value(Field::LogSizeMax, "-12"), None);
    assert_eq!(examine_value(Field::LogSizeMax, "x"), Some(Reason::NotANumber));
    let raw = exec_arguments();
    assert_eq!(examine_field(&raw, Field::ContainerUuid), None);
    assert_eq!(examine_field(&raw, Field::ExecProcessSpec), None);
    assert_eq!(examine_field(&fresh_container_arguments(), Field::ExecProcessSpec), None);
    assert_eq!(examine_field(&RawArguments::empty(), Field::ContainerUuid), Some(Reason::Missing));
}

#[test]
fn raw_arguments_are_read_by_field_and_switch() {
    let mut raw = exec_arguments();
    raw.terminal = true;
    assert_eq!(raw.value(Field::ContainerId).map(|v| v.as_str()), Some("c1"));
    assert_eq!(raw.value(Field::ExecProcessSpec).map(|v| v.as_str()), Some("/tmp/spec.json"));
    assert_eq!(raw.value(Field::ContainerUuid), None);
    assert_eq!(raw.value(Field::StartPipe), None);
    assert!(raw.is_on(Switch::Exec));
    assert!(raw.is_on(Switch::Terminal));
    assert!(!raw.is_on(Switch::Stdin));
    assert!(!raw.is_on(Switch::NoPivot));
    assert!(!raw.is_on(Switch::SystemdCgroup));
    let empty = RawArguments::empty();
    for position in 0..12u8 {
        let field = Field::from_position(position).expect("a field");
        assert_eq!(field.position(), position);
        assert_eq!(empty.value(field), None);
    }
    assert_eq!(Field::from_position(12), None);
    assert!(!empty.is_on(Switch::Exec));
}

#[test]
fn fields_and_switches_have_their_option_names() {
    assert_eq!(Field::ContainerId.as_str(), "cid");
    assert_eq!(Field::Runtime.as_str(), "runtime");
    assert_eq!(Field::LogPath.as_str(), "log-path");
    assert_eq!(Field::ContainerUuid.as_str(), "cuuid");
    assert_eq!(Field::ExitDir.as_str(), "exit-dir");
    assert_eq!(Field::ExecProcessSpec.as_str(), "exec-process-spec");
    assert_eq!(Field::Bundle.as_str(), "bundle");
    assert_eq!(Field::PidFile.as_str(), "pid-file");
    assert_eq!(Field::SocketDir.as_str(), "socket-dir-path");
    assert_eq!(Field::Timeout.as_str(), "timeout");
    assert_eq!(Field::LogSizeMax.as_str(), "log-size-max");
    assert_eq!(Field::StartPipe.as_str(), "_OCI_STARTPIPE");
    assert_eq!(Switch::Exec.as_str(), "exec");
    assert_eq!(Switch::NoPivot.as_str(), "no-pivot");
    assert_eq!(Switch::Terminal.as_str(), "terminal");
    assert_eq!(Switch::Stdin.as_str(), "stdin");
    assert_eq!(Switch::SystemdCgroup.as_str(), "systemd-cgroup");
}

#[test]
fn system_defaults() {
    let defaults = defaults_in("/run/x");
    assert_eq!(defaults.working_directory, "/run/x");
    assert_eq!(defaults.socket_dir, "/var/lib/crio");
}

#[test]
fn given_defaults_are_used() {
    let defaults = Defaults {
        working_directory: "/work".to_string(),
        socket_dir: "/sockets".to_string(),
    };
    let descriptor = validate(fresh_container_arguments(), &defaults).expect("valid");
    assert_eq!(descriptor.socket_dir(), "/sockets");
    assert_eq!(
        descriptor.mode(),
        &InvocationMode::FreshContainer {
            container_id: "c1".to_string(),
            container_uuid: "u1".to_string(),
            exit_dir: "/tmp/e".to_string(),
            bundle_path: "/work".to_string(),
        }
    );
}

#[test]
fn derived_pid_file_lies_in_the_working_directory() {
    let mut raw = fresh_container_arguments();
    raw.cid = text("abc123");
    let descriptor = accepted(raw);
    assert_eq!(derive_pid_file(&descriptor, "/run/x"), "/run/x/pidfile-abc123");
}

#[test]
fn explicit_pid_file_is_kept() {
    let mut raw = fresh_container_arguments();
    raw.cid = text("abc123");
    raw.pid_file = text("/var/run/abc.pid");
    let descriptor = accepted(raw);
    assert_eq!(derive_pid_file(&descriptor, "/run/x"), "/var/run/abc.pid");
}

#[test]
fn derived_pid_file_of_an_exec() {
    let descriptor = accepted(exec_arguments());
    assert_eq!(derive_pid_file(&descriptor, "/"), "//pidfile-c1");
}

#[test]
fn options_have_their_one_letter_forms() {
    assert_eq!(Field::ContainerId.short(), Some('c'));
    assert_eq!(Field::ContainerUuid.short(), Some('u'));
    assert_eq!(Field::Runtime.short(), Some('r'));
    assert_eq!(Field::LogPath.short(), Some('l'));
    assert_eq!(Field::PidFile.short(), Some('p'));
    assert_eq!(Field::Timeout.short(), Some('T'));
    assert_eq!(Field::Bundle.short(), Some('b'));
    assert_eq!(Field::ExitDir.short(), None);
    assert_eq!(Field::ExecProcessSpec.short(), None);
    assert_eq!(Field::LogSizeMax.short(), None);
    assert_eq!(Field::SocketDir.short(), None);
    assert_eq!(Field::StartPipe.short(), None);
    assert_eq!(Switch::Exec.short(), Some('e'));
    assert_eq!(Switch::Terminal.short(), Some('t'));
    assert_eq!(Switch::Stdin.short(), Some('i'));
    assert_eq!(Switch::SystemdCgroup.short(), Some('s'));
    assert_eq!(Switch::NoPivot.short(), None);
}

#[test]
fn fields_take_values_of_their_kind() {
    assert_eq!(FIELD_COUNT, 12);
    for field in (0..FIELD_COUNT).filter_map(Field::from_position) {
        let kind = match field {
            Field::Timeout => ValueKind::Unsigned,
            Field::LogSizeMax => ValueKind::Signed,
            Field::StartPipe => ValueKind::Descriptor,
            _ => ValueKind::Text,
        };
        assert_eq!(field.value_kind(), kind);
        assert_eq!(field.is_command_line_option(), field != Field::StartPipe);
    }
    assert_eq!(examine_value(Field::StartPipe, "3"), None);
    assert_eq!(examine_value(Field::StartPipe, "-3"), None);
    assert_eq!(examine_value(Field::StartPipe, ""), Some(Reason::NotANumber));
    assert_eq!(examine_value(Field::StartPipe, "2147483648"), Some(Reason::NotANumber));
}

#[test]
fn switches_stand_in_their_order() {
    assert_eq!(SWITCH_COUNT, 5);
    assert_eq!(Switch::from_position(0), Some(Switch::Exec));
    assert_eq!(Switch::from_position(1), Some(Switch::NoPivot));
    assert_eq!(Switch::from_position(2), Some(Switch::Terminal));
    assert_eq!(Switch::from_position(3), Some(Switch::Stdin));
    assert_eq!(Switch::from_position(4), Some(Switch::SystemdCgroup));
    assert_eq!(Switch::from_position(5), None);
    assert_eq!(Switch::from_position(255), None);
}

#[test]
fn descriptors_can_be_copied() {
    let mut raw = fresh_container_arguments();
    raw.pid_file = text("/run/pid");
    raw.timeout = text("5");
    let descriptor = accepted(raw);
    let copy = descriptor.clone();
    assert_eq!(copy, descriptor);
    assert_eq!(copy.mode().clone(), descriptor.mode().clone());
    assert_eq!(copy.pid_file(), Some("/run/pid"));
    assert_eq!(copy.timeout_seconds(), 5);
    let exec = accepted(exec_arguments());
    assert_eq!(exec.clone(), exec);
    assert_ne!(exec.clone(), descriptor);
}
