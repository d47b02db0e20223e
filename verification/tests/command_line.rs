use clap::{App, Arg, ArgMatches};
use conmon_rs::arguments::{
    Defaults, Field, RawArguments, Switch, ValueKind, FIELD_COUNT, SWITCH_COUNT,
};
use conmon_rs::command_line::{read_arguments, validate_matches};
use conmon_rs::error::{LaunchError, Reason};
use conmon_rs::invocation::InvocationMode;

fn with_short(arg: Arg<'static, 'static>, letter: Option<char>) -> Arg<'static, 'static> {
    match letter {
        Some(letter) => arg.short(letter.to_string()),
        None => arg,
    }
}

fn parse(words: &[&str]) -> ArgMatches<'static> {
    let mut line = vec!["conmon"];
    line.extend_from_slice(words);
    let mut app = App::new("conmon");
    for switch in (0..SWITCH_COUNT).filter_map(Switch::from_position) {
        let arg = Arg::with_name(switch.as_str()).long(switch.as_str()).takes_value(false);
        app = app.arg(with_short(arg, switch.short()));
    }
    for field in (0..FIELD_COUNT).filter_map(Field::from_position) {
        if field.is_command_line_option() {
            let arg = Arg::with_name(field.as_str())
                .long(field.as_str())
                .takes_value(true)
                .allow_hyphen_values(field.value_kind() == ValueKind::Signed);
            app = app.arg(with_short(arg, field.short()));
        }
    }
    app.get_matches_from_safe(line).expect("the words are options of the command line")
}

fn system_defaults() -> Defaults {
    Defaults::system("/run/x".to_string())
}

#[test]
fn values_are_read_by_option_name() {
    let matches = parse(&[
        "--cid", "c1", "--runtime", "/bin/runc", "--log-path", "/tmp/l", "--cuuid", "u1",
        "--exit-dir", "/tmp/e", "--bundle", "/b", "--pid-file", "/p", "--timeout", "12",
        "--log-size-max", "-5", "--socket-dir-path", "/s", "--exec-process-spec", "/spec",
    ]);
    let raw = read_arguments(&matches);
    assert_eq!(raw.cid.as_deref(), Some("c1"));
    assert_eq!(raw.runtime.as_deref(), Some("/bin/runc"));
    assert_eq!(raw.log_path.as_deref(), Some("/tmp/l"));
    assert_eq!(raw.cuuid.as_deref(), Some("u1"));
    assert_eq!(raw.exit_dir.as_deref(), Some("/tmp/e"));
    assert_eq!(raw.bundle.as_deref(), Some("/b"));
    assert_eq!(raw.pid_file.as_deref(), Some("/p"));
    assert_eq!(raw.timeout.as_deref(), Some("12"));
    assert_eq!(raw.log_size_max.as_deref(), Some("-5"));
    assert_eq!(raw.socket_dir.as_deref(), Some("/s"));
    assert_eq!(raw.exec_process_spec.as_deref(), Some("/spec"));
    assert!(!raw.exec_mode);
    assert!(!raw.no_pivot);
    assert!(!raw.terminal);
    assert!(!raw.stdin);
    assert!(!raw.systemd_cgroup);
}

#[test]
fn switches_are_read_by_option_name() {
    let raw = read_arguments(&parse(&["--exec"]));
    assert!(raw.exec_mode && !raw.no_pivot && !raw.terminal && !raw.stdin && !raw.systemd_cgroup);
    let raw = read_arguments(&parse(&["--no-pivot"]));
    assert!(!raw.exec_mode && raw.no_pivot && !raw.terminal && !raw.stdin && !raw.systemd_cgroup);
    let raw = read_arguments(&parse(&["--terminal"]));
    assert!(!raw.exec_mode && !raw.no_pivot && raw.terminal && !raw.stdin && !raw.systemd_cgroup);
    let raw = read_arguments(&parse(&["--stdin"]));
    assert!(!raw.exec_mode && !raw.no_pivot && !raw.terminal && raw.stdin && !raw.systemd_cgroup);
    let raw = read_arguments(&parse(&["--systemd-cgroup"]));
    assert!(!raw.exec_mode && !raw.no_pivot && !raw.terminal && !raw.stdin && raw.systemd_cgroup);
    let raw = read_arguments(&parse(&["-e", "-t", "-i", "-s"]));
    assert!(raw.exec_mode && !raw.no_pivot && raw.terminal && raw.stdin && raw.systemd_cgroup);
}

#[test]
fn nothing_given_reads_as_nothing() {
    let raw = read_arguments(&parse(&[]));
    assert_eq!(raw.cid, None);
    assert_eq!(raw.runtime, None);
    assert_eq!(raw.log_path, None);
    assert_eq!(raw.cuuid, None);
    assert_eq!(raw.exit_dir, None);
    assert_eq!(raw.exec_process_spec, None);
    assert_eq!(raw.bundle, None);
    assert_eq!(raw.pid_file, None);
    assert_eq!(raw.socket_dir, None);
    assert_eq!(raw.timeout, None);
    assert_eq!(raw.log_size_max, None);
    assert!(!raw.exec_mode && !raw.no_pivot && !raw.terminal && !raw.stdin && !raw.systemd_cgroup);
}

#[test]
fn negative_log_size_is_read_in_either_form() {
    let raw = read_arguments(&parse(&["--log-size-max=-5"]));
    assert_eq!(raw.log_size_max.as_deref(), Some("-5"));
    let raw = read_arguments(&parse(&["--log-size-max", "-1"]));
    assert_eq!(raw.log_size_max.as_deref(), Some("-1"));
}

#[test]
fn empty_values_are_read_as_empty() {
    let raw = read_arguments(&parse(&["--cid", "", "--runtime=", "-l", "x"]));
    assert_eq!(raw.cid.as_deref(), Some(""));
    assert_eq!(raw.runtime.as_deref(), Some(""));
    assert_eq!(raw.log_path.as_deref(), Some("x"));
}

#[test]
fn short_options_are_read_like_long_ones() {
    let raw = read_arguments(&parse(&[
        "-c", "c1", "-u", "u1", "-r", "/bin/runc", "-l", "/tmp/l", "-p", "/p", "-T", "3", "-b",
        "/b",
    ]));
    let mut expected = RawArguments::empty();
    expected.cid = Some("c1".to_string());
    expected.cuuid = Some("u1".to_string());
    expected.runtime = Some("/bin/runc".to_string());
    expected.log_path = Some("/tmp/l".to_string());
    expected.pid_file = Some("/p".to_string());
    expected.timeout = Some("3".to_string());
    expected.bundle = Some("/b".to_string());
    assert_eq!(format!("{:?}", raw), format!("{:?}", expected));
}

#[test]
fn fresh_container_command_line_is_valid() {
    let matches = parse(&[
        "--cid", "c1", "--runtime", "/bin/runc", "--log-path", "/tmp/l", "--cuuid", "u1",
        "--exit-dir", "/tmp/e",
    ]);
    let descriptor = validate_matches(&matches, &system_defaults()).expect("valid");
    assert_eq!(
        descriptor.mode(),
        &InvocationMode::FreshContainer {
            container_id: "c1".to_string(),
            container_uuid: "u1".to_string(),
            exit_dir: "/tmp/e".to_string(),
            bundle_path: "/run/x".to_string(),
        }
    );
    assert_eq!(descriptor.runtime_path(), "/bin/runc");
    assert_eq!(descriptor.log_path(), "/tmp/l");
    assert_eq!(descriptor.timeout_seconds(), 0);
    assert_eq!(descriptor.log_size_max_bytes(), -1);
    assert_eq!(descriptor.socket_dir(), "/var/lib/crio");
    assert_eq!(descriptor.pid_file(), None);
}

#[test]
fn exec_command_line_is_valid() {
    let matches = parse(&[
        "--cid", "c1", "--runtime", "/bin/runc", "--log-path", "/tmp/l", "--exec",
        "--exec-process-spec", "/tmp/spec.json",
    ]);
    let descriptor = validate_matches(&matches, &system_defaults()).expect("valid");
    assert_eq!(
        descriptor.mode(),
        &InvocationMode::Exec {
            container_id: "c1".to_string(),
            exec_process_spec_path: "/tmp/spec.json".to_string(),
        }
    );
}

#[test]
fn command_line_with_a_fault_is_refused() {
    let matches = parse(&["--cid", "c1", "--runtime", "/bin/runc", "--log-path", "/tmp/l"]);
    assert_eq!(
        validate_matches(&matches, &system_defaults()),
        Err(LaunchError::InvalidArgument { field: Field::ContainerUuid, reason: Reason::Missing })
    );
    let matches = parse(&[
        "--cid", "c1", "--runtime", "/bin/runc", "--log-path", "/tmp/l", "--cuuid", "u1",
        "--exit-dir", "/tmp/e", "--timeout", "abc",
    ]);
    assert_eq!(
        validate_matches(&matches, &system_defaults()),
        Err(LaunchError::InvalidArgument { field: Field::Timeout, reason: Reason::NotANumber })
    );
    let matches = parse(&[
        "--cid", "c1", "--runtime", "/bin/runc", "--log-path", "/tmp/l", "--exec",
    ]);
    assert_eq!(
        validate_matches(&matches, &system_defaults()),
        Err(LaunchError::InvalidArgument { field: Field::ExecProcessSpec, reason: Reason::Missing })
    );
}

#[test]
fn handshake_variable_is_no_option() {
    let line = vec!["conmon", "--_OCI_STARTPIPE", "3"];
    let mut app = App::new("conmon");
    for field in (0..FIELD_COUNT).filter_map(Field::from_position) {
        if field.is_command_line_option() {
            app = app.arg(Arg::with_name(field.as_str()).long(field.as_str()).takes_value(true));
        }
    }
    assert!(app.get_matches_from_safe(line).is_err());
}

#[test]
fn value_under_the_name_of_the_handshake_variable_is_not_read() {
    let matches = App::new("conmon")
        .arg(Arg::with_name("_OCI_STARTPIPE").long("start-pipe").takes_value(true))
        .arg(Arg::with_name("cid").long("cid").takes_value(true))
        .get_matches_from_safe(vec!["conmon", "--start-pipe", "3", "--cid", "c1"])
        .expect("the words are options of this command line");
    let raw = read_arguments(&matches);
    assert_eq!(raw.value(Field::StartPipe), None);
    assert_eq!(raw.cid.as_deref(), Some("c1"));
}
