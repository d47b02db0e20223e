//! Reading the arguments out of a parsed command line.
//!
//! The command line is parsed by `clap`; what it matched is read here, by the
//! names of the fields and switches, into the plain form that the rules of
//! [`crate::invocation`] work on.

use crate::arguments::{
    law_names_are_distinct, ArgumentSet, Defaults, Field, RawArguments, Switch,
};
use crate::error::LaunchError;
use crate::invocation::{
    acceptable, descriptor_of, is_first_fault, validate, with_value, InvocationDescriptor,
};
use vstd::prelude::*;

verus! {

/// `clap::ArgMatches`: what `clap` matched on a command line. Nothing is known
/// of a value of it but what the two functions below report.
#[verifier::external_type_specification]
#[verifier::external_body]
pub struct ExArgMatches<'a>(clap::ArgMatches<'a>);

/// For each argument name under which the matches hold at least one value,
/// the first of its values as text, any byte sequence that is not UTF-8
/// replaced by U+FFFD.
pub uninterp spec fn matched_values(matches: clap::ArgMatches<'_>) -> Map<Seq<char>, Seq<char>>;

/// The names that the matches report as present: those of the arguments
/// that were matched, and that of the subcommand if one was.
pub uninterp spec fn matched_names(matches: clap::ArgMatches<'_>) -> Set<Seq<char>>;

/// `clap::ArgMatches::value_of_lossy`: the first value that was matched for
/// the argument of that name, converted to text without failing, or nothing
/// when no value was matched for it. Trusted, not proved.
#[verifier::external_body]
fn first_value(matches: &clap::ArgMatches<'_>, name: &str) -> (value: Option<String>)
    ensures
        value is Some <==> matched_values(*matches).dom().contains(name@),
        value matches Some(text) ==> text@ == matched_values(*matches)[name@],
{
    match matches.value_of_lossy(name) {
        Some(text) => Some(text.into_owned()),
        None => None,
    }
}

/// `clap::ArgMatches::is_present`: whether the matches report the name as
/// present. Trusted, not proved.
#[verifier::external_body]
fn is_present(matches: &clap::ArgMatches<'_>, name: &str) -> (present: bool)
    ensures
        present == matched_names(*matches).contains(name@),
{
    matches.is_present(name)
}

/// The arguments that a parsed command line holds: for each field that is a
/// command-line option the value matched under its name, and each switch
/// whose name is present. The handshake variable is no option, so no value is
/// ever taken for it.
pub open spec fn arguments_in(
    values: Map<Seq<char>, Seq<char>>,
    names: Set<Seq<char>>,
) -> ArgumentSet {
    ArgumentSet {
        values: Map::new(
            |field: Field| value_in(values, field) is Some,
            |field: Field| value_in(values, field)->Some_0,
        ),
        switches: Set::new(|switch: Switch| names.contains(switch.name())),
    }
}

/// A value matched under the name of a field is read as the value of that
/// field, and of no other.
pub proof fn law_values_are_read_by_name(
    values: Map<Seq<char>, Seq<char>>,
    names: Set<Seq<char>>,
    field: Field,
    text: Seq<char>,
)
    requires
        field.is_option(),
    ensures
        arguments_in(values.insert(field.name(), text), names) == with_value(
            arguments_in(values, names),
            field,
            text,
        ),
{
    let read = arguments_in(values.insert(field.name(), text), names);
    let expected = with_value(arguments_in(values, names), field, text);
    assert forall|other: Field| read.get(other) == expected.get(other) by {
        law_names_are_distinct(field, other, Switch::Exec, Switch::Exec);
    }
    assert forall|other: Field|
        read.values.dom().contains(other) == expected.values.dom().contains(other) by {
        assert(read.get(other) == expected.get(other));
    }
    assert forall|other: Field| read.values.dom().contains(other) implies read.values[other]
        == expected.values[other] by {
        assert(read.get(other) == expected.get(other));
    }
    assert(read.values =~= expected.values);
}

/// A name that is present turns on the switch of that name, and no other.
pub proof fn law_switches_are_read_by_name(
    values: Map<Seq<char>, Seq<char>>,
    names: Set<Seq<char>>,
    switch: Switch,
)
    ensures
        arguments_in(values, names.insert(switch.name())).switches == arguments_in(
            values,
            names,
        ).switches.insert(switch),
        arguments_in(values, names.insert(switch.name())).values == arguments_in(
            values,
            names,
        ).values,
{
    let read = arguments_in(values, names.insert(switch.name()));
    let before = arguments_in(values, names);
    assert forall|other: Switch|
        read.switches.contains(other) == before.switches.insert(switch).contains(other) by {
        law_names_are_distinct(Field::ContainerId, Field::ContainerId, switch, other);
    }
    assert(read.switches =~= before.switches.insert(switch));
}

/// The value that is read for a field out of what was matched.
pub open spec fn value_in(values: Map<Seq<char>, Seq<char>>, field: Field) -> Option<Seq<char>> {
    if field.is_option() && values.dom().contains(field.name()) {
        Some(values[field.name()])
    } else {
        None
    }
}

/// A text that may be missing, as plain text.
pub open spec fn text_of(value: Option<String>) -> Option<Seq<char>> {
    match value {
        Some(text) => Some(text@),
        None => None,
    }
}

/// Reads the value matched for one field.
fn read_value(matches: &clap::ArgMatches<'_>, field: Field) -> (value: Option<String>)
    ensures
        text_of(value) == value_in(matched_values(*matches), field),
{
    if field.is_command_line_option() {
        first_value(matches, field.as_str())
    } else {
        None
    }
}

/// Reads whether one switch was given.
fn read_switch(matches: &clap::ArgMatches<'_>, switch: Switch) -> (on: bool)
    ensures
        on == matched_names(*matches).contains(switch.name()),
{
    is_present(matches, switch.as_str())
}

/// Raw arguments that hold for every field what is read for it, and for
/// every switch whether its name is present, are the arguments of the
/// command line.
proof fn lemma_arguments_read_field_by_field(
    raw: RawArguments,
    values: Map<Seq<char>, Seq<char>>,
    names: Set<Seq<char>>,
)
    requires
        forall|field: Field| text_of(#[trigger] raw.held(field)) == value_in(values, field),
        forall|switch: Switch| #[trigger] raw.flagged(switch) == names.contains(switch.name()),
    ensures
        raw@ == arguments_in(values, names),
{
    let expected = arguments_in(values, names);
    assert forall|field: Field|
        raw@.values.dom().contains(field) == expected.values.dom().contains(field) by {
        assert(text_of(raw.held(field)) == value_in(values, field));
    }
    assert forall|field: Field| raw@.values.dom().contains(field) implies raw@.values[field]
        == expected.values[field] by {
        assert(text_of(raw.held(field)) == value_in(values, field));
    }
    assert(raw@.values =~= expected.values);
    assert forall|switch: Switch|
        raw@.switches.contains(switch) == expected.switches.contains(switch) by {
        assert(raw.flagged(switch) == names.contains(switch.name()));
    }
    assert(raw@.switches =~= expected.switches);
}

/// Reads the arguments out of a parsed command line.
pub fn read_arguments(matches: &clap::ArgMatches<'_>) -> (raw: RawArguments)
    ensures
        raw@ == arguments_in(matched_values(*matches), matched_names(*matches)),
{
    let raw = RawArguments {
        cid: read_value(matches, Field::ContainerId),
        runtime: read_value(matches, Field::Runtime),
        log_path: read_value(matches, Field::LogPath),
        cuuid: read_value(matches, Field::ContainerUuid),
        exit_dir: read_value(matches, Field::ExitDir),
        exec_process_spec: read_value(matches, Field::ExecProcessSpec),
        bundle: read_value(matches, Field::Bundle),
        pid_file: read_value(matches, Field::PidFile),
        socket_dir: read_value(matches, Field::SocketDir),
        timeout: read_value(matches, Field::Timeout),
        log_size_max: read_value(matches, Field::LogSizeMax),
        exec_mode: read_switch(matches, Switch::Exec),
        no_pivot: read_switch(matches, Switch::NoPivot),
        terminal: read_switch(matches, Switch::Terminal),
        stdin: read_switch(matches, Switch::Stdin),
        systemd_cgroup: read_switch(matches, Switch::SystemdCgroup),
    };
    proof {
        lemma_arguments_read_field_by_field(
            raw,
            matched_values(*matches),
            matched_names(*matches),
        );
    }
    raw
}

/// Decides whether a parsed command line is a valid invocation, and builds
/// its descriptor if it is.
pub fn validate_matches(matches: &clap::ArgMatches<'_>, defaults: &Defaults) -> (outcome: Result<
    InvocationDescriptor,
    LaunchError,
>)
    ensures
        ({
            let args = arguments_in(matched_values(*matches), matched_names(*matches));
            &&& outcome is Ok <==> acceptable(args)
            &&& match outcome {
                Ok(descriptor) => descriptor@ == descriptor_of(args, defaults@),
                Err(error) => error matches LaunchError::InvalidArgument { field, reason }
                    && is_first_fault(args, field, reason),
            }
        }),
{
    validate(read_arguments(matches), defaults)
}

} // verus!
