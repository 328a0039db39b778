//! The boundary to `clap`.
//!
//! Everything in this module that carries `external_body` is believed, not
//! proved: it states what the named `clap` function does, as read from the
//! `clap` source. The rest of the crate is verified against these statements.
//!
//! `clap` values are opaque to the verifier. Three views say what they hold:
//! [`arg_view`] and [`command_view`] for definitions, [`matches_view`] for
//! the outcome of a parse.

use vstd::prelude::*;
use crate::text::string_views;

verus! {

/// What an argument does with its occurrences on the command line.
#[derive(Clone, Copy, Debug, PartialEq, Eq, Structural)]
pub enum ActionKind {
    /// Keep the value of the last occurrence.
    SetValue,
    /// Keep the values of all occurrences, in order.
    Append,
    /// `true` when the flag occurs, `false` otherwise.
    SetTrue,
    /// `false` when the flag occurs, `true` otherwise.
    SetFalse,
    /// The number of occurrences.
    Count,
}

/// What a `clap::Arg` holds.
pub struct ArgView {
    /// The identifier under which matched values are looked up.
    pub id: Seq<char>,
    /// The action, or `None` where it is none of [`ActionKind`].
    pub action: Option<ActionKind>,
    /// The character of the `-c` form.
    pub short: Option<char>,
    /// The word of the `--word` form.
    pub long: Option<Seq<char>>,
    /// Whether anything but the fields above has been configured.
    pub other_settings: bool,
}

/// What a `clap::Command` holds.
pub struct CommandView {
    /// The name of the command.
    pub name: Seq<char>,
    /// The arguments, in the order in which they were attached.
    pub args: Seq<ArgView>,
    /// The subcommands, in the order in which they were attached.
    pub subcommands: Seq<CommandView>,
    /// Whether an empty command line is answered with the help text.
    pub arg_required_else_help: bool,
    /// Whether the command line starts with the first argument rather than
    /// with the name of the program.
    pub no_binary_name: bool,
    /// Whether anything but the fields above has been configured.
    pub other_settings: bool,
}

/// The values that a parse holds for one argument.
pub enum MatchedValues {
    /// String values, in the order of their occurrence.
    Strings(Seq<Seq<char>>),
    /// The state of a flag.
    Flag(bool),
    /// The number of occurrences.
    Count(u8),
    /// Values of any other shape.
    Other,
}

/// What a `clap::ArgMatches` holds.
pub struct MatchesView {
    /// The identifiers that may be looked up.
    pub admitted: Set<Seq<char>>,
    /// The values, for each argument that has any.
    pub args: Map<Seq<char>, MatchedValues>,
    /// The name and the matches of the selected subcommand.
    pub subcommand: Option<(Seq<char>, Box<MatchesView>)>,
}

/// `clap::Arg`: the definition of one argument, carried as it is.
#[verifier::external_type_specification]
#[verifier::external_body]
pub struct ExArg(clap::Arg);

/// `clap::Command`: the definition of a command with everything below
/// it, carried as it is.
#[verifier::external_type_specification]
#[verifier::external_body]
pub struct ExCommand(clap::Command);

/// `clap::ArgMatches`: what a parse matched, carried as it is.
#[verifier::external_type_specification]
#[verifier::external_body]
pub struct ExArgMatches(clap::ArgMatches);

/// What `arg` holds.
pub uninterp spec fn arg_view(arg: clap::Arg) -> ArgView;

/// What `command` holds.
pub uninterp spec fn command_view(command: clap::Command) -> CommandView;

/// What `matches` holds.
pub uninterp spec fn matches_view(matches: clap::ArgMatches) -> MatchesView;

/// What `clap` makes of the command line `argv` with a command that
/// holds `command`: what the matches hold, or, where it refuses the
/// command line, the text that it renders for its error.
pub uninterp spec fn parse_outcome(command: CommandView, argv: Seq<Seq<char>>) -> Result<
    MatchesView,
    Seq<char>,
>;

impl ArgView {
    /// An argument as `clap::Arg::new` makes it.
    pub open spec fn named(id: Seq<char>) -> ArgView {
        ArgView {
            id,
            action: Some(ActionKind::SetValue),
            short: None,
            long: None,
            other_settings: false,
        }
    }

    /// Whether the argument is given by position rather than by a flag.
    pub open spec fn is_positional(self) -> bool {
        self.short is None && self.long is None
    }

    /// Whether the argument takes a value from the command line.
    pub open spec fn takes_value(self) -> bool {
        self.action == Some(ActionKind::SetValue) || self.action == Some(ActionKind::Append)
    }
}

impl CommandView {
    /// A command as `clap::Command::new` makes it.
    pub open spec fn named(name: Seq<char>) -> CommandView {
        CommandView {
            name,
            args: Seq::empty(),
            subcommands: Seq::empty(),
            arg_required_else_help: false,
            no_binary_name: false,
            other_settings: false,
        }
    }
}

impl MatchesView {
    /// The values held for `id`, if any.
    pub open spec fn values(self, id: Seq<char>) -> Option<MatchedValues> {
        if self.args.contains_key(id) {
            Some(self.args[id])
        } else {
            None
        }
    }

    /// Whether `id` may be looked up as an argument with string values.
    pub open spec fn admits_strings(self, id: Seq<char>) -> bool {
        self.admitted.contains(id) && (self.values(id) matches Some(v) ==> v is Strings)
    }

    /// Whether `id` may be looked up as a flag.
    pub open spec fn admits_flag(self, id: Seq<char>) -> bool {
        self.admitted.contains(id) && (self.values(id) matches Some(v) && v is Flag)
    }

    /// Whether `id` may be looked up as a counter.
    pub open spec fn admits_count(self, id: Seq<char>) -> bool {
        self.admitted.contains(id) && (self.values(id) matches Some(v) && v is Count)
    }

    /// All string values of `id`, in the order of their occurrence.
    pub open spec fn many(self, id: Seq<char>) -> Option<Seq<Seq<char>>> {
        match self.values(id) {
            Some(MatchedValues::Strings(values)) => Some(values),
            _ => None,
        }
    }

    /// The first string value of `id`.
    pub open spec fn one(self, id: Seq<char>) -> Option<Seq<char>> {
        match self.values(id) {
            Some(MatchedValues::Strings(values)) => if values.len() > 0 {
                Some(values[0])
            } else {
                None
            },
            _ => None,
        }
    }

    /// The state of the flag `id`.
    pub open spec fn flag(self, id: Seq<char>) -> bool {
        match self.values(id) {
            Some(MatchedValues::Flag(state)) => state,
            _ => false,
        }
    }

    /// The counter `id`.
    pub open spec fn count(self, id: Seq<char>) -> u8 {
        match self.values(id) {
            Some(MatchedValues::Count(n)) => n,
            _ => 0,
        }
    }
}

/// The identifier, the short flag and the long flag that `clap` gives to the
/// help argument which it adds to every command.
pub open spec fn help_word() -> Seq<char> {
    seq!['h', 'e', 'l', 'p']
}

/// Whether `clap` takes the argument as part of a command. `clap` asserts
/// that a long flag does not start with a hyphen and that an argument
/// without flags takes a value.
pub open spec fn arg_accepted(arg: ArgView) -> bool {
    &&& !arg.other_settings
    &&& arg.action is Some
    &&& arg.short != Some('-')
    &&& arg.long matches Some(long) ==> !(long.len() > 0 && long[0] == '-')
    &&& arg.is_positional() ==> arg.takes_value()
}

/// Whether `clap` takes the command as a parser: the definitions on which
/// the assertions that `clap` makes when it builds a command hold. Within a
/// command, identifiers, short flags and long flags are unique, also
/// against the help argument that `clap` adds; of the arguments without
/// flags only the last may be `Append`; the names of the subcommands are
/// unique, also against the `help` subcommand that `clap` adds; and the
/// same holds of every subcommand.
pub open spec fn parser_accepts(command: CommandView) -> bool
    decreases command,
{
    &&& !command.other_settings
    &&& forall|i: int| 0 <= i < command.args.len() ==> arg_accepted(#[trigger] command.args[i])
    &&& forall|i: int|
        0 <= i < command.args.len() ==> {
            &&& (#[trigger] command.args[i]).id != help_word()
            &&& command.args[i].short != Some('h')
            &&& command.args[i].long != Some(help_word())
        }
    &&& forall|i: int, j: int|
        0 <= i < j < command.args.len() ==> {
            &&& (#[trigger] command.args[i]).id != (#[trigger] command.args[j]).id
            &&& command.args[i].short is Some ==> command.args[i].short != command.args[j].short
            &&& command.args[i].long is Some ==> command.args[i].long != command.args[j].long
            &&& command.args[i].is_positional() && command.args[j].is_positional()
                ==> command.args[i].action != Some(ActionKind::Append)
        }
    &&& forall|i: int|
        0 <= i < command.subcommands.len() ==> (#[trigger] command.subcommands[i]).name
            != help_word()
    &&& forall|i: int, j: int|
        0 <= i < j < command.subcommands.len() ==> (#[trigger] command.subcommands[i]).name != (
        #[trigger] command.subcommands[j]).name
    &&& forall|i: int|
        0 <= i < command.subcommands.len() ==> parser_accepts(#[trigger] command.subcommands[i])
}

/// Whether `values` is what a parse holds for an argument with `action`:
/// strings where it takes values, and always a flag state or a counter where
/// it takes none.
pub open spec fn values_fit(values: Option<MatchedValues>, action: ActionKind) -> bool {
    match action {
        ActionKind::SetValue | ActionKind::Append => values matches Some(v) ==> v is Strings,
        ActionKind::SetTrue | ActionKind::SetFalse => values matches Some(v) && v is Flag,
        ActionKind::Count => values matches Some(v) && v is Count,
    }
}

/// Whether `matches` can be the outcome of parsing with `command`: every
/// argument of the command may be looked up and holds values of the shape
/// of its action, and the selected subcommand, if there is one, bears the
/// name of a subcommand of `command` and fits it in the same way.
pub open spec fn matches_fit(matches: MatchesView, command: CommandView) -> bool
    decreases matches,
{
    &&& forall|i: int|
        0 <= i < command.args.len() ==> {
            &&& matches.admitted.contains((#[trigger] command.args[i]).id)
            &&& command.args[i].action matches Some(action) ==> values_fit(
                matches.values(command.args[i].id),
                action,
            )
        }
    &&& match matches.subcommand {
        None => true,
        Some((name, selected)) => exists|j: int|
            0 <= j < command.subcommands.len() && (#[trigger] command.subcommands[j]).name == name
                && matches_fit(*selected, command.subcommands[j]),
    }
}

/// `clap::Arg::new`: an argument with the identifier `id`, the default
/// action, which stores one value, and no flag.
#[verifier::external_body]
pub(crate) fn arg_new(id: &str) -> (arg: clap::Arg)
    ensures
        arg_view(arg) == ArgView::named(id@),
{
    clap::Arg::new(id.to_owned())
}

/// `clap::Arg::action`: the same argument with its action replaced.
#[verifier::external_body]
pub(crate) fn arg_action(arg: clap::Arg, action: ActionKind) -> (result: clap::Arg)
    ensures
        arg_view(result) == (ArgView { action: Some(action), ..arg_view(arg) }),
{
    arg.action(
        match action {
            ActionKind::SetValue => clap::ArgAction::Set,
            ActionKind::Append => clap::ArgAction::Append,
            ActionKind::SetTrue => clap::ArgAction::SetTrue,
            ActionKind::SetFalse => clap::ArgAction::SetFalse,
            ActionKind::Count => clap::ArgAction::Count,
        },
    )
}

/// `clap::Arg::short`: the same argument with its short flag replaced.
/// `clap` asserts that the flag is not a hyphen.
#[verifier::external_body]
pub(crate) fn arg_short(arg: clap::Arg, short: char) -> (result: clap::Arg)
    requires
        short != '-',
    ensures
        arg_view(result) == (ArgView { short: Some(short), ..arg_view(arg) }),
{
    arg.short(short)
}

/// `clap::Arg::long`: the same argument with its long flag replaced.
#[verifier::external_body]
pub(crate) fn arg_long(arg: clap::Arg, long: &str) -> (result: clap::Arg)
    ensures
        arg_view(result) == (ArgView { long: Some(long@), ..arg_view(arg) }),
{
    arg.long(long.to_owned())
}

/// `clap::Arg::get_id`: the identifier of the argument.
#[verifier::external_body]
pub(crate) fn arg_get_id(arg: &clap::Arg) -> (id: &str)
    ensures
        id@ == arg_view(*arg).id,
{
    arg.get_id().as_str()
}

/// `clap::Arg::get_action`: the action of the argument, or `None` where it
/// is one of the actions that print help or the version.
#[verifier::external_body]
pub(crate) fn arg_get_action(arg: &clap::Arg) -> (action: Option<ActionKind>)
    ensures
        action == arg_view(*arg).action,
{
    match arg.get_action() {
        clap::ArgAction::Set => Some(ActionKind::SetValue),
        clap::ArgAction::Append => Some(ActionKind::Append),
        clap::ArgAction::SetTrue => Some(ActionKind::SetTrue),
        clap::ArgAction::SetFalse => Some(ActionKind::SetFalse),
        clap::ArgAction::Count => Some(ActionKind::Count),
        _ => None,
    }
}

/// `clap::Command::new`: a command with the name `name` and nothing else.
#[verifier::external_body]
pub(crate) fn command_new(name: &str) -> (command: clap::Command)
    ensures
        command_view(command) == CommandView::named(name@),
{
    clap::Command::new(name.to_owned())
}

/// `clap::Command::arg`: the same command with `arg` as its last argument.
#[verifier::external_body]
pub(crate) fn command_arg(command: clap::Command, arg: clap::Arg) -> (result: clap::Command)
    ensures
        command_view(result) == (CommandView {
            args: command_view(command).args.push(arg_view(arg)),
            ..command_view(command)
        }),
{
    command.arg(arg)
}

/// `clap::Command::subcommand`: the same command with `subcommand` as its
/// last subcommand.
#[verifier::external_body]
pub(crate) fn command_subcommand(command: clap::Command, subcommand: clap::Command) -> (result:
    clap::Command)
    ensures
        command_view(result) == (CommandView {
            subcommands: command_view(command).subcommands.push(command_view(subcommand)),
            ..command_view(command)
        }),
{
    command.subcommand(subcommand)
}

/// `clap::Command::arg_required_else_help`: the same command with the
/// setting switched on or off.
#[verifier::external_body]
pub(crate) fn command_arg_required_else_help(command: clap::Command, yes: bool) -> (result:
    clap::Command)
    ensures
        command_view(result) == (CommandView {
            arg_required_else_help: yes,
            ..command_view(command)
        }),
{
    command.arg_required_else_help(yes)
}

/// `clap::Command::no_binary_name`: the same command with the setting
/// switched on or off.
#[verifier::external_body]
pub(crate) fn command_no_binary_name(command: clap::Command, yes: bool) -> (result: clap::Command)
    ensures
        command_view(result) == (CommandView { no_binary_name: yes, ..command_view(command) }),
{
    command.no_binary_name(yes)
}

/// `clap::Command::get_name`: the name of the command.
#[verifier::external_body]
pub(crate) fn command_get_name(command: &clap::Command) -> (name: &str)
    ensures
        name@ == command_view(*command).name,
{
    command.get_name()
}

/// `clap::Command::get_arguments`: the arguments of the command, in the
/// order in which they were attached.
#[verifier::external_body]
pub(crate) fn command_get_arguments(command: &clap::Command) -> (args: Vec<&clap::Arg>)
    ensures
        args@.len() == command_view(*command).args.len(),
        forall|i: int|
            0 <= i < args@.len() ==> arg_view(*#[trigger] args@[i]) == command_view(
                *command,
            ).args[i],
{
    command.get_arguments().collect()
}

/// `clap::Command::get_subcommands`: the subcommands of the command, in the
/// order in which they were attached.
#[verifier::external_body]
pub(crate) fn command_get_subcommands(command: &clap::Command) -> (subcommands: Vec<
    &clap::Command,
>)
    ensures
        subcommands@.len() == command_view(*command).subcommands.len(),
        forall|i: int|
            0 <= i < subcommands@.len() ==> command_view(*#[trigger] subcommands@[i])
                == command_view(*command).subcommands[i],
{
    command.get_subcommands().collect()
}

/// `clap::Command::try_get_matches_from`: parses `argv` with `command`.
/// Whether it matches, what it matches and what it says where it does not
/// are decided by what the command holds and by the command line, and are
/// named by [`parse_outcome`]; a failure is given as the text that `clap`
/// renders for its error. The matches of a successful parse fit the
/// command. `clap` panics on a command that it does not take as a parser.
#[verifier::external_body]
pub(crate) fn command_try_get_matches_from(command: clap::Command, argv: &Vec<String>) -> (result:
    Result<clap::ArgMatches, String>)
    requires
        parser_accepts(command_view(command)),
    ensures
        match result {
            Ok(matches) => parse_outcome(command_view(command), string_views(argv@)) == Ok::<
                MatchesView,
                Seq<char>,
            >(matches_view(matches)) && matches_fit(matches_view(matches), command_view(command)),
            Err(message) => parse_outcome(command_view(command), string_views(argv@)) == Err::<
                MatchesView,
                Seq<char>,
            >(message@),
        },
{
    match command.try_get_matches_from(argv) {
        Ok(matches) => Ok(matches),
        Err(error) => Err(error.to_string()),
    }
}

/// `clap::ArgMatches::get_one`, for strings: the first value of `id`.
/// `clap` panics on an identifier that it does not know and on values that
/// are no strings.
#[verifier::external_body]
pub(crate) fn matches_get_one<'a>(matches: &'a clap::ArgMatches, id: &str) -> (value: Option<
    &'a String,
>)
    requires
        matches_view(*matches).admits_strings(id@),
    ensures
        match value {
            Some(text) => matches_view(*matches).one(id@) == Some(text@),
            None => matches_view(*matches).one(id@) is None,
        },
{
    matches.get_one::<String>(id)
}

/// `clap::ArgMatches::get_many`, for strings: all values of `id`, in the
/// order of their occurrence. `clap` panics on an identifier that it does
/// not know and on values that are no strings.
#[verifier::external_body]
pub(crate) fn matches_get_many(matches: &clap::ArgMatches, id: &str) -> (values: Option<
    Vec<String>,
>)
    requires
        matches_view(*matches).admits_strings(id@),
    ensures
        match values {
            Some(texts) => matches_view(*matches).many(id@) == Some(string_views(texts@)),
            None => matches_view(*matches).many(id@) is None,
        },
{
    match matches.get_many::<String>(id) {
        Some(values) => Some(values.cloned().collect()),
        None => None,
    }
}

/// `clap::ArgMatches::get_flag`: the state of the flag `id`. `clap` panics
/// where `id` holds no flag.
#[verifier::external_body]
pub(crate) fn matches_get_flag(matches: &clap::ArgMatches, id: &str) -> (state: bool)
    requires
        matches_view(*matches).admits_flag(id@),
    ensures
        state == matches_view(*matches).flag(id@),
{
    matches.get_flag(id)
}

/// `clap::ArgMatches::get_count`: the counter `id`. `clap` panics where
/// `id` holds no counter.
#[verifier::external_body]
pub(crate) fn matches_get_count(matches: &clap::ArgMatches, id: &str) -> (count: u8)
    requires
        matches_view(*matches).admits_count(id@),
    ensures
        count == matches_view(*matches).count(id@),
{
    matches.get_count(id)
}

/// `clap::ArgMatches::subcommand`: the name and the matches of the selected
/// subcommand.
#[verifier::external_body]
pub(crate) fn matches_subcommand<'a>(matches: &'a clap::ArgMatches) -> (selected: Option<
    (&'a str, &'a clap::ArgMatches),
>)
    ensures
        match selected {
            Some((name, inner)) => matches_view(*matches).subcommand == Some(
                (name@, Box::new(matches_view(*inner))),
            ),
            None => matches_view(*matches).subcommand is None,
        },
{
    matches.subcommand()
}

} // verus!
