//! Compiling command descriptions to `clap` commands.
//!
//! `clap` checks a command when it is first used to parse, and panics on a
//! description that it does not take. The compiler makes the same checks
//! beforehand, on the whole tree, and reports what `clap` would refuse as a
//! [`BuildError`].

use vstd::prelude::*;
use crate::engine::{
    arg_accepted,
    arg_action,
    arg_long,
    arg_new,
    arg_short,
    arg_view,
    command_arg,
    command_arg_required_else_help,
    command_new,
    command_subcommand,
    command_view,
    help_word,
    parser_accepts,
    ActionKind,
    ArgView,
    CommandView,
};
use crate::schema::{
    arg_specs,
    command_specs,
    ArgSpec,
    ClapArg,
    ClapCommand,
    CommandSpec,
    FlagSetting,
};
use crate::text::{first_char, str_eq};

verus! {

/// Why a description cannot be compiled to a parser.
#[derive(Clone, Copy, Debug, PartialEq, Eq, Structural)]
pub enum BuildError {
    /// An argument with an automatic short flag has an empty name.
    EmptyArgumentName,
    /// A short flag is the hyphen.
    InvalidShortFlag,
    /// A long flag starts with a hyphen.
    InvalidLongFlag,
    /// An argument without flags has an action that takes no value.
    PositionalWithoutValue,
    /// Two arguments of a command have the same name, or one is named
    /// `help`.
    DuplicateArgument,
    /// Two arguments of a command have the same short flag, or one has `h`.
    DuplicateShortFlag,
    /// Two arguments of a command have the same long flag, or one has
    /// `help`.
    DuplicateLongFlag,
    /// An argument without flags follows one that appends.
    PositionalAfterAppend,
    /// Two subcommands of a command have the same name, or one is named
    /// `help`.
    DuplicateSubcommand,
}

impl BuildError {
    /// What the error says, in words.
    pub open spec fn message_text(self) -> Seq<char> {
        match self {
            BuildError::EmptyArgumentName =>
                "an argument with an automatic short flag has an empty name"@,
            BuildError::InvalidShortFlag => "a short flag is a hyphen"@,
            BuildError::InvalidLongFlag => "a long flag starts with a hyphen"@,
            BuildError::PositionalWithoutValue =>
                "an argument without flags has an action that takes no value"@,
            BuildError::DuplicateArgument =>
                "two arguments of a command have the same name, or one is named help"@,
            BuildError::DuplicateShortFlag =>
                "two arguments of a command have the same short flag, or one has h"@,
            BuildError::DuplicateLongFlag =>
                "two arguments of a command have the same long flag, or one has help"@,
            BuildError::PositionalAfterAppend =>
                "an argument without flags follows one that appends"@,
            BuildError::DuplicateSubcommand =>
                "two subcommands of a command have the same name, or one is named help"@,
        }
    }

    /// What the error says, in words.
    pub fn message(&self) -> (text: String)
        ensures
            text@ == self.message_text(),
    {
        match self {
            BuildError::EmptyArgumentName =>
                "an argument with an automatic short flag has an empty name".to_owned(),
            BuildError::InvalidShortFlag => "a short flag is a hyphen".to_owned(),
            BuildError::InvalidLongFlag => "a long flag starts with a hyphen".to_owned(),
            BuildError::PositionalWithoutValue =>
                "an argument without flags has an action that takes no value".to_owned(),
            BuildError::DuplicateArgument =>
                "two arguments of a command have the same name, or one is named help".to_owned(),
            BuildError::DuplicateShortFlag =>
                "two arguments of a command have the same short flag, or one has h".to_owned(),
            BuildError::DuplicateLongFlag =>
                "two arguments of a command have the same long flag, or one has help".to_owned(),
            BuildError::PositionalAfterAppend =>
                "an argument without flags follows one that appends".to_owned(),
            BuildError::DuplicateSubcommand =>
                "two subcommands of a command have the same name, or one is named help"
                .to_owned(),
        }
    }
}

impl ArgSpec {
    /// The short flag: the explicit one, or the first character of the
    /// name where it is automatic.
    pub open spec fn short_flag(self) -> Option<char> {
        match self.flag_spec {
            Some((FlagSetting::Explicit(flag), _)) => Some(flag),
            Some((FlagSetting::Automatic, _)) => if self.name.len() > 0 {
                Some(self.name[0])
            } else {
                None
            },
            _ => None,
        }
    }

    /// The long flag: the explicit one, or the name where it is automatic.
    pub open spec fn long_flag(self) -> Option<Seq<char>> {
        match self.flag_spec {
            Some((_, FlagSetting::Explicit(flag))) => Some(flag),
            Some((_, FlagSetting::Automatic)) => Some(self.name),
            _ => None,
        }
    }

    /// The action: the declared one, or to keep one value.
    pub open spec fn effective_action(self) -> ActionKind {
        match self.action {
            Some(action) => action,
            None => ActionKind::SetValue,
        }
    }

    /// Whether the argument is given by position.
    pub open spec fn is_positional(self) -> bool {
        self.short_flag() is None && self.long_flag() is None
    }

    /// The `clap` argument that the description compiles to.
    pub open spec fn compiled(self) -> ArgView {
        ArgView {
            id: self.name,
            action: Some(self.effective_action()),
            short: self.short_flag(),
            long: self.long_flag(),
            other_settings: false,
        }
    }

    /// What is wrong with the argument taken by itself, if anything.
    pub open spec fn local_error(self) -> Option<BuildError> {
        if self.flag_spec matches Some((FlagSetting::Automatic, _)) && self.name.len() == 0 {
            Some(BuildError::EmptyArgumentName)
        } else if self.short_flag() == Some('-') {
            Some(BuildError::InvalidShortFlag)
        } else if self.long_flag() matches Some(long) && long.len() > 0 && long[0] == '-' {
            Some(BuildError::InvalidLongFlag)
        } else if self.is_positional() && !self.compiled().takes_value() {
            Some(BuildError::PositionalWithoutValue)
        } else {
            None
        }
    }
}

/// The `clap` arguments that the descriptions compile to.
pub open spec fn compiled_args(args: Seq<ArgSpec>) -> Seq<ArgView> {
    Seq::new(args.len(), |i: int| args[i].compiled())
}

/// What is wrong with argument `i` next to the arguments before it and to
/// the help argument that `clap` adds, if anything.
pub open spec fn arg_cross_error(args: Seq<ArgSpec>, i: int) -> Option<BuildError> {
    let arg = args[i];
    if arg.name == help_word() || (exists|j: int| 0 <= j < i && (#[trigger] args[j]).name == arg.name) {
        Some(BuildError::DuplicateArgument)
    } else if arg.short_flag() is Some && (arg.short_flag() == Some('h') || (exists|j: int|
        0 <= j < i && (#[trigger] args[j]).short_flag() == arg.short_flag())) {
        Some(BuildError::DuplicateShortFlag)
    } else if arg.long_flag() is Some && (arg.long_flag() == Some(help_word()) || (exists|j: int|
        0 <= j < i && (#[trigger] args[j]).long_flag() == arg.long_flag())) {
        Some(BuildError::DuplicateLongFlag)
    } else if arg.is_positional() && (exists|j: int|
        0 <= j < i && (#[trigger] args[j]).is_positional() && args[j].effective_action()
            == ActionKind::Append) {
        Some(BuildError::PositionalAfterAppend)
    } else {
        None
    }
}

/// What is wrong with argument `i`, if anything.
pub open spec fn arg_error(args: Seq<ArgSpec>, i: int) -> Option<BuildError> {
    match args[i].local_error() {
        Some(error) => Some(error),
        None => arg_cross_error(args, i),
    }
}

/// What is wrong with the first of the first `n` arguments with which
/// anything is wrong.
pub open spec fn args_error(args: Seq<ArgSpec>, n: nat) -> Option<BuildError>
    decreases n,
{
    if n == 0 {
        None
    } else {
        match args_error(args, (n - 1) as nat) {
            Some(error) => Some(error),
            None => arg_error(args, n - 1),
        }
    }
}

/// Whether subcommand `j` bears the name of a subcommand before it or of
/// the help subcommand that `clap` adds.
pub open spec fn subcommand_name_taken(subcommands: Seq<CommandSpec>, j: int) -> bool {
    subcommands[j].name == help_word() || (exists|k: int|
        0 <= k < j && (#[trigger] subcommands[k]).name == subcommands[j].name)
}

impl CommandSpec {
    /// The `clap` command that the description compiles to.
    pub open spec fn compiled(self) -> CommandView
        decreases self,
    {
        CommandView {
            name: self.name,
            args: compiled_args(self.args),
            subcommands: match self.subcommands {
                Some(subcommands) => Seq::new(
                    subcommands.len(),
                    |j: int|
                        if 0 <= j < subcommands.len() {
                            subcommands[j].compiled()
                        } else {
                            arbitrary()
                        },
                ),
                None => Seq::empty(),
            },
            arg_required_else_help: self.help_on_empty(),
            no_binary_name: false,
            other_settings: false,
        }
    }

    /// Whether an empty command line is answered with the help text.
    pub open spec fn help_on_empty(self) -> bool {
        self.settings matches Some(settings) && settings.arg_required_else_help == Some(true)
    }

    /// The subcommands; none where none are declared.
    pub open spec fn subcommand_list(self) -> Seq<CommandSpec> {
        match self.subcommands {
            Some(subcommands) => subcommands,
            None => Seq::empty(),
        }
    }

    /// Why `clap` would not take the description: what is wrong with the
    /// first argument with which anything is wrong, else with the first
    /// subcommand.
    pub open spec fn build_error(self) -> Option<BuildError>
        decreases self, 0nat,
    {
        match args_error(self.args, self.args.len()) {
            Some(error) => Some(error),
            None => match self.subcommands {
                Some(subcommands) => subcommands_error(subcommands, subcommands.len()),
                None => None,
            },
        }
    }
}

/// What is wrong with the first of the first `n` subcommands with which
/// anything is wrong: that its name is taken, or what is wrong inside it.
pub open spec fn subcommands_error(subcommands: Seq<CommandSpec>, n: nat) -> Option<BuildError>
    decreases subcommands, n,
{
    if n == 0 || n > subcommands.len() {
        None
    } else {
        match subcommands_error(subcommands, (n - 1) as nat) {
            Some(error) => Some(error),
            None => if subcommand_name_taken(subcommands, n - 1) {
                Some(BuildError::DuplicateSubcommand)
            } else {
                subcommands[n - 1].build_error()
            },
        }
    }
}

/// The `clap` commands that the descriptions compile to.
pub open spec fn compiled_commands(commands: Seq<CommandSpec>) -> Seq<CommandView> {
    Seq::new(commands.len(), |j: int| commands[j].compiled())
}

/// The literal `"help"` is the word that `clap` reserves.
pub proof fn lemma_help_literal()
    ensures
        "help"@ == help_word(),
{
    reveal_strlit("help");
}

impl CommandSpec {
    /// What a description compiles to is made of what its arguments and
    /// its subcommands compile to.
    pub proof fn lemma_compiled(self)
        ensures
            self.compiled() == (CommandView {
                name: self.name,
                args: compiled_args(self.args),
                subcommands: compiled_commands(self.subcommand_list()),
                arg_required_else_help: self.help_on_empty(),
                no_binary_name: false,
                other_settings: false,
            }),
    {
        let compiled = self.compiled();
        assert(compiled.subcommands =~= compiled_commands(self.subcommand_list()));
    }
}

impl ClapArg {
    /// The short flag of the argument.
    pub fn short_flag(&self) -> (flag: Option<char>)
        ensures
            flag == self@.short_flag(),
    {
        match &self.flag_spec {
            Some((FlagSetting::Explicit(flag), _)) => Some(*flag),
            Some((FlagSetting::Automatic, _)) => first_char(self.arg_name.as_str()),
            _ => None,
        }
    }

    /// The long flag of the argument.
    pub fn long_flag(&self) -> (flag: Option<&str>)
        ensures
            match flag {
                Some(word) => self@.long_flag() == Some(word@),
                None => self@.long_flag() is None,
            },
    {
        match &self.flag_spec {
            Some((_, FlagSetting::Explicit(flag))) => Some(flag.as_str()),
            Some((_, FlagSetting::Automatic)) => Some(self.arg_name.as_str()),
            _ => None,
        }
    }

    /// The action of the argument.
    pub fn effective_action(&self) -> (action: ActionKind)
        ensures
            action == self@.effective_action(),
    {
        match self.action {
            Some(action) => action,
            None => ActionKind::SetValue,
        }
    }

    /// Whether the argument is given by position.
    pub fn is_positional(&self) -> (positional: bool)
        ensures
            positional == self@.is_positional(),
    {
        self.short_flag().is_none() && self.long_flag().is_none()
    }

    /// Checks the argument taken by itself.
    pub fn check(&self) -> (result: Result<(), BuildError>)
        ensures
            match result {
                Ok(_) => self@.local_error() is None,
                Err(error) => self@.local_error() == Some(error),
            },
    {
        let short = self.short_flag();
        let long = self.long_flag();
        let automatic_short = match &self.flag_spec {
            Some((FlagSetting::Automatic, _)) => true,
            _ => false,
        };
        if automatic_short && short.is_none() {
            return Err(BuildError::EmptyArgumentName);
        }
        if short == Some('-') {
            return Err(BuildError::InvalidShortFlag);
        }
        match long {
            Some(word) => {
                if first_char(word) == Some('-') {
                    return Err(BuildError::InvalidLongFlag);
                }
            },
            None => {},
        }
        let action = self.effective_action();
        let takes_value = action == ActionKind::SetValue || action == ActionKind::Append;
        if short.is_none() && long.is_none() && !takes_value {
            return Err(BuildError::PositionalWithoutValue);
        }
        Ok(())
    }

    /// Compiles the argument: its name becomes the identifier, its action
    /// is attached where one is declared, and its flags are attached as
    /// they are set, an automatic short flag being the first character of
    /// the name and an automatic long flag the name.
    pub fn to_clap(&self) -> (result: Result<clap::Arg, BuildError>)
        ensures
            match result {
                Ok(arg) => self@.local_error() is None && arg_view(arg) == self@.compiled(),
                Err(error) => self@.local_error() == Some(error),
            },
    {
        self.check()?;
        let mut arg = arg_new(self.arg_name.as_str());
        match self.action {
            Some(action) => {
                arg = arg_action(arg, action);
            },
            None => {},
        }
        match self.short_flag() {
            Some(flag) => {
                arg = arg_short(arg, flag);
            },
            None => {},
        }
        match self.long_flag() {
            Some(flag) => {
                arg = arg_long(arg, flag);
            },
            None => {},
        }
        Ok(arg)
    }
}

/// Once something is wrong among the first `n` arguments, the same is
/// wrong among the first `m`.
pub proof fn lemma_args_error_stays(args: Seq<ArgSpec>, n: nat, m: nat)
    requires
        n <= m,
        args_error(args, n) is Some,
    ensures
        args_error(args, m) == args_error(args, n),
    decreases m,
{
    if n < m {
        lemma_args_error_stays(args, n, (m - 1) as nat);
    }
}

/// Once something is wrong among the first `n` subcommands, the same is
/// wrong among the first `m`.
pub proof fn lemma_subcommands_error_stays(subcommands: Seq<CommandSpec>, n: nat, m: nat)
    requires
        n <= m <= subcommands.len(),
        subcommands_error(subcommands, n) is Some,
    ensures
        subcommands_error(subcommands, m) == subcommands_error(subcommands, n),
    decreases m,
{
    if n < m {
        lemma_subcommands_error_stays(subcommands, n, (m - 1) as nat);
    }
}

/// Checks argument `i` against the arguments before it and against the
/// help argument that `clap` adds.
pub fn cross_check(args: &Vec<ClapArg>, i: usize) -> (error: Option<BuildError>)
    requires
        i < args.len(),
    ensures
        error == arg_cross_error(arg_specs(args@), i as int),
{
    let ghost specs = arg_specs(args@);
    let arg = &args[i];
    let short = arg.short_flag();
    let long = arg.long_flag();
    let positional = arg.is_positional();
    proof {
        lemma_help_literal();
    }
    let mut name_taken = str_eq(arg.arg_name.as_str(), "help");
    let mut short_taken = short == Some('h');
    let mut long_taken = match long {
        Some(word) => str_eq(word, "help"),
        None => false,
    };
    let mut after_append = false;
    let mut j: usize = 0;
    while j < i
        invariant
            j <= i < args.len(),
            specs == arg_specs(args@),
            specs[i as int] == arg@,
            short == arg@.short_flag(),
            match long {
                Some(word) => arg@.long_flag() == Some(word@),
                None => arg@.long_flag() is None,
            },
            name_taken == (arg@.name == help_word() || (exists|k: int|
                0 <= k < j && (#[trigger] specs[k]).name == arg@.name)),
            short_taken == (short == Some('h') || (exists|k: int|
                0 <= k < j && (#[trigger] specs[k]).short_flag() == short)),
            long_taken == (arg@.long_flag() is Some && (arg@.long_flag() == Some(help_word()) || (
            exists|k: int| 0 <= k < j && (#[trigger] specs[k]).long_flag() == arg@.long_flag()))),
            after_append == (exists|k: int|
                0 <= k < j && (#[trigger] specs[k]).is_positional() && specs[k].effective_action()
                    == ActionKind::Append),
        decreases i - j,
    {
        let other = &args[j];
        assert(specs[j as int] == other@);
        if str_eq(other.arg_name.as_str(), arg.arg_name.as_str()) {
            name_taken = true;
        }
        if other.short_flag() == short {
            short_taken = true;
        }
        match long {
            Some(word) => match other.long_flag() {
                Some(taken) => {
                    if str_eq(taken, word) {
                        long_taken = true;
                    }
                },
                None => {},
            },
            None => {},
        }
        if other.is_positional() && other.effective_action() == ActionKind::Append {
            after_append = true;
        }
        j += 1;
    }
    if name_taken {
        Some(BuildError::DuplicateArgument)
    } else if short.is_some() && short_taken {
        Some(BuildError::DuplicateShortFlag)
    } else if long_taken {
        Some(BuildError::DuplicateLongFlag)
    } else if positional && after_append {
        Some(BuildError::PositionalAfterAppend)
    } else {
        None
    }
}

/// Whether subcommand `j` bears the name of a subcommand before it or of
/// the help subcommand that `clap` adds.
pub fn name_taken(subcommands: &Vec<ClapCommand>, j: usize) -> (taken: bool)
    requires
        j < subcommands.len(),
    ensures
        taken == subcommand_name_taken(command_specs(subcommands@), j as int),
{
    let ghost specs = command_specs(subcommands@);
    let name = subcommands[j].command_name.as_str();
    proof {
        lemma_help_literal();
        subcommands@[j as int].lemma_view();
    }
    let mut taken = str_eq(name, "help");
    let mut k: usize = 0;
    while k < j
        invariant
            k <= j < subcommands.len(),
            specs == command_specs(subcommands@),
            specs[j as int].name == name@,
            taken == (name@ == help_word() || (exists|l: int|
                0 <= l < k && (#[trigger] specs[l]).name == name@)),
        decreases j - k,
    {
        proof {
            subcommands@[k as int].lemma_view();
            assert(specs[k as int] == subcommands@[k as int]@);
        }
        if str_eq(subcommands[k].command_name.as_str(), name) {
            taken = true;
        }
        k += 1;
    }
    taken
}

impl ClapCommand {
    /// Compiles the command and everything below it: the arguments and
    /// the subcommands are attached in declaration order, then the
    /// settings are applied. Nothing is compiled where `clap` would refuse
    /// the description.
    pub fn to_clap(&self) -> (result: Result<clap::Command, BuildError>)
        ensures
            match result {
                Ok(command) => self@.build_error() is None && command_view(command)
                    == self@.compiled(),
                Err(error) => self@.build_error() == Some(error),
            },
        decreases self,
    {
        proof {
            self.lemma_view();
            self@.lemma_compiled();
        }
        let ghost specs = arg_specs(self.args@);
        let mut command = command_new(self.command_name.as_str());
        let mut i: usize = 0;
        assert(compiled_args(specs).take(0) =~= Seq::<ArgView>::empty());
        while i < self.args.len()
            invariant
                i <= self.args.len(),
                specs == arg_specs(self.args@),
                args_error(specs, i as nat) is None,
                command_view(command) == (CommandView {
                    args: compiled_args(specs).take(i as int),
                    ..CommandView::named(self.command_name@)
                }),
            decreases self.args.len() - i,
        {
            let arg = match self.args[i].to_clap() {
                Ok(arg) => arg,
                Err(error) => {
                    proof {
                        lemma_args_error_stays(specs, (i + 1) as nat, specs.len());
                    }
                    return Err(error);
                },
            };
            match cross_check(&self.args, i) {
                Some(error) => {
                    proof {
                        lemma_args_error_stays(specs, (i + 1) as nat, specs.len());
                    }
                    return Err(error);
                },
                None => {},
            }
            command = command_arg(command, arg);
            assert(compiled_args(specs).take(i as int).push(specs[i as int].compiled())
                =~= compiled_args(specs).take(i + 1));
            i += 1;
        }
        assert(compiled_args(specs).take(i as int) =~= compiled_args(specs));
        match &self.subcommands {
            Some(subcommands) => {
                let ghost nested = command_specs(subcommands@);
                let mut j: usize = 0;
                assert(compiled_commands(nested).take(0) =~= Seq::<CommandView>::empty());
                while j < subcommands.len()
                    invariant
                        j <= subcommands.len(),
                        self.subcommands == Some(*subcommands),
                        self@.args == specs,
                        self@.subcommands == Some(nested),
                        args_error(specs, specs.len()) is None,
                        nested == command_specs(subcommands@),
                        subcommands_error(nested, j as nat) is None,
                        command_view(command) == (CommandView {
                            args: compiled_args(specs),
                            subcommands: compiled_commands(nested).take(j as int),
                            ..CommandView::named(self.command_name@)
                        }),
                    decreases subcommands.len() - j,
                {
                    if name_taken(subcommands, j) {
                        proof {
                            lemma_subcommands_error_stays(nested, (j + 1) as nat, nested.len());
                        }
                        return Err(BuildError::DuplicateSubcommand);
                    }
                    let subcommand = match subcommands[j].to_clap() {
                        Ok(subcommand) => subcommand,
                        Err(error) => {
                            proof {
                                lemma_subcommands_error_stays(
                                    nested,
                                    (j + 1) as nat,
                                    nested.len(),
                                );
                            }
                            return Err(error);
                        },
                    };
                    command = command_subcommand(command, subcommand);
                    assert(compiled_commands(nested).take(j as int).push(
                        nested[j as int].compiled(),
                    ) =~= compiled_commands(nested).take(j + 1));
                    j += 1;
                }
                assert(compiled_commands(nested).take(j as int) =~= compiled_commands(nested));
            },
            None => {
            },
        }
        match self.settings {
            Some(settings) => match settings.arg_required_else_help {
                Some(value) => {
                    command = command_arg_required_else_help(command, value);
                },
                None => {},
            },
            None => {},
        }
        Ok(command)
    }
}

/// Where nothing is wrong among the first `n` arguments, nothing is wrong
/// with any of them.
pub proof fn lemma_args_error_none(args: Seq<ArgSpec>, n: nat)
    requires
        args_error(args, n) is None,
    ensures
        forall|i: int| 0 <= i < n ==> arg_error(args, i) is None,
    decreases n,
{
    if n > 0 {
        lemma_args_error_none(args, (n - 1) as nat);
    }
}

/// Where nothing is wrong among the first `n` subcommands, none of them
/// bears a name that is taken, and nothing is wrong inside any of them.
pub proof fn lemma_subcommands_error_none(subcommands: Seq<CommandSpec>, n: nat)
    requires
        n <= subcommands.len(),
        subcommands_error(subcommands, n) is None,
    ensures
        forall|j: int|
            0 <= j < n ==> !subcommand_name_taken(subcommands, j) && (
            #[trigger] subcommands[j]).build_error() is None,
    decreases n,
{
    if n > 0 {
        lemma_subcommands_error_none(subcommands, (n - 1) as nat);
    }
}

/// A description in which nothing is wrong compiles to a command that
/// `clap` takes as a parser.
pub proof fn lemma_buildable_is_accepted(spec: CommandSpec)
    requires
        spec.build_error() is None,
    ensures
        parser_accepts(spec.compiled()),
    decreases spec,
{
    let command = spec.compiled();
    let args = spec.args;
    spec.lemma_compiled();
    lemma_args_error_none(args, args.len());
    assert forall|i: int| 0 <= i < command.args.len() implies arg_accepted(
        #[trigger] command.args[i],
    ) && command.args[i].id != help_word() && command.args[i].short != Some('h')
        && command.args[i].long != Some(help_word()) by {
        assert(arg_error(args, i) is None);
    }
    assert forall|i: int, j: int| 0 <= i < j < command.args.len() implies {
        &&& (#[trigger] command.args[i]).id != (#[trigger] command.args[j]).id
        &&& command.args[i].short is Some ==> command.args[i].short != command.args[j].short
        &&& command.args[i].long is Some ==> command.args[i].long != command.args[j].long
        &&& command.args[i].is_positional() && command.args[j].is_positional()
            ==> command.args[i].action != Some(ActionKind::Append)
    } by {
        assert(arg_error(args, j) is None);
    }
    match spec.subcommands {
        Some(nested) => {
            lemma_subcommands_error_none(nested, nested.len());
            assert forall|j: int| 0 <= j < command.subcommands.len() implies (
            #[trigger] command.subcommands[j]).name != help_word() && parser_accepts(
                command.subcommands[j],
            ) by {
                lemma_buildable_is_accepted(nested[j]);
            }
            assert forall|i: int, j: int| 0 <= i < j < command.subcommands.len() implies (
            #[trigger] command.subcommands[i]).name != (#[trigger] command.subcommands[j]).name by {}
        },
        None => {},
    }
}

/// An automatic short flag is the first character of the name of the
/// argument, and an explicit short flag stands whatever the name is.
pub proof fn law_short_flag(arg: ArgSpec)
    ensures
        arg.flag_spec matches Some((FlagSetting::Automatic, _)) && arg.name.len() > 0
            ==> arg.compiled().short == Some(arg.name[0]),
        arg.flag_spec matches Some((FlagSetting::Explicit(flag), _)) ==> arg.compiled().short
            == Some(flag),
        arg.flag_spec matches Some((FlagSetting::Disabled, _)) ==> arg.compiled().short is None,
        arg.flag_spec is None ==> arg.compiled().short is None,
{
}

/// An automatic long flag is the name of the argument, and an explicit
/// long flag stands whatever the name is.
pub proof fn law_long_flag(arg: ArgSpec)
    ensures
        arg.flag_spec matches Some((_, FlagSetting::Automatic)) ==> arg.compiled().long == Some(
            arg.name,
        ),
        arg.flag_spec matches Some((_, FlagSetting::Explicit(flag))) ==> arg.compiled().long
            == Some(flag),
        arg.flag_spec matches Some((_, FlagSetting::Disabled)) ==> arg.compiled().long is None,
        arg.flag_spec is None ==> arg.compiled().long is None,
{
}

/// Where something is wrong among the first `n` arguments, it is wrong
/// with one of them.
pub proof fn lemma_args_error_source(args: Seq<ArgSpec>, n: nat) -> (i: int)
    requires
        args_error(args, n) is Some,
    ensures
        0 <= i < n,
        arg_error(args, i) == args_error(args, n),
    decreases n,
{
    if args_error(args, (n - 1) as nat) is Some {
        lemma_args_error_source(args, (n - 1) as nat)
    } else {
        n - 1
    }
}

/// Where something is wrong among the first `n` subcommands, the name of
/// one of them is taken or something is wrong inside it.
pub proof fn lemma_subcommands_error_source(subcommands: Seq<CommandSpec>, n: nat) -> (j: int)
    requires
        n <= subcommands.len(),
        subcommands_error(subcommands, n) is Some,
    ensures
        0 <= j < n,
        subcommands_error(subcommands, n) == (if subcommand_name_taken(subcommands, j) {
            Some(BuildError::DuplicateSubcommand)
        } else {
            subcommands[j].build_error()
        }),
    decreases n,
{
    if subcommands_error(subcommands, (n - 1) as nat) is Some {
        lemma_subcommands_error_source(subcommands, (n - 1) as nat)
    } else {
        n - 1
    }
}

/// A description is refused only where `clap` would not take what it
/// compiles to, or where an automatic short flag has no name to come
/// from.
pub proof fn law_refused_is_not_accepted(spec: CommandSpec)
    requires
        spec.build_error() is Some,
        spec.build_error() != Some(BuildError::EmptyArgumentName),
    ensures
        !parser_accepts(spec.compiled()),
    decreases spec,
{
    let command = spec.compiled();
    let args = spec.args;
    spec.lemma_compiled();
    if args_error(args, args.len()) is Some {
        let i = lemma_args_error_source(args, args.len());
        let arg = args[i];
        if arg.local_error() is Some {
            assert(!arg_accepted(command.args[i]));
        } else {
            let error = arg_cross_error(args, i);
            if error == Some(BuildError::DuplicateArgument) {
                if arg.name != help_word() {
                    let j = choose|j: int| 0 <= j < i && (#[trigger] args[j]).name == arg.name;
                    assert(command.args[j] == args[j].compiled());
                }
            } else if error == Some(BuildError::DuplicateShortFlag) {
                if arg.short_flag() != Some('h') {
                    let j = choose|j: int|
                        0 <= j < i && (#[trigger] args[j]).short_flag() == arg.short_flag();
                    assert(command.args[j] == args[j].compiled());
                }
            } else if error == Some(BuildError::DuplicateLongFlag) {
                if arg.long_flag() != Some(help_word()) {
                    let j = choose|j: int|
                        0 <= j < i && (#[trigger] args[j]).long_flag() == arg.long_flag();
                    assert(command.args[j] == args[j].compiled());
                }
            } else {
                let j = choose|j: int|
                    0 <= j < i && (#[trigger] args[j]).is_positional() && args[j].effective_action()
                        == ActionKind::Append;
                assert(command.args[j] == args[j].compiled());
            }
        }
    } else {
        let nested = spec.subcommands->0;
        let j = lemma_subcommands_error_source(nested, nested.len());
        assert(command.subcommands[j] == nested[j].compiled());
        if subcommand_name_taken(nested, j) {
            if nested[j].name != help_word() {
                let k = choose|k: int| 0 <= k < j && (#[trigger] nested[k]).name == nested[j].name;
                assert(command.subcommands[k] == nested[k].compiled());
            }
        } else {
            law_refused_is_not_accepted(nested[j]);
        }
    }
}

/// In a description in which nothing is wrong, no two arguments of a
/// command bear the same name and no two subcommands of a command do.
pub proof fn law_names_are_unique(spec: CommandSpec)
    requires
        spec.build_error() is None,
    ensures
        forall|i: int, j: int|
            0 <= i < j < spec.args.len() ==> (#[trigger] spec.args[i]).name != (
            #[trigger] spec.args[j]).name,
        forall|i: int, j: int|
            0 <= i < j < spec.subcommand_list().len() ==> (#[trigger] spec.subcommand_list()[i]).name
                != (#[trigger] spec.subcommand_list()[j]).name,
{
    lemma_args_error_none(spec.args, spec.args.len());
    assert forall|i: int, j: int| 0 <= i < j < spec.args.len() implies (
    #[trigger] spec.args[i]).name != (#[trigger] spec.args[j]).name by {
        assert(arg_error(spec.args, j) is None);
    }
    match spec.subcommands {
        Some(nested) => {
            lemma_subcommands_error_none(nested, nested.len());
            assert forall|i: int, j: int| 0 <= i < j < nested.len() implies (
            #[trigger] nested[i]).name != (#[trigger] nested[j]).name by {}
        },
        None => {},
    }
}

} // verus!
