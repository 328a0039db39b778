//! Command descriptions: what a caller says about a command and its
//! arguments before any parser exists.

use vstd::prelude::*;
use crate::engine::ActionKind;

verus! {

/// How one flag form of an argument is chosen.
#[derive(Clone, Debug, PartialEq, Eq)]
pub enum FlagSetting<T> {
    /// The flag is the given value.
    Explicit(T),
    /// The argument has no flag of this form.
    Disabled,
    /// The flag is derived from the name of the argument.
    Automatic,
}

/// Settings of a command.
#[derive(Clone, Copy, Debug, PartialEq, Eq, Structural)]
pub struct ClapCommandSettings {
    /// Whether an empty command line is answered with the help text.
    pub arg_required_else_help: Option<bool>,
}

/// The description of one argument.
#[derive(Clone, Debug, PartialEq, Eq)]
pub struct ClapArg {
    /// The name, which is also the identifier of the argument.
    pub arg_name: String,
    /// What the argument does with its occurrences; by default it keeps
    /// one value.
    pub action: Option<ActionKind>,
    /// The short and the long flag; an argument without any is given by
    /// position.
    pub flag_spec: Option<(FlagSetting<char>, FlagSetting<String>)>,
}

/// The description of a command.
#[derive(Debug, PartialEq, Eq)]
pub struct ClapCommand {
    /// The name.
    pub command_name: String,
    /// The arguments, in declaration order.
    pub args: Vec<ClapArg>,
    /// The subcommands, in declaration order.
    pub subcommands: Option<Vec<ClapCommand>>,
    /// The settings.
    pub settings: Option<ClapCommandSettings>,
}

/// The mathematical value of a [`ClapArg`].
pub struct ArgSpec {
    /// The name.
    pub name: Seq<char>,
    /// The action.
    pub action: Option<ActionKind>,
    /// The short and the long flag.
    pub flag_spec: Option<(FlagSetting<char>, FlagSetting<Seq<char>>)>,
}

/// The mathematical value of a [`ClapCommand`].
pub struct CommandSpec {
    /// The name.
    pub name: Seq<char>,
    /// The arguments, in declaration order.
    pub args: Seq<ArgSpec>,
    /// The subcommands, in declaration order.
    pub subcommands: Option<Seq<CommandSpec>>,
    /// The settings.
    pub settings: Option<ClapCommandSettings>,
}

/// The value of a long flag setting.
pub open spec fn long_setting_view(setting: FlagSetting<String>) -> FlagSetting<Seq<char>> {
    match setting {
        FlagSetting::Explicit(word) => FlagSetting::Explicit(word@),
        FlagSetting::Disabled => FlagSetting::Disabled,
        FlagSetting::Automatic => FlagSetting::Automatic,
    }
}

impl View for ClapArg {
    type V = ArgSpec;

    open spec fn view(&self) -> ArgSpec {
        ArgSpec {
            name: self.arg_name@,
            action: self.action,
            flag_spec: match self.flag_spec {
                Some((short, long)) => Some((short, long_setting_view(long))),
                None => None,
            },
        }
    }
}

/// The values of a list of arguments.
pub open spec fn arg_specs(args: Seq<ClapArg>) -> Seq<ArgSpec> {
    Seq::new(args.len(), |i: int| args[i]@)
}

/// The values of a list of commands.
pub open spec fn command_specs(commands: Seq<ClapCommand>) -> Seq<CommandSpec> {
    Seq::new(commands.len(), |i: int| commands[i]@)
}

impl ClapCommand {
    /// The mathematical value of the description.
    pub open spec fn model(self) -> CommandSpec
        decreases self,
    {
        CommandSpec {
            name: self.command_name@,
            args: arg_specs(self.args@),
            subcommands: match self.subcommands {
                Some(subcommands) => Some(
                    Seq::new(
                        subcommands@.len(),
                        |i: int|
                            if 0 <= i < subcommands@.len() {
                                subcommands@[i].model()
                            } else {
                                arbitrary()
                            },
                    ),
                ),
                None => None,
            },
            settings: self.settings,
        }
    }
}

impl ClapCommand {
    /// The value of a description is made of the values of its arguments
    /// and of its subcommands.
    pub proof fn lemma_view(self)
        ensures
            self@ == (CommandSpec {
                name: self.command_name@,
                args: arg_specs(self.args@),
                subcommands: match self.subcommands {
                    Some(subcommands) => Some(command_specs(subcommands@)),
                    None => None,
                },
                settings: self.settings,
            }),
    {
        let value = self.model();
        match self.subcommands {
            Some(subcommands) => {
                assert(value.subcommands->0 =~= command_specs(subcommands@));
            },
            None => {},
        }
    }
}

impl View for ClapCommand {
    type V = CommandSpec;

    open spec fn view(&self) -> CommandSpec {
        self.model()
    }
}

} // verus!
