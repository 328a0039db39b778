//! Decoding command descriptions from expressions.
//!
//! A command is written `ClapCommand[name, {args...}]`, optionally followed
//! by a list of subcommands and by an association of settings. An argument
//! is written `ClapArg[name]`, optionally followed by the name of an action
//! and by a list of flag rules.

use vstd::prelude::*;
use crate::engine::ActionKind;
use crate::expr::{expr_views, Expr, ExprView, Normal, ASSOCIATION, AUTOMATIC, LIST, RULE};
use crate::schema::{
    arg_specs,
    command_specs,
    long_setting_view,
    ArgSpec,
    ClapArg,
    ClapCommand,
    ClapCommandSettings,
    CommandSpec,
    FlagSetting,
};
use crate::text::{single_char, str_eq};

verus! {

/// The full name of the symbol that heads a command.
pub const COMMAND_HEAD: &'static str = "ConnorGray`ClapLink`ClapCommand";

/// The full name of the symbol that heads an argument.
pub const ARG_HEAD: &'static str = "ConnorGray`ClapLink`ClapArg";

/// How many commands may be nested in one another, the outermost counted.
pub const MAX_NESTING_DEPTH: usize = 64;

/// Why an expression is no command description.
#[derive(Clone, Copy, Debug, PartialEq, Eq, Structural)]
pub enum DecodeError {
    /// An expression with a head and elements was expected.
    ExpectedNormal,
    /// The expression has another head than the expected one.
    UnexpectedHead,
    /// A command has fewer than two or more than four elements, an argument
    /// none or more than three, or a rule not two.
    WrongArity,
    /// A string was expected.
    ExpectedString,
    /// One of the two symbols for truth values was expected.
    ExpectedBoolean,
    /// The action is none of the known actions.
    UnrecognizedAction,
    /// The key of a flag rule is neither `"Short"` nor `"Long"`.
    UnrecognizedFlagKey,
    /// The value of a flag rule is neither a string nor `Automatic`.
    InvalidFlagValue,
    /// A short flag is not exactly one character.
    InvalidShortFlag,
    /// The name of a setting is not known.
    UnrecognizedSetting,
    /// Commands are nested deeper than [`MAX_NESTING_DEPTH`].
    NestingTooDeep,
}

impl DecodeError {
    /// What the error says, in words.
    pub open spec fn message_text(self) -> Seq<char> {
        match self {
            DecodeError::ExpectedNormal => "expected an expression with a head and elements"@,
            DecodeError::UnexpectedHead => "the expression has another head than expected"@,
            DecodeError::WrongArity => "the expression has the wrong number of elements"@,
            DecodeError::ExpectedString => "expected a string"@,
            DecodeError::ExpectedBoolean => "expected True or False"@,
            DecodeError::UnrecognizedAction =>
                "the action is none of Set, Append, SetTrue, SetFalse and Count"@,
            DecodeError::UnrecognizedFlagKey => "the key of a flag rule is neither Short nor Long"@,
            DecodeError::InvalidFlagValue =>
                "the value of a flag rule is neither a string nor Automatic"@,
            DecodeError::InvalidShortFlag => "a short flag is exactly one character"@,
            DecodeError::UnrecognizedSetting => "the setting is not known"@,
            DecodeError::NestingTooDeep => "commands are nested too deep"@,
        }
    }

    /// What the error says, in words.
    pub fn message(&self) -> (text: String)
        ensures
            text@ == self.message_text(),
    {
        match self {
            DecodeError::ExpectedNormal => "expected an expression with a head and elements"
                .to_owned(),
            DecodeError::UnexpectedHead => "the expression has another head than expected"
                .to_owned(),
            DecodeError::WrongArity => "the expression has the wrong number of elements"
                .to_owned(),
            DecodeError::ExpectedString => "expected a string".to_owned(),
            DecodeError::ExpectedBoolean => "expected True or False".to_owned(),
            DecodeError::UnrecognizedAction =>
                "the action is none of Set, Append, SetTrue, SetFalse and Count".to_owned(),
            DecodeError::UnrecognizedFlagKey => "the key of a flag rule is neither Short nor Long"
                .to_owned(),
            DecodeError::InvalidFlagValue =>
                "the value of a flag rule is neither a string nor Automatic".to_owned(),
            DecodeError::InvalidShortFlag => "a short flag is exactly one character".to_owned(),
            DecodeError::UnrecognizedSetting => "the setting is not known".to_owned(),
            DecodeError::NestingTooDeep => "commands are nested too deep".to_owned(),
        }
    }
}

/// One flag rule: which flag form it sets, and to what.
#[derive(Clone, Debug, PartialEq, Eq)]
pub enum FlagRule<T> {
    /// The short flag.
    Short(FlagSetting<char>),
    /// The long flag.
    Long(FlagSetting<T>),
}

/// The value of a flag rule.
pub open spec fn flag_rule_view(rule: FlagRule<String>) -> FlagRule<Seq<char>> {
    match rule {
        FlagRule::Short(setting) => FlagRule::Short(setting),
        FlagRule::Long(setting) => FlagRule::Long(long_setting_view(setting)),
    }
}

/// The elements of `expr`, where its head is the symbol `head`.
pub open spec fn normal_with_head(expr: ExprView, head: Seq<char>) -> Result<
    Seq<ExprView>,
    DecodeError,
> {
    match expr {
        ExprView::Normal(found, elements) => if *found == ExprView::Symbol(head) {
            Ok(elements)
        } else {
            Err(DecodeError::UnexpectedHead)
        },
        _ => Err(DecodeError::ExpectedNormal),
    }
}

/// The elements of `expr`, where its head is the symbol `head` and it has
/// exactly `n` elements.
pub open spec fn normal_array_with_head(expr: ExprView, head: Seq<char>, n: nat) -> Result<
    Seq<ExprView>,
    DecodeError,
> {
    match normal_with_head(expr, head) {
        Ok(elements) => if elements.len() == n {
            Ok(elements)
        } else {
            Err(DecodeError::WrongArity)
        },
        Err(error) => Err(error),
    }
}

/// The action that the string `expr` names.
pub open spec fn decode_action(expr: ExprView) -> Result<ActionKind, DecodeError> {
    match expr {
        ExprView::String(name) => if name == "Set"@ {
            Ok(ActionKind::SetValue)
        } else if name == "Append"@ {
            Ok(ActionKind::Append)
        } else if name == "SetTrue"@ {
            Ok(ActionKind::SetTrue)
        } else if name == "SetFalse"@ {
            Ok(ActionKind::SetFalse)
        } else if name == "Count"@ {
            Ok(ActionKind::Count)
        } else {
            Err(DecodeError::UnrecognizedAction)
        },
        _ => Err(DecodeError::ExpectedString),
    }
}

/// The setting that the right-hand side of a flag rule stands for.
pub open spec fn decode_flag_value(expr: ExprView) -> Result<FlagSetting<Seq<char>>, DecodeError> {
    if expr == ExprView::Symbol(AUTOMATIC@) {
        Ok(FlagSetting::Automatic)
    } else {
        match expr {
            ExprView::String(text) => Ok(FlagSetting::Explicit(text)),
            _ => Err(DecodeError::InvalidFlagValue),
        }
    }
}

/// The short flag setting that `value` gives: an explicit short flag is
/// exactly one character.
pub open spec fn short_setting(value: FlagSetting<Seq<char>>) -> Result<
    FlagSetting<char>,
    DecodeError,
> {
    match value {
        FlagSetting::Explicit(text) => if text.len() == 1 {
            Ok(FlagSetting::Explicit(text[0]))
        } else {
            Err(DecodeError::InvalidShortFlag)
        },
        FlagSetting::Disabled => Ok(FlagSetting::Disabled),
        FlagSetting::Automatic => Ok(FlagSetting::Automatic),
    }
}

/// What one element of a flag list says: `"Short" -> value`,
/// `"Long" -> value`, or the bare string `"Long"`, which is short for
/// `"Long" -> Automatic`.
pub open spec fn decode_flag_rule(expr: ExprView) -> Result<FlagRule<Seq<char>>, DecodeError> {
    if expr == ExprView::String("Long"@) {
        Ok(FlagRule::Long(FlagSetting::Automatic))
    } else {
        match normal_array_with_head(expr, RULE@, 2) {
            Err(error) => Err(error),
            Ok(sides) => match decode_flag_value(sides[1]) {
                Err(error) => Err(error),
                Ok(value) => if sides[0] == ExprView::String("Short"@) {
                    match short_setting(value) {
                        Ok(setting) => Ok(FlagRule::Short(setting)),
                        Err(error) => Err(error),
                    }
                } else if sides[0] == ExprView::String("Long"@) {
                    Ok(FlagRule::Long(value))
                } else {
                    Err(DecodeError::UnrecognizedFlagKey)
                },
            },
        }
    }
}

/// The flags after the first `n` of `rules`: each rule replaces what an
/// earlier rule said of the same flag form, and a form that no rule
/// mentions is disabled.
pub open spec fn decode_flag_rules(rules: Seq<ExprView>, n: nat) -> Result<
    (FlagSetting<char>, FlagSetting<Seq<char>>),
    DecodeError,
>
    decreases n,
{
    if n == 0 {
        Ok((FlagSetting::Disabled, FlagSetting::Disabled))
    } else {
        match decode_flag_rules(rules, (n - 1) as nat) {
            Err(error) => Err(error),
            Ok(flags) => match decode_flag_rule(rules[n - 1]) {
                Err(error) => Err(error),
                Ok(FlagRule::Short(setting)) => Ok((setting, flags.1)),
                Ok(FlagRule::Long(setting)) => Ok((flags.0, setting)),
            },
        }
    }
}

/// The flags that the list `expr` describes.
pub open spec fn decode_flag_spec(expr: ExprView) -> Result<
    (FlagSetting<char>, FlagSetting<Seq<char>>),
    DecodeError,
> {
    match normal_with_head(expr, LIST@) {
        Err(error) => Err(error),
        Ok(rules) => decode_flag_rules(rules, rules.len()),
    }
}

/// The action of an argument with the given elements.
pub open spec fn decode_arg_action(elements: Seq<ExprView>) -> Result<
    Option<ActionKind>,
    DecodeError,
> {
    if elements.len() >= 2 {
        match decode_action(elements[1]) {
            Ok(action) => Ok(Some(action)),
            Err(error) => Err(error),
        }
    } else {
        Ok(None)
    }
}

/// The flags of an argument with the given elements.
pub open spec fn decode_arg_flags(elements: Seq<ExprView>) -> Result<
    Option<(FlagSetting<char>, FlagSetting<Seq<char>>)>,
    DecodeError,
> {
    if elements.len() >= 3 {
        match decode_flag_spec(elements[2]) {
            Ok(flags) => Ok(Some(flags)),
            Err(error) => Err(error),
        }
    } else {
        Ok(None)
    }
}

/// The argument that `expr` describes, or the first reason why it
/// describes none.
pub open spec fn decode_arg(expr: ExprView) -> Result<ArgSpec, DecodeError> {
    match normal_with_head(expr, ARG_HEAD@) {
        Err(error) => Err(error),
        Ok(elements) => if elements.len() < 1 || elements.len() > 3 {
            Err(DecodeError::WrongArity)
        } else {
            match elements[0] {
                ExprView::String(name) => match decode_arg_action(elements) {
                    Err(error) => Err(error),
                    Ok(action) => match decode_arg_flags(elements) {
                        Err(error) => Err(error),
                        Ok(flag_spec) => Ok(ArgSpec { name, action, flag_spec }),
                    },
                },
                _ => Err(DecodeError::ExpectedString),
            }
        },
    }
}

/// The arguments that the first `n` of `nodes` describe, or the first
/// reason why one of them describes none.
pub open spec fn decode_args(nodes: Seq<ExprView>, n: nat) -> Result<Seq<ArgSpec>, DecodeError>
    decreases n,
{
    if n == 0 {
        Ok(Seq::empty())
    } else {
        match decode_args(nodes, (n - 1) as nat) {
            Err(error) => Err(error),
            Ok(args) => match decode_arg(nodes[n - 1]) {
                Err(error) => Err(error),
                Ok(arg) => Ok(args.push(arg)),
            },
        }
    }
}

/// What one rule of a settings association gives for the setting
/// `"ArgRequiredElseHelp"`, the only one there is.
pub open spec fn decode_setting_rule(expr: ExprView) -> Result<bool, DecodeError> {
    match normal_array_with_head(expr, RULE@, 2) {
        Err(error) => Err(error),
        Ok(sides) => if sides[0] == ExprView::String("ArgRequiredElseHelp"@) {
            match sides[1].as_bool() {
                Some(value) => Ok(value),
                None => Err(DecodeError::ExpectedBoolean),
            }
        } else {
            Err(DecodeError::UnrecognizedSetting)
        },
    }
}

/// The settings after the first `n` of `rules`: a later rule replaces
/// what an earlier one said.
pub open spec fn decode_setting_rules(rules: Seq<ExprView>, n: nat) -> Result<
    ClapCommandSettings,
    DecodeError,
>
    decreases n,
{
    if n == 0 {
        Ok(ClapCommandSettings { arg_required_else_help: None })
    } else {
        match decode_setting_rules(rules, (n - 1) as nat) {
            Err(error) => Err(error),
            Ok(settings) => match decode_setting_rule(rules[n - 1]) {
                Err(error) => Err(error),
                Ok(value) => Ok(ClapCommandSettings { arg_required_else_help: Some(value) }),
            },
        }
    }
}

/// The settings that the association `expr` describes.
pub open spec fn decode_settings(expr: ExprView) -> Result<ClapCommandSettings, DecodeError> {
    match normal_with_head(expr, ASSOCIATION@) {
        Err(error) => Err(error),
        Ok(rules) => decode_setting_rules(rules, rules.len()),
    }
}

/// The settings of a command with the given elements.
pub open spec fn decode_command_settings(elements: Seq<ExprView>) -> Result<
    Option<ClapCommandSettings>,
    DecodeError,
> {
    if elements.len() >= 4 {
        match decode_settings(elements[3]) {
            Ok(settings) => Ok(Some(settings)),
            Err(error) => Err(error),
        }
    } else {
        Ok(None)
    }
}

/// The arguments of a command with the given elements.
pub open spec fn decode_command_args(elements: Seq<ExprView>) -> Result<
    Seq<ArgSpec>,
    DecodeError,
> {
    match normal_with_head(elements[1], LIST@) {
        Err(error) => Err(error),
        Ok(nodes) => decode_args(nodes, nodes.len()),
    }
}

/// The command that `expr` describes, or the first reason why it describes
/// none, where `budget` commands may still be nested in one another.
pub open spec fn decode_command(expr: ExprView, budget: nat) -> Result<CommandSpec, DecodeError>
    decreases budget, 0nat,
{
    if budget == 0 {
        Err(DecodeError::NestingTooDeep)
    } else {
        match normal_with_head(expr, COMMAND_HEAD@) {
            Err(error) => Err(error),
            Ok(elements) => if elements.len() < 2 || elements.len() > 4 {
                Err(DecodeError::WrongArity)
            } else {
                match elements[0] {
                    ExprView::String(name) => match decode_command_args(elements) {
                        Err(error) => Err(error),
                        Ok(args) => {
                            let nested = if elements.len() >= 3 {
                                match normal_with_head(elements[2], LIST@) {
                                    Err(error) => Err(error),
                                    Ok(nodes) => match decode_commands(
                                        nodes,
                                        nodes.len(),
                                        (budget - 1) as nat,
                                    ) {
                                        Ok(commands) => Ok(Some(commands)),
                                        Err(error) => Err(error),
                                    },
                                }
                            } else {
                                Ok(None)
                            };
                            match nested {
                                Err(error) => Err(error),
                                Ok(subcommands) => match decode_command_settings(elements) {
                                    Err(error) => Err(error),
                                    Ok(settings) => Ok(
                                        CommandSpec { name, args, subcommands, settings },
                                    ),
                                },
                            }
                        },
                    },
                    _ => Err(DecodeError::ExpectedString),
                }
            },
        }
    }
}

/// The commands that the first `n` of `nodes` describe, or the first
/// reason why one of them describes none.
pub open spec fn decode_commands(nodes: Seq<ExprView>, n: nat, budget: nat) -> Result<
    Seq<CommandSpec>,
    DecodeError,
>
    decreases budget, n + 1,
{
    if n == 0 {
        Ok(Seq::empty())
    } else {
        match decode_commands(nodes, (n - 1) as nat, budget) {
            Err(error) => Err(error),
            Ok(commands) => match decode_command(nodes[n - 1], budget) {
                Err(error) => Err(error),
                Ok(command) => Ok(commands.push(command)),
            },
        }
    }
}

/// The head and the elements of `expr`.
pub fn try_normal(expr: &Expr) -> (result: Result<&Normal, DecodeError>)
    ensures
        match result {
            Ok(normal) => expr@ == ExprView::Normal(
                Box::new(normal.head@),
                expr_views(normal.elements@),
            ),
            Err(error) => error == DecodeError::ExpectedNormal && !(expr@ is Normal),
        },
{
    match expr.try_as_normal() {
        Some(normal) => Ok(normal),
        None => Err(DecodeError::ExpectedNormal),
    }
}

/// The elements of `expr`, where its head is the symbol `expected_head`.
pub fn try_normal_with_head<'e>(expr: &'e Expr, expected_head: &str) -> (result: Result<
    &'e Vec<Expr>,
    DecodeError,
>)
    ensures
        match result {
            Ok(elements) => normal_with_head(expr@, expected_head@) == Ok::<
                Seq<ExprView>,
                DecodeError,
            >(expr_views(elements@)),
            Err(error) => normal_with_head(expr@, expected_head@) == Err::<
                Seq<ExprView>,
                DecodeError,
            >(error),
        },
{
    let normal = try_normal(expr)?;
    if normal.has_head(expected_head) {
        Ok(normal.elements())
    } else {
        Err(DecodeError::UnexpectedHead)
    }
}

/// The elements of `expr`, where its head is the symbol `expected_head`
/// and it has exactly `N` elements.
pub fn try_normal_array_with_head<'e, const N: usize>(
    expr: &'e Expr,
    expected_head: &str,
) -> (result: Result<&'e Vec<Expr>, DecodeError>)
    ensures
        match result {
            Ok(elements) => elements@.len() == N && normal_array_with_head(
                expr@,
                expected_head@,
                N as nat,
            ) == Ok::<Seq<ExprView>, DecodeError>(expr_views(elements@)),
            Err(error) => normal_array_with_head(expr@, expected_head@, N as nat) == Err::<
                Seq<ExprView>,
                DecodeError,
            >(error),
        },
{
    let elements = try_normal_with_head(expr, expected_head)?;
    if elements.len() == N {
        Ok(elements)
    } else {
        Err(DecodeError::WrongArity)
    }
}

/// Decodes the name of an action.
pub fn action_from_expr(expr: &Expr) -> (result: Result<ActionKind, DecodeError>)
    ensures
        result == decode_action(expr@),
{
    match expr.try_as_str() {
        Some(name) => {
            if str_eq(name, "Set") {
                Ok(ActionKind::SetValue)
            } else if str_eq(name, "Append") {
                Ok(ActionKind::Append)
            } else if str_eq(name, "SetTrue") {
                Ok(ActionKind::SetTrue)
            } else if str_eq(name, "SetFalse") {
                Ok(ActionKind::SetFalse)
            } else if str_eq(name, "Count") {
                Ok(ActionKind::Count)
            } else {
                Err(DecodeError::UnrecognizedAction)
            }
        },
        None => Err(DecodeError::ExpectedString),
    }
}

/// Decodes the right-hand side of a flag rule.
pub fn flag_value_from_expr(expr: &Expr) -> (result: Result<FlagSetting<String>, DecodeError>)
    ensures
        match result {
            Ok(value) => decode_flag_value(expr@) == Ok::<FlagSetting<Seq<char>>, DecodeError>(
                long_setting_view(value),
            ),
            Err(error) => decode_flag_value(expr@) == Err::<FlagSetting<Seq<char>>, DecodeError>(
                error,
            ),
        },
{
    if expr.is_symbol(AUTOMATIC) {
        Ok(FlagSetting::Automatic)
    } else {
        match expr.try_as_str() {
            Some(text) => Ok(FlagSetting::Explicit(text.to_owned())),
            None => Err(DecodeError::InvalidFlagValue),
        }
    }
}

/// Turns the value of a `"Short"` rule into a short flag setting.
pub fn short_setting_from(value: &FlagSetting<String>) -> (result: Result<
    FlagSetting<char>,
    DecodeError,
>)
    ensures
        result == short_setting(long_setting_view(*value)),
{
    match value {
        FlagSetting::Explicit(text) => match single_char(text.as_str()) {
            Some(flag) => Ok(FlagSetting::Explicit(flag)),
            None => Err(DecodeError::InvalidShortFlag),
        },
        FlagSetting::Disabled => Ok(FlagSetting::Disabled),
        FlagSetting::Automatic => Ok(FlagSetting::Automatic),
    }
}

/// Whether `expr` is the string `text`.
pub fn is_string(expr: &Expr, text: &str) -> (same: bool)
    ensures
        same == (expr@ == ExprView::String(text@)),
{
    match expr.try_as_str() {
        Some(found) => str_eq(found, text),
        None => false,
    }
}

/// Decodes one element of a flag list.
pub fn flag_rule_from_expr(expr: &Expr) -> (result: Result<FlagRule<String>, DecodeError>)
    ensures
        match result {
            Ok(rule) => decode_flag_rule(expr@) == Ok::<FlagRule<Seq<char>>, DecodeError>(
                flag_rule_view(rule),
            ),
            Err(error) => decode_flag_rule(expr@) == Err::<FlagRule<Seq<char>>, DecodeError>(
                error,
            ),
        },
{
    if is_string(expr, "Long") {
        return Ok(FlagRule::Long(FlagSetting::Automatic));
    }
    let sides = try_normal_array_with_head::<2>(expr, RULE)?;
    let value = flag_value_from_expr(&sides[1])?;
    if is_string(&sides[0], "Short") {
        let setting = short_setting_from(&value)?;
        Ok(FlagRule::Short(setting))
    } else if is_string(&sides[0], "Long") {
        Ok(FlagRule::Long(value))
    } else {
        Err(DecodeError::UnrecognizedFlagKey)
    }
}

/// Decodes a list of flag rules.
pub fn flag_spec_from_expr(expr: &Expr) -> (result: Result<
    (FlagSetting<char>, FlagSetting<String>),
    DecodeError,
>)
    ensures
        match result {
            Ok(flags) => decode_flag_spec(expr@) == Ok::<
                (FlagSetting<char>, FlagSetting<Seq<char>>),
                DecodeError,
            >((flags.0, long_setting_view(flags.1))),
            Err(error) => decode_flag_spec(expr@) == Err::<
                (FlagSetting<char>, FlagSetting<Seq<char>>),
                DecodeError,
            >(error),
        },
{
    let rules = try_normal_with_head(expr, LIST)?;
    let mut short: FlagSetting<char> = FlagSetting::Disabled;
    let mut long: FlagSetting<String> = FlagSetting::Disabled;
    let mut i: usize = 0;
    while i < rules.len()
        invariant
            i <= rules.len(),
            normal_with_head(expr@, LIST@) == Ok::<Seq<ExprView>, DecodeError>(
                expr_views(rules@),
            ),
            decode_flag_rules(expr_views(rules@), i as nat) == Ok::<
                (FlagSetting<char>, FlagSetting<Seq<char>>),
                DecodeError,
            >((short, long_setting_view(long))),
        decreases rules.len() - i,
    {
        match flag_rule_from_expr(&rules[i]) {
            Ok(FlagRule::Short(setting)) => {
                short = setting;
            },
            Ok(FlagRule::Long(setting)) => {
                long = setting;
            },
            Err(error) => {
                proof {
                    let views = expr_views(rules@);
                    lemma_flag_rules_fail(views, (i + 1) as nat, rules.len() as nat);
                }
                return Err(error);
            },
        }
        i += 1;
    }
    Ok((short, long))
}

/// Once a prefix of the rules fails to decode, every longer prefix fails
/// in the same way.
pub proof fn lemma_flag_rules_fail(rules: Seq<ExprView>, n: nat, m: nat)
    requires
        n <= m,
        decode_flag_rules(rules, n) is Err,
    ensures
        decode_flag_rules(rules, m) == decode_flag_rules(rules, n),
    decreases m,
{
    if n < m {
        lemma_flag_rules_fail(rules, n, (m - 1) as nat);
    }
}

/// Once a prefix of the nodes fails to decode, every longer prefix fails
/// in the same way.
pub proof fn lemma_args_fail(nodes: Seq<ExprView>, n: nat, m: nat)
    requires
        n <= m,
        decode_args(nodes, n) is Err,
    ensures
        decode_args(nodes, m) == decode_args(nodes, n),
    decreases m,
{
    if n < m {
        lemma_args_fail(nodes, n, (m - 1) as nat);
    }
}

/// Once a prefix of the rules fails to decode, every longer prefix fails
/// in the same way.
pub proof fn lemma_setting_rules_fail(rules: Seq<ExprView>, n: nat, m: nat)
    requires
        n <= m,
        decode_setting_rules(rules, n) is Err,
    ensures
        decode_setting_rules(rules, m) == decode_setting_rules(rules, n),
    decreases m,
{
    if n < m {
        lemma_setting_rules_fail(rules, n, (m - 1) as nat);
    }
}

/// Once a prefix of the nodes fails to decode, every longer prefix fails
/// in the same way.
pub proof fn lemma_commands_fail(nodes: Seq<ExprView>, n: nat, m: nat, budget: nat)
    requires
        n <= m,
        decode_commands(nodes, n, budget) is Err,
    ensures
        decode_commands(nodes, m, budget) == decode_commands(nodes, n, budget),
    decreases m,
{
    if n < m {
        lemma_commands_fail(nodes, n, (m - 1) as nat, budget);
    }
}

impl ClapArg {
    /// Decodes the description of an argument.
    pub fn from_expr(expr: &Expr) -> (result: Result<ClapArg, DecodeError>)
        ensures
            match result {
                Ok(arg) => decode_arg(expr@) == Ok::<ArgSpec, DecodeError>(arg@),
                Err(error) => decode_arg(expr@) == Err::<ArgSpec, DecodeError>(error),
            },
    {
        let elements = try_normal_with_head(expr, ARG_HEAD)?;
        if elements.len() < 1 || elements.len() > 3 {
            return Err(DecodeError::WrongArity);
        }
        let arg_name = match elements[0].try_as_str() {
            Some(name) => name.to_owned(),
            None => {
                return Err(DecodeError::ExpectedString);
            },
        };
        let action = if elements.len() >= 2 {
            Some(action_from_expr(&elements[1])?)
        } else {
            None
        };
        let flag_spec = if elements.len() >= 3 {
            Some(flag_spec_from_expr(&elements[2])?)
        } else {
            None
        };
        Ok(ClapArg { arg_name, action, flag_spec })
    }
}

/// Decodes a list of argument descriptions.
pub fn args_from_expr(expr: &Expr) -> (result: Result<Vec<ClapArg>, DecodeError>)
    ensures
        match normal_with_head(expr@, LIST@) {
            Err(error) => result == Err::<Vec<ClapArg>, DecodeError>(error),
            Ok(nodes) => match result {
                Ok(args) => decode_args(nodes, nodes.len()) == Ok::<Seq<ArgSpec>, DecodeError>(
                    arg_specs(args@),
                ),
                Err(error) => decode_args(nodes, nodes.len()) == Err::<Seq<ArgSpec>, DecodeError>(
                    error,
                ),
            },
        },
{
    let nodes = try_normal_with_head(expr, LIST)?;
    let ghost views = expr_views(nodes@);
    let mut args: Vec<ClapArg> = Vec::new();
    let mut i: usize = 0;
    assert(arg_specs(args@) =~= Seq::<ArgSpec>::empty());
    while i < nodes.len()
        invariant
            i <= nodes.len(),
            views == expr_views(nodes@),
            normal_with_head(expr@, LIST@) == Ok::<Seq<ExprView>, DecodeError>(views),
            decode_args(views, i as nat) == Ok::<Seq<ArgSpec>, DecodeError>(arg_specs(args@)),
        decreases nodes.len() - i,
    {
        match ClapArg::from_expr(&nodes[i]) {
            Ok(arg) => {
                let ghost before = arg_specs(args@);
                args.push(arg);
                assert(arg_specs(args@) =~= before.push(arg@));
            },
            Err(error) => {
                proof {
                    lemma_args_fail(views, (i + 1) as nat, nodes.len() as nat);
                }
                return Err(error);
            },
        }
        i += 1;
    }
    Ok(args)
}

/// Decodes one rule of a settings association.
pub fn setting_rule_from_expr(expr: &Expr) -> (result: Result<bool, DecodeError>)
    ensures
        result == decode_setting_rule(expr@),
{
    let sides = try_normal_array_with_head::<2>(expr, RULE)?;
    if is_string(&sides[0], "ArgRequiredElseHelp") {
        match sides[1].try_as_bool() {
            Some(value) => Ok(value),
            None => Err(DecodeError::ExpectedBoolean),
        }
    } else {
        Err(DecodeError::UnrecognizedSetting)
    }
}

impl ClapCommandSettings {
    /// Decodes an association of settings.
    pub fn from_expr(expr: &Expr) -> (result: Result<ClapCommandSettings, DecodeError>)
        ensures
            result == decode_settings(expr@),
    {
        let rules = try_normal_with_head(expr, ASSOCIATION)?;
        let ghost views = expr_views(rules@);
        let mut settings = ClapCommandSettings { arg_required_else_help: None };
        let mut i: usize = 0;
        while i < rules.len()
            invariant
                i <= rules.len(),
                views == expr_views(rules@),
                normal_with_head(expr@, ASSOCIATION@) == Ok::<Seq<ExprView>, DecodeError>(views),
                decode_setting_rules(views, i as nat) == Ok::<ClapCommandSettings, DecodeError>(
                    settings,
                ),
            decreases rules.len() - i,
        {
            match setting_rule_from_expr(&rules[i]) {
                Ok(value) => {
                    settings.arg_required_else_help = Some(value);
                },
                Err(error) => {
                    proof {
                        lemma_setting_rules_fail(views, (i + 1) as nat, rules.len() as nat);
                    }
                    return Err(error);
                },
            }
            i += 1;
        }
        Ok(settings)
    }
}

impl ClapCommand {
    /// Decodes the description of a command. Commands may be nested
    /// [`MAX_NESTING_DEPTH`] deep.
    pub fn from_expr(expr: &Expr) -> (result: Result<ClapCommand, DecodeError>)
        ensures
            match result {
                Ok(command) => decode_command(expr@, MAX_NESTING_DEPTH as nat) == Ok::<
                    CommandSpec,
                    DecodeError,
                >(command@),
                Err(error) => decode_command(expr@, MAX_NESTING_DEPTH as nat) == Err::<
                    CommandSpec,
                    DecodeError,
                >(error),
            },
    {
        ClapCommand::from_expr_within(expr, MAX_NESTING_DEPTH)
    }

    /// Decodes the description of a command in which `budget` commands may
    /// be nested in one another, the outermost counted.
    pub fn from_expr_within(expr: &Expr, budget: usize) -> (result: Result<
        ClapCommand,
        DecodeError,
    >)
        ensures
            match result {
                Ok(command) => decode_command(expr@, budget as nat) == Ok::<
                    CommandSpec,
                    DecodeError,
                >(command@),
                Err(error) => decode_command(expr@, budget as nat) == Err::<
                    CommandSpec,
                    DecodeError,
                >(error),
            },
        decreases budget, 0nat,
    {
        if budget == 0 {
            return Err(DecodeError::NestingTooDeep);
        }
        let elements = try_normal_with_head(expr, COMMAND_HEAD)?;
        if elements.len() < 2 || elements.len() > 4 {
            return Err(DecodeError::WrongArity);
        }
        let command_name = match elements[0].try_as_str() {
            Some(name) => name.to_owned(),
            None => {
                return Err(DecodeError::ExpectedString);
            },
        };
        let args = args_from_expr(&elements[1])?;
        let subcommands = if elements.len() >= 3 {
            Some(ClapCommand::list_from_expr(&elements[2], budget - 1)?)
        } else {
            None
        };
        let settings = if elements.len() >= 4 {
            Some(ClapCommandSettings::from_expr(&elements[3])?)
        } else {
            None
        };
        let command = ClapCommand { command_name, args, subcommands, settings };
        proof {
            command.lemma_view();
        }
        Ok(command)
    }

    /// Decodes a list of command descriptions in each of which `budget`
    /// commands may be nested in one another.
    pub fn list_from_expr(expr: &Expr, budget: usize) -> (result: Result<
        Vec<ClapCommand>,
        DecodeError,
    >)
        ensures
            match normal_with_head(expr@, LIST@) {
                Err(error) => result == Err::<Vec<ClapCommand>, DecodeError>(error),
                Ok(nodes) => match result {
                    Ok(commands) => decode_commands(nodes, nodes.len(), budget as nat) == Ok::<
                        Seq<CommandSpec>,
                        DecodeError,
                    >(command_specs(commands@)),
                    Err(error) => decode_commands(nodes, nodes.len(), budget as nat) == Err::<
                        Seq<CommandSpec>,
                        DecodeError,
                    >(error),
                },
            },
        decreases budget, 1nat,
    {
        let nodes = try_normal_with_head(expr, LIST)?;
        let ghost views = expr_views(nodes@);
        let mut commands: Vec<ClapCommand> = Vec::new();
        let mut i: usize = 0;
        assert(command_specs(commands@) =~= Seq::<CommandSpec>::empty());
        while i < nodes.len()
            invariant
                i <= nodes.len(),
                views == expr_views(nodes@),
                normal_with_head(expr@, LIST@) == Ok::<Seq<ExprView>, DecodeError>(views),
                decode_commands(views, i as nat, budget as nat) == Ok::<
                    Seq<CommandSpec>,
                    DecodeError,
                >(command_specs(commands@)),
            decreases nodes.len() - i,
        {
            match ClapCommand::from_expr_within(&nodes[i], budget) {
                Ok(command) => {
                    let ghost before = command_specs(commands@);
                    commands.push(command);
                    assert(command_specs(commands@) =~= before.push(command@));
                },
                Err(error) => {
                    proof {
                        lemma_commands_fail(
                            views,
                            (i + 1) as nat,
                            nodes.len() as nat,
                            budget as nat,
                        );
                    }
                    return Err(error);
                },
            }
            i += 1;
        }
        Ok(commands)
    }
}

/// A command node with fewer than two or more than four elements is
/// refused for its arity, whatever its elements are.
pub proof fn law_command_arity(elements: Seq<ExprView>, budget: nat)
    requires
        budget > 0,
        elements.len() < 2 || elements.len() > 4,
    ensures
        decode_command(ExprView::headed(COMMAND_HEAD@, elements), budget) == Err::<
            CommandSpec,
            DecodeError,
        >(DecodeError::WrongArity),
{
}

/// An argument node without elements or with more than three is refused
/// for its arity, whatever its elements are.
pub proof fn law_argument_arity(elements: Seq<ExprView>)
    requires
        elements.len() < 1 || elements.len() > 3,
    ensures
        decode_arg(ExprView::headed(ARG_HEAD@, elements)) == Err::<ArgSpec, DecodeError>(
            DecodeError::WrongArity,
        ),
{
}

/// Arguments are decoded all or none: where the first `n` nodes decode,
/// each of them decodes to the argument at its place, and where one of
/// them does not, neither do the first `n`.
pub proof fn law_args_all_or_none(nodes: Seq<ExprView>, n: nat)
    ensures
        match decode_args(nodes, n) {
            Ok(args) => args.len() == n && forall|i: int|
                0 <= i < n ==> decode_arg(#[trigger] nodes[i]) == Ok::<ArgSpec, DecodeError>(
                    args[i],
                ),
            Err(_) => exists|i: int| 0 <= i < n && decode_arg(#[trigger] nodes[i]) is Err,
        },
    decreases n,
{
    if n > 0 {
        law_args_all_or_none(nodes, (n - 1) as nat);
        match decode_args(nodes, (n - 1) as nat) {
            Ok(args) => {
            },
            Err(_) => {
            },
        }
    }
}

/// A command of which one argument node does not decode does not decode
/// either: no description is made of the rest.
pub proof fn law_bad_argument_refuses_command(
    elements: Seq<ExprView>,
    nodes: Seq<ExprView>,
    k: int,
    budget: nat,
)
    requires
        elements.len() >= 2,
        elements[1] == ExprView::list(nodes),
        0 <= k < nodes.len(),
        decode_arg(nodes[k]) is Err,
    ensures
        decode_command(ExprView::headed(COMMAND_HEAD@, elements), budget) is Err,
{
    law_args_all_or_none(nodes, nodes.len());
}

} // verus!
