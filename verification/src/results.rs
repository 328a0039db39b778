//! What a parse matched, in the shape that each argument's action gives
//! its values.

use vstd::prelude::*;
use crate::engine::{
    matches_get_count,
    matches_get_flag,
    matches_get_many,
    matches_get_one,
    matches_view,
    ActionKind,
    MatchesView,
};
use crate::expr::{expr_views, Expr, ExprView, ASSOCIATION, FAILURE, MISSING};
use crate::metadata::{metadata_views, ArgMetadata, ArgMetadataView};
use crate::text::string_views;

verus! {

/// The kind of every failure that the parser reports.
pub const CLAP_ERROR: &'static str = "ClapError";

/// The matched value of one argument.
#[derive(Clone, Debug, PartialEq, Eq)]
pub enum Value {
    /// The argument takes values and none was given.
    Missing,
    /// The value of an argument that keeps one value.
    String(String),
    /// The values of an argument that keeps all of them, in the order in
    /// which they were given.
    List(Vec<String>),
    /// The state of a flag.
    Boolean(bool),
    /// The number of occurrences of a flag.
    Integer(u8),
}

/// The mathematical value of a [`Value`].
pub enum ValueView {
    /// The argument takes values and none was given.
    Missing,
    /// One value.
    String(Seq<char>),
    /// All values, in order.
    List(Seq<Seq<char>>),
    /// The state of a flag.
    Boolean(bool),
    /// The number of occurrences of a flag.
    Integer(u8),
}

impl View for Value {
    type V = ValueView;

    open spec fn view(&self) -> ValueView {
        match self {
            Value::Missing => ValueView::Missing,
            Value::String(text) => ValueView::String(text@),
            Value::List(texts) => ValueView::List(string_views(texts@)),
            Value::Boolean(state) => ValueView::Boolean(*state),
            Value::Integer(count) => ValueView::Integer(*count),
        }
    }
}

/// What one command of the selected chain matched.
#[derive(Clone, Debug, PartialEq, Eq)]
pub struct CommandMatch {
    /// The name of the command.
    pub name: String,
    /// The identifier and the matched value of each argument of the
    /// command, in declaration order.
    pub args: Vec<(String, Value)>,
}

/// The mathematical value of a [`CommandMatch`].
pub struct CommandMatchView {
    /// The name of the command.
    pub name: Seq<char>,
    /// The identifier and the matched value of each argument.
    pub args: Seq<(Seq<char>, ValueView)>,
}

/// The values of a list of identifiers with their matched values.
pub open spec fn arg_value_views(args: Seq<(String, Value)>) -> Seq<(Seq<char>, ValueView)> {
    Seq::new(args.len(), |i: int| (args[i].0@, args[i].1@))
}

impl View for CommandMatch {
    type V = CommandMatchView;

    open spec fn view(&self) -> CommandMatchView {
        CommandMatchView { name: self.name@, args: arg_value_views(self.args@) }
    }
}

/// The values of a list of command matches.
pub open spec fn command_match_views(list: Seq<CommandMatch>) -> Seq<CommandMatchView> {
    Seq::new(list.len(), |i: int| list[i]@)
}

/// How a call ended.
#[derive(Clone, Debug, PartialEq, Eq)]
pub enum Outcome {
    /// The command line was parsed: what the root command matched, then
    /// what each selected subcommand matched, down to the last.
    Matched(Vec<CommandMatch>),
    /// The command line was refused.
    Failure {
        /// The kind of the failure.
        kind: String,
        /// What the parser says of it, with the usage of the command.
        message: String,
    },
}

/// The mathematical value of an [`Outcome`].
pub enum OutcomeView {
    /// The command line was parsed.
    Matched(Seq<CommandMatchView>),
    /// The command line was refused.
    Failure {
        /// The kind of the failure.
        kind: Seq<char>,
        /// What the parser says of it.
        message: Seq<char>,
    },
}

impl View for Outcome {
    type V = OutcomeView;

    open spec fn view(&self) -> OutcomeView {
        match self {
            Outcome::Matched(list) => OutcomeView::Matched(command_match_views(list@)),
            Outcome::Failure { kind, message } => OutcomeView::Failure {
                kind: kind@,
                message: message@,
            },
        }
    }
}

/// The value of an argument that keeps one value.
pub open spec fn value_of_one(text: Option<Seq<char>>) -> ValueView {
    match text {
        Some(text) => ValueView::String(text),
        None => ValueView::Missing,
    }
}

/// The value of an argument that keeps all values.
pub open spec fn value_of_many(texts: Option<Seq<Seq<char>>>) -> ValueView {
    match texts {
        Some(texts) => ValueView::List(texts),
        None => ValueView::Missing,
    }
}

/// The value that `matches` holds for the argument of `metadata`, in the
/// shape of its action: a string or a list of strings where values were
/// given and the missing value where none was, the state of a flag, or a
/// count.
pub open spec fn matched_value(matches: MatchesView, metadata: ArgMetadataView) -> ValueView {
    match metadata.action {
        ActionKind::SetValue => value_of_one(matches.one(metadata.id)),
        ActionKind::Append => value_of_many(matches.many(metadata.id)),
        ActionKind::SetTrue | ActionKind::SetFalse => ValueView::Boolean(
            matches.flag(metadata.id),
        ),
        ActionKind::Count => ValueView::Integer(matches.count(metadata.id)),
    }
}

/// Whether `matches` may be asked for the argument of `metadata` in the
/// shape of its action.
pub open spec fn admits(matches: MatchesView, metadata: ArgMetadataView) -> bool {
    match metadata.action {
        ActionKind::SetValue | ActionKind::Append => matches.admits_strings(metadata.id),
        ActionKind::SetTrue | ActionKind::SetFalse => matches.admits_flag(metadata.id),
        ActionKind::Count => matches.admits_count(metadata.id),
    }
}

/// Whether `matches` may be asked for every argument of `metadata`.
pub open spec fn admits_all(matches: MatchesView, metadata: Seq<ArgMetadataView>) -> bool {
    forall|i: int| 0 <= i < metadata.len() ==> admits(matches, #[trigger] metadata[i])
}

/// What the command `name` matched: for each argument of `metadata`, in
/// order, its identifier and its matched value.
pub open spec fn command_match(
    name: Seq<char>,
    metadata: Seq<ArgMetadataView>,
    matches: MatchesView,
) -> CommandMatchView {
    CommandMatchView {
        name,
        args: Seq::new(
            metadata.len(),
            |i: int| (metadata[i].id, matched_value(matches, metadata[i])),
        ),
    }
}

impl Value {
    /// The value of an argument that keeps one value: the string, or the
    /// missing value where there is none.
    pub fn from_one(text: Option<&String>) -> (value: Value)
        ensures
            value@ == value_of_one(
                match text {
                    Some(text) => Some(text@),
                    None => None,
                },
            ),
    {
        match text {
            Some(text) => Value::String(text.clone()),
            None => Value::Missing,
        }
    }

    /// The value of an argument that keeps all values: the list, or the
    /// missing value where there is none.
    pub fn from_many(texts: Option<Vec<String>>) -> (value: Value)
        ensures
            value@ == value_of_many(
                match texts {
                    Some(texts) => Some(string_views(texts@)),
                    None => None,
                },
            ),
    {
        match texts {
            Some(texts) => Value::List(texts),
            None => Value::Missing,
        }
    }
}

/// Reads from `matches` the value of the argument of `metadata`.
pub fn match_value(matches: &clap::ArgMatches, metadata: &ArgMetadata) -> (value: Value)
    requires
        admits(matches_view(*matches), metadata@),
    ensures
        value@ == matched_value(matches_view(*matches), metadata@),
{
    let id = metadata.id.as_str();
    match metadata.action {
        ActionKind::SetValue => Value::from_one(matches_get_one(matches, id)),
        ActionKind::Append => Value::from_many(matches_get_many(matches, id)),
        ActionKind::SetTrue | ActionKind::SetFalse => Value::Boolean(
            matches_get_flag(matches, id),
        ),
        ActionKind::Count => Value::Integer(matches_get_count(matches, id)),
    }
}

/// Reads from `matches` what the command `command_name` matched: the
/// value of each argument of `arg_metadata`, in order.
pub fn match_command(
    command_name: &str,
    arg_metadata: &Vec<ArgMetadata>,
    matches: &clap::ArgMatches,
) -> (matched: CommandMatch)
    requires
        admits_all(matches_view(*matches), metadata_views(arg_metadata@)),
    ensures
        matched@ == command_match(
            command_name@,
            metadata_views(arg_metadata@),
            matches_view(*matches),
        ),
{
    let ghost metadata = metadata_views(arg_metadata@);
    let mut args: Vec<(String, Value)> = Vec::new();
    let mut i: usize = 0;
    while i < arg_metadata.len()
        invariant
            i <= arg_metadata.len(),
            metadata == metadata_views(arg_metadata@),
            admits_all(matches_view(*matches), metadata),
            args@.len() == i,
            forall|k: int|
                0 <= k < i ==> (#[trigger] args@[k]).0@ == metadata[k].id && args@[k].1@
                    == matched_value(matches_view(*matches), metadata[k]),
        decreases arg_metadata.len() - i,
    {
        let item = &arg_metadata[i];
        assert(metadata[i as int] == item@);
        let value = match_value(matches, item);
        args.push((item.id.clone(), value));
        i += 1;
    }
    let matched = CommandMatch { name: command_name.to_owned(), args };
    assert(matched@.args =~= command_match(
        command_name@,
        metadata,
        matches_view(*matches),
    ).args);
    matched
}

/// The strings `texts` as expressions.
pub open spec fn string_exprs(texts: Seq<Seq<char>>) -> Seq<ExprView> {
    Seq::new(texts.len(), |i: int| ExprView::String(texts[i]))
}

impl ValueView {
    /// The value as an expression: `Missing[]`, a string, a list of
    /// strings, the symbol of a truth value, or an integer.
    pub open spec fn to_expr(self) -> ExprView {
        match self {
            ValueView::Missing => ExprView::headed(MISSING@, Seq::empty()),
            ValueView::String(text) => ExprView::String(text),
            ValueView::List(texts) => ExprView::list(string_exprs(texts)),
            ValueView::Boolean(state) => ExprView::boolean(state),
            ValueView::Integer(count) => ExprView::Integer(count as int),
        }
    }
}

/// The rules `id -> value` for `args`, in order.
pub open spec fn rule_exprs(args: Seq<(Seq<char>, ValueView)>) -> Seq<ExprView> {
    Seq::new(
        args.len(),
        |i: int| ExprView::rule(ExprView::String(args[i].0), args[i].1.to_expr()),
    )
}

impl CommandMatchView {
    /// The match as an expression: the list of the name of the command
    /// and the association of its arguments with their values.
    pub open spec fn to_expr(self) -> ExprView {
        ExprView::list(
            seq![
                ExprView::String(self.name),
                ExprView::headed(ASSOCIATION@, rule_exprs(self.args)),
            ],
        )
    }
}

/// The matches `list` as expressions, in order.
pub open spec fn command_match_exprs(list: Seq<CommandMatchView>) -> Seq<ExprView> {
    Seq::new(list.len(), |i: int| list[i].to_expr())
}

impl OutcomeView {
    /// The outcome as an expression: the list of the matches, or
    /// `Failure[kind, message]`.
    pub open spec fn to_expr(self) -> ExprView {
        match self {
            OutcomeView::Matched(list) => ExprView::list(command_match_exprs(list)),
            OutcomeView::Failure { kind, message } => ExprView::headed(
                FAILURE@,
                seq![ExprView::String(kind), ExprView::String(message)],
            ),
        }
    }
}

impl Value {
    /// The value as an expression.
    pub fn to_expr(&self) -> (expr: Expr)
        ensures
            expr@ == self@.to_expr(),
    {
        match self {
            Value::Missing => {
                let elements: Vec<Expr> = Vec::new();
                assert(expr_views(elements@) =~= Seq::<ExprView>::empty());
                Expr::headed(MISSING, elements)
            },
            Value::String(text) => Expr::string(text.as_str()),
            Value::List(texts) => {
                let mut elements: Vec<Expr> = Vec::new();
                let mut i: usize = 0;
                while i < texts.len()
                    invariant
                        i <= texts.len(),
                        elements@.len() == i,
                        forall|k: int|
                            0 <= k < i ==> (#[trigger] elements@[k])@ == ExprView::String(
                                texts@[k]@,
                            ),
                    decreases texts.len() - i,
                {
                    elements.push(Expr::string(texts[i].as_str()));
                    i += 1;
                }
                assert(expr_views(elements@) =~= string_exprs(string_views(texts@)));
                Expr::list(elements)
            },
            Value::Boolean(state) => Expr::boolean(*state),
            Value::Integer(count) => Expr::integer(*count as i64),
        }
    }
}

impl CommandMatch {
    /// The match as an expression.
    pub fn to_expr(&self) -> (expr: Expr)
        ensures
            expr@ == self@.to_expr(),
    {
        let mut rules: Vec<Expr> = Vec::new();
        let mut i: usize = 0;
        while i < self.args.len()
            invariant
                i <= self.args.len(),
                rules@.len() == i,
                forall|k: int|
                    0 <= k < i ==> (#[trigger] rules@[k])@ == ExprView::rule(
                        ExprView::String(self.args@[k].0@),
                        self.args@[k].1@.to_expr(),
                    ),
            decreases self.args.len() - i,
        {
            let key = Expr::string(self.args[i].0.as_str());
            let value = self.args[i].1.to_expr();
            rules.push(Expr::rule(key, value));
            i += 1;
        }
        assert(expr_views(rules@) =~= rule_exprs(self@.args));
        let mut parts: Vec<Expr> = Vec::new();
        parts.push(Expr::string(self.name.as_str()));
        parts.push(Expr::headed(ASSOCIATION, rules));
        assert(expr_views(parts@) =~= seq![
            ExprView::String(self.name@),
            ExprView::headed(ASSOCIATION@, rule_exprs(self@.args)),
        ]);
        Expr::list(parts)
    }
}

impl Outcome {
    /// The outcome of a command line that the parser refused with
    /// `message`.
    pub fn failure(message: String) -> (outcome: Outcome)
        ensures
            outcome@ == (OutcomeView::Failure { kind: CLAP_ERROR@, message: message@ }),
    {
        Outcome::Failure { kind: CLAP_ERROR.to_owned(), message }
    }

    /// The outcome as an expression.
    pub fn to_expr(&self) -> (expr: Expr)
        ensures
            expr@ == self@.to_expr(),
    {
        match self {
            Outcome::Matched(list) => {
                let mut elements: Vec<Expr> = Vec::new();
                let mut i: usize = 0;
                while i < list.len()
                    invariant
                        i <= list.len(),
                        elements@.len() == i,
                        forall|k: int|
                            0 <= k < i ==> (#[trigger] elements@[k])@ == list@[k]@.to_expr(),
                    decreases list.len() - i,
                {
                    elements.push(list[i].to_expr());
                    i += 1;
                }
                assert(expr_views(elements@) =~= command_match_exprs(command_match_views(list@)));
                Expr::list(elements)
            },
            Outcome::Failure { kind, message } => {
                let mut parts: Vec<Expr> = Vec::new();
                parts.push(Expr::string(kind.as_str()));
                parts.push(Expr::string(message.as_str()));
                assert(expr_views(parts@) =~= seq![
                    ExprView::String(kind@),
                    ExprView::String(message@),
                ]);
                Expr::headed(FAILURE, parts)
            },
        }
    }
}

/// Reads from `matches` what the command `command_name` matched and gives
/// it as an expression: the list of the name and of the association of
/// each argument of `arg_metadata` with its value.
pub fn arg_matches_to_expr(
    command_name: &str,
    arg_metadata: &Vec<ArgMetadata>,
    matches: &clap::ArgMatches,
) -> (expr: Expr)
    requires
        admits_all(matches_view(*matches), metadata_views(arg_metadata@)),
    ensures
        expr@ == command_match(
            command_name@,
            metadata_views(arg_metadata@),
            matches_view(*matches),
        ).to_expr(),
{
    match_command(command_name, arg_metadata, matches).to_expr()
}

} // verus!
