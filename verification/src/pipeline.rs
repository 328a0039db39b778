//! From a description and a command line to an outcome: decode, compile,
//! keep the metadata, parse, and read what matched along the chain of the
//! selected subcommands.

use vstd::prelude::*;
use crate::engine::{
    command_get_name,
    command_no_binary_name,
    command_try_get_matches_from,
    command_view,
    matches_fit,
    matches_subcommand,
    matches_view,
    parse_outcome,
    parser_accepts,
    ActionKind,
    CommandView,
    MatchesView,
};
use crate::expr::{expr_views, Expr, ExprView, FAILURE, LIST};
use crate::from_expr::{
    decode_command,
    normal_with_head,
    try_normal_with_head,
    DecodeError,
    MAX_NESTING_DEPTH,
};
use crate::metadata::{
    arg_metadata,
    child_at,
    extract_arg_metadata,
    metadata_map,
    node_at,
    supported,
    ArgMetadataView,
    MetadataMap,
};
use crate::results::{
    admits,
    admits_all,
    command_match,
    command_match_views,
    match_command,
    value_of_many,
    value_of_one,
    CommandMatch,
    CommandMatchView,
    Outcome,
    OutcomeView,
    ValueView,
    CLAP_ERROR,
};
use crate::schema::{ClapCommand, CommandSpec};
use crate::text::string_views;
use crate::to_clap::{lemma_buildable_is_accepted, BuildError};

verus! {

/// Why a call gave no outcome.
#[derive(Clone, Copy, Debug, PartialEq, Eq, Structural)]
pub enum PipelineError {
    /// The description, or the command line, could not be decoded.
    Decode(DecodeError),
    /// The description could not be compiled to a parser.
    Build(BuildError),
}

/// The kind of the failure that reports a description that could not be
/// decoded.
pub const DECODE_ERROR: &'static str = "DecodeError";

/// The kind of the failure that reports a description that could not be
/// compiled.
pub const BUILD_ERROR: &'static str = "BuildError";

impl PipelineError {
    /// The kind of the error.
    pub open spec fn kind_text(self) -> Seq<char> {
        match self {
            PipelineError::Decode(_) => DECODE_ERROR@,
            PipelineError::Build(_) => BUILD_ERROR@,
        }
    }

    /// What the error says, in words.
    pub open spec fn message_text(self) -> Seq<char> {
        match self {
            PipelineError::Decode(error) => error.message_text(),
            PipelineError::Build(error) => error.message_text(),
        }
    }

    /// The error as an expression: `Failure[kind, message]`.
    pub open spec fn to_expr_view(self) -> ExprView {
        ExprView::headed(
            FAILURE@,
            seq![ExprView::String(self.kind_text()), ExprView::String(self.message_text())],
        )
    }

    /// The kind of the error: `"DecodeError"` or `"BuildError"`.
    pub fn kind(&self) -> (text: String)
        ensures
            text@ == self.kind_text(),
    {
        match self {
            PipelineError::Decode(_) => DECODE_ERROR.to_owned(),
            PipelineError::Build(_) => BUILD_ERROR.to_owned(),
        }
    }

    /// What the error says, in words.
    pub fn message(&self) -> (text: String)
        ensures
            text@ == self.message_text(),
    {
        match self {
            PipelineError::Decode(error) => error.message(),
            PipelineError::Build(error) => error.message(),
        }
    }

    /// The error as an expression: `Failure[kind, message]`.
    pub fn to_expr(&self) -> (expr: Expr)
        ensures
            expr@ == self.to_expr_view(),
    {
        let kind = Expr::string(self.kind().as_str());
        let message = Expr::string(self.message().as_str());
        let ghost views = seq![
            ExprView::String(self.kind_text()),
            ExprView::String(self.message_text()),
        ];
        let mut parts: Vec<Expr> = Vec::new();
        parts.push(kind);
        parts.push(message);
        assert(expr_views(parts@) =~= views);
        Expr::headed(FAILURE, parts)
    }
}

/// What the commands of the selected chain matched, from the command at
/// `path` on: what `matches` holds for the arguments kept under `path`,
/// then the same for the selected subcommand, under the path extended by
/// its name.
pub open spec fn chain_matches(
    metadata: Map<Seq<Seq<char>>, Seq<ArgMetadataView>>,
    path: Seq<Seq<char>>,
    matches: MatchesView,
) -> Seq<CommandMatchView>
    decreases matches,
{
    seq![command_match(path.last(), metadata[path], matches)] + (match matches.subcommand {
        Some((name, selected)) => chain_matches(metadata, path.push(name), *selected),
        None => Seq::empty(),
    })
}

/// Whether the selected chain can be read: metadata is kept for the path
/// of every command of the chain, and the matches of the command may be
/// asked for each of its arguments.
pub open spec fn chain_ready(
    metadata: Map<Seq<Seq<char>>, Seq<ArgMetadataView>>,
    path: Seq<Seq<char>>,
    matches: MatchesView,
) -> bool
    decreases matches,
{
    &&& metadata.contains_key(path)
    &&& admits_all(matches, metadata[path])
    &&& match matches.subcommand {
        Some((name, selected)) => chain_ready(metadata, path.push(name), *selected),
        None => true,
    }
}

/// The names of the selected subcommands, from the outermost to the
/// innermost.
pub open spec fn selected_names(matches: MatchesView) -> Seq<Seq<char>>
    decreases matches,
{
    match matches.subcommand {
        Some((name, selected)) => seq![name] + selected_names(*selected),
        None => Seq::empty(),
    }
}

/// The same command, told that the command line does not start with the
/// name of the program.
pub open spec fn without_binary_name(command: CommandView) -> CommandView {
    CommandView { no_binary_name: true, ..command }
}

/// The subcommand of `command` that bears `name`.
pub open spec fn subcommand_named(command: CommandView, name: Seq<char>) -> CommandView {
    command.subcommands[choose|j: int|
        0 <= j < command.subcommands.len() && (#[trigger] command.subcommands[j]).name == name]
}

/// What the commands of the selected chain matched, from `command` on:
/// the name of the command with, for each of its arguments in declaration
/// order, the identifier and the value that `matches` holds for it in the
/// shape of its action; then the same for the selected subcommand.
pub open spec fn declared_chain(command: CommandView, matches: MatchesView) -> Seq<
    CommandMatchView,
>
    decreases matches,
{
    seq![command_match(command.name, arg_metadata(command.args), matches)] + (
    match matches.subcommand {
        Some((name, selected)) => declared_chain(subcommand_named(command, name), *selected),
        None => Seq::empty(),
    })
}

/// The outcome of a call whose description compiles to `command`: what
/// the commands of the selected chain matched where the command line was
/// parsed, and a failure of the kind [`CLAP_ERROR`] with the text of the
/// parser where it was refused.
pub open spec fn outcome_of(command: CommandView, parsed: Result<MatchesView, Seq<char>>) -> OutcomeView {
    match parsed {
        Ok(matches) => OutcomeView::Matched(declared_chain(command, matches)),
        Err(message) => OutcomeView::Failure { kind: CLAP_ERROR@, message },
    }
}

/// Where none of the first `n` subcommands bears the first name of
/// `path`, the path leads nowhere from them.
pub proof fn lemma_child_at_none(subcommands: Seq<CommandView>, path: Seq<Seq<char>>, n: nat)
    requires
        n <= subcommands.len(),
        path.len() > 0,
        forall|i: int| 0 <= i < n ==> (#[trigger] subcommands[i]).name != path[0],
    ensures
        child_at(subcommands, path, n) is None,
    decreases n,
{
    if n > 0 {
        lemma_child_at_none(subcommands, path, (n - 1) as nat);
        assert(node_at(subcommands[n - 1], path) is None);
    }
}

/// Where no two subcommands bear the same name, a path that starts with
/// the name of subcommand `j` leads where it leads from that subcommand.
pub proof fn lemma_child_at_named(
    subcommands: Seq<CommandView>,
    path: Seq<Seq<char>>,
    n: nat,
    j: int,
)
    requires
        0 <= j < n <= subcommands.len(),
        forall|a: int, b: int|
            0 <= a < b < subcommands.len() ==> (#[trigger] subcommands[a]).name != (
            #[trigger] subcommands[b]).name,
        path.len() > 0,
        path[0] == subcommands[j].name,
    ensures
        child_at(subcommands, path, n) == node_at(subcommands[j], path),
    decreases n,
{
    if n - 1 == j {
        assert forall|i: int| 0 <= i < j implies (#[trigger] subcommands[i]).name != path[0] by {}
        lemma_child_at_none(subcommands, path, j as nat);
    } else {
        assert(node_at(subcommands[n - 1], path) is None);
        lemma_child_at_named(subcommands, path, (n - 1) as nat, j);
    }
}

/// Where a path leads somewhere from the first `n` subcommands, it leads
/// there from one of them.
pub proof fn lemma_child_at_source(
    subcommands: Seq<CommandView>,
    path: Seq<Seq<char>>,
    n: nat,
) -> (i: int)
    requires
        n <= subcommands.len(),
        child_at(subcommands, path, n) is Some,
    ensures
        0 <= i < n,
        node_at(subcommands[i], path) == child_at(subcommands, path, n),
    decreases n,
{
    if node_at(subcommands[n - 1], path) is Some {
        n - 1
    } else {
        lemma_child_at_source(subcommands, path, (n - 1) as nat)
    }
}

/// A command that a path leads to in a parser that `clap` takes is taken
/// by `clap` itself.
pub proof fn lemma_node_accepted(root: CommandView, path: Seq<Seq<char>>, found: CommandView)
    requires
        parser_accepts(root),
        node_at(root, path) == Some(found),
    ensures
        parser_accepts(found),
    decreases path.len(),
{
    if path.len() > 1 {
        let rest = path.drop_first();
        let i = lemma_child_at_source(root.subcommands, rest, root.subcommands.len());
        lemma_node_accepted(root.subcommands[i], rest, found);
    }
}

/// In a parser that `clap` takes, the path to a command, extended by the
/// name of one of its subcommands, leads to that subcommand.
pub proof fn lemma_node_at_step(
    root: CommandView,
    path: Seq<Seq<char>>,
    found: CommandView,
    j: int,
)
    requires
        parser_accepts(root),
        node_at(root, path) == Some(found),
        0 <= j < found.subcommands.len(),
    ensures
        node_at(root, path.push(found.subcommands[j].name)) == Some(found.subcommands[j]),
    decreases path.len(),
{
    let child = found.subcommands[j];
    let next = path.push(child.name);
    let width = root.subcommands.len();
    if path.len() == 1 {
        lemma_child_at_named(root.subcommands, next.drop_first(), width, j);
    } else {
        let rest = path.drop_first();
        let i = lemma_child_at_source(root.subcommands, rest, width);
        lemma_node_at_step(root.subcommands[i], rest, found, j);
        assert(next.drop_first() =~= rest.push(child.name));
        lemma_child_at_named(root.subcommands, next.drop_first(), width, i);
    }
}

/// Whatever `clap` matched with a parser that it takes can be read along
/// the selected chain with the metadata of the parser.
pub proof fn lemma_chain_ready(
    root: CommandView,
    path: Seq<Seq<char>>,
    found: CommandView,
    matches: MatchesView,
)
    requires
        parser_accepts(root),
        node_at(root, path) == Some(found),
        matches_fit(matches, found),
    ensures
        chain_ready(metadata_map(root), path, matches),
    decreases matches,
{
    lemma_node_accepted(root, path, found);
    let kept = metadata_map(root)[path];
    assert forall|i: int| 0 <= i < kept.len() implies admits(matches, #[trigger] kept[i]) by {
        assert(matches.admitted.contains(found.args[i].id));
    }
    match matches.subcommand {
        Some((name, selected)) => {
            let j = choose|j: int|
                0 <= j < found.subcommands.len() && (#[trigger] found.subcommands[j]).name == name
                    && matches_fit(*selected, found.subcommands[j]);
            lemma_node_at_step(root, path, found, j);
            lemma_chain_ready(root, path.push(name), found.subcommands[j], *selected);
        },
        None => {},
    }
}

/// A path that leads to a command ends with the name of the command.
pub proof fn lemma_path_ends_with_name(root: CommandView, path: Seq<Seq<char>>, found: CommandView)
    requires
        node_at(root, path) == Some(found),
    ensures
        path.len() > 0,
        path.last() == found.name,
    decreases path.len(),
{
    if path.len() > 1 {
        let rest = path.drop_first();
        let i = lemma_child_at_source(root.subcommands, rest, root.subcommands.len());
        lemma_path_ends_with_name(root.subcommands[i], rest, found);
    }
}

/// What is read along the selected chain with the metadata of a parser
/// that `clap` takes is what the commands of the chain declare: the
/// metadata that is found under the path of each command is that of its
/// own arguments, in declaration order.
pub proof fn law_chain_reports_declarations(
    root: CommandView,
    path: Seq<Seq<char>>,
    found: CommandView,
    matches: MatchesView,
)
    requires
        parser_accepts(root),
        node_at(root, path) == Some(found),
        matches_fit(matches, found),
    ensures
        chain_matches(metadata_map(root), path, matches) == declared_chain(found, matches),
    decreases matches,
{
    lemma_node_accepted(root, path, found);
    lemma_path_ends_with_name(root, path, found);
    match matches.subcommand {
        Some((name, selected)) => {
            let j = choose|j: int|
                0 <= j < found.subcommands.len() && (#[trigger] found.subcommands[j]).name == name
                    && matches_fit(*selected, found.subcommands[j]);
            lemma_node_at_step(root, path, found, j);
            law_chain_reports_declarations(root, path.push(name), found.subcommands[j], *selected);
        },
        None => {},
    }
}

/// A parser that `clap` takes has only arguments of which values can be
/// kept.
pub proof fn lemma_accepted_is_supported(command: CommandView)
    requires
        parser_accepts(command),
    ensures
        supported(command),
    decreases command,
{
    assert forall|j: int| 0 <= j < command.subcommands.len() implies supported(
        #[trigger] command.subcommands[j],
    ) by {
        lemma_accepted_is_supported(command.subcommands[j]);
    }
}

/// Reads what the commands of the selected chain matched, the root
/// command first and the innermost selected subcommand last.
pub fn collect_matches(
    root_name: &str,
    metadata: &MetadataMap,
    matches: &clap::ArgMatches,
) -> (list: Vec<CommandMatch>)
    requires
        chain_ready(metadata@, seq![root_name@], matches_view(*matches)),
    ensures
        command_match_views(list@) == chain_matches(
            metadata@,
            seq![root_name@],
            matches_view(*matches),
        ),
{
    let ghost whole = chain_matches(metadata@, seq![root_name@], matches_view(*matches));
    let mut list: Vec<CommandMatch> = Vec::new();
    let mut path: Vec<String> = Vec::new();
    path.push(root_name.to_owned());
    let mut name: &str = root_name;
    let mut current: &clap::ArgMatches = matches;
    assert(string_views(path@) =~= seq![root_name@]);
    loop
        invariant_except_break
            path@.len() > 0,
            name@ == string_views(path@).last(),
            chain_ready(metadata@, string_views(path@), matches_view(*current)),
            command_match_views(list@) + chain_matches(
                metadata@,
                string_views(path@),
                matches_view(*current),
            ) == whole,
        ensures
            command_match_views(list@) == whole,
        decreases matches_view(*current),
    {
        let ghost here = string_views(path@);
        let kept = metadata.get(&path).unwrap();
        let matched = match_command(name, kept, current);
        list.push(matched);
        match matches_subcommand(current) {
            Some((selected_name, selected)) => {
                path.push(selected_name.to_owned());
                assert(string_views(path@) =~= here.push(selected_name@));
                name = selected_name;
                current = selected;
            },
            None => {
                break ;
            },
        }
    }
    list
}

/// Parses the command line `argv`, which does not start with the name
/// of the program, with `command`.
pub fn execute(command: clap::Command, argv: &Vec<String>) -> (parsed: Result<
    clap::ArgMatches,
    String,
>)
    requires
        parser_accepts(command_view(command)),
    ensures
        match parsed {
            Ok(matches) => parse_outcome(
                without_binary_name(command_view(command)),
                string_views(argv@),
            ) == Ok::<MatchesView, Seq<char>>(matches_view(matches)) && matches_fit(
                matches_view(matches),
                command_view(command),
            ),
            Err(message) => parse_outcome(
                without_binary_name(command_view(command)),
                string_views(argv@),
            ) == Err::<MatchesView, Seq<char>>(message@),
        },
{
    let parser = command_no_binary_name(command, true);
    command_try_get_matches_from(parser, argv)
}

/// The outcome of a parse with a parser whose root command is named
/// `root_name` and whose metadata is `metadata`: what the selected chain
/// matched, or the failure that the parser reports.
pub fn conclude(
    root_name: &str,
    metadata: &MetadataMap,
    parsed: Result<clap::ArgMatches, String>,
) -> (outcome: Outcome)
    requires
        parsed matches Ok(matches) ==> chain_ready(
            metadata@,
            seq![root_name@],
            matches_view(matches),
        ),
    ensures
        match parsed {
            Ok(matches) => outcome@ == OutcomeView::Matched(
                chain_matches(metadata@, seq![root_name@], matches_view(matches)),
            ),
            Err(message) => outcome@ == (OutcomeView::Failure {
                kind: CLAP_ERROR@,
                message: message@,
            }),
        },
{
    match parsed {
        Ok(matches) => Outcome::Matched(collect_matches(root_name, metadata, &matches)),
        Err(message) => Outcome::failure(message),
    }
}

/// Answers the command line `argv` with the parser that a description
/// compiles to.
pub fn run(description: &ClapCommand, argv: &Vec<String>) -> (result: Result<Outcome, BuildError>)
    ensures
        match description@.build_error() {
            Some(error) => result == Err::<Outcome, BuildError>(error),
            None => result matches Ok(outcome) && outcome@ == outcome_of(
                description@.compiled(),
                parse_outcome(without_binary_name(description@.compiled()), string_views(argv@)),
            ),
        },
{
    let command = description.to_clap()?;
    let ghost view = command_view(command);
    proof {
        lemma_buildable_is_accepted(description@);
        lemma_accepted_is_supported(view);
    }
    let metadata = extract_arg_metadata(&command).unwrap();
    let root_name = command_get_name(&command).to_owned();
    let parsed = execute(command, argv);
    proof {
        if parsed is Ok {
            lemma_chain_ready(view, seq![view.name], view, matches_view(parsed->Ok_0));
            law_chain_reports_declarations(
                view,
                seq![view.name],
                view,
                matches_view(parsed->Ok_0),
            );
        }
    }
    Ok(conclude(root_name.as_str(), &metadata, parsed))
}

/// Answers the command line `argv` with the parser that `spec` describes:
/// an error where `spec` is no description or `clap` would not take it,
/// else what the selected chain of commands matched, or the failure that
/// the parser reports.
pub fn evaluate(argv: &Vec<String>, spec: &Expr) -> (result: Result<Outcome, PipelineError>)
    ensures
        match decode_command(spec@, MAX_NESTING_DEPTH as nat) {
            Err(error) => result == Err::<Outcome, PipelineError>(PipelineError::Decode(error)),
            Ok(description) => match description.build_error() {
                Some(error) => result == Err::<Outcome, PipelineError>(
                    PipelineError::Build(error),
                ),
                None => result matches Ok(outcome) && outcome@ == outcome_of(
                    description.compiled(),
                    parse_outcome(without_binary_name(description.compiled()), string_views(argv@)),
                ),
            },
        },
{
    let description = match ClapCommand::from_expr(spec) {
        Ok(description) => description,
        Err(error) => {
            return Err(PipelineError::Decode(error));
        },
    };
    match run(&description, argv) {
        Ok(outcome) => Ok(outcome),
        Err(error) => Err(PipelineError::Build(error)),
    }
}

/// The strings of the first `n` of `elements`, or the reason why one of
/// them is no string.
pub open spec fn decode_strings(elements: Seq<ExprView>, n: nat) -> Result<
    Seq<Seq<char>>,
    DecodeError,
>
    decreases n,
{
    if n == 0 {
        Ok(Seq::empty())
    } else {
        match decode_strings(elements, (n - 1) as nat) {
            Err(error) => Err(error),
            Ok(texts) => match elements[n - 1] {
                ExprView::String(text) => Ok(texts.push(text)),
                _ => Err(DecodeError::ExpectedString),
            },
        }
    }
}

/// The command line that the list of strings `expr` stands for.
pub open spec fn decode_argv(expr: ExprView) -> Result<Seq<Seq<char>>, DecodeError> {
    match normal_with_head(expr, LIST@) {
        Err(error) => Err(error),
        Ok(elements) => decode_strings(elements, elements.len()),
    }
}

/// Decodes a command line from a list of strings.
pub fn argv_from_expr(expr: &Expr) -> (result: Result<Vec<String>, DecodeError>)
    ensures
        match result {
            Ok(argv) => decode_argv(expr@) == Ok::<Seq<Seq<char>>, DecodeError>(string_views(argv@)),
            Err(error) => decode_argv(expr@) == Err::<Seq<Seq<char>>, DecodeError>(error),
        },
{
    let elements = try_normal_with_head(expr, LIST)?;
    let ghost views = expr_views(elements@);
    let mut argv: Vec<String> = Vec::new();
    let mut i: usize = 0;
    assert(string_views(argv@) =~= Seq::<Seq<char>>::empty());
    while i < elements.len()
        invariant
            i <= elements.len(),
            views == expr_views(elements@),
            normal_with_head(expr@, LIST@) == Ok::<Seq<ExprView>, DecodeError>(views),
            decode_strings(views, i as nat) == Ok::<Seq<Seq<char>>, DecodeError>(
                string_views(argv@),
            ),
        decreases elements.len() - i,
    {
        match elements[i].try_as_str() {
            Some(text) => {
                let ghost before = string_views(argv@);
                argv.push(text.to_owned());
                assert(string_views(argv@) =~= before.push(text@));
            },
            None => {
                proof {
                    lemma_strings_fail(views, (i + 1) as nat, elements.len() as nat);
                }
                return Err(DecodeError::ExpectedString);
            },
        }
        i += 1;
    }
    Ok(argv)
}

/// Once a prefix of the elements fails to decode, every longer prefix
/// fails in the same way.
pub proof fn lemma_strings_fail(elements: Seq<ExprView>, n: nat, m: nat)
    requires
        n <= m,
        decode_strings(elements, n) is Err,
    ensures
        decode_strings(elements, m) == decode_strings(elements, n),
    decreases m,
{
    if n < m {
        lemma_strings_fail(elements, n, (m - 1) as nat);
    }
}

/// The whole call on expressions: `args` holds the command line, a list
/// of strings, and the description of the command. The outcome is given
/// as an expression: the list of what each command of the selected chain
/// matched, or `Failure["ClapError", message]`.
pub fn clap_parse(args: &Vec<Expr>) -> (result: Result<Expr, PipelineError>)
    ensures
        if args@.len() != 2 {
            result == Err::<Expr, PipelineError>(PipelineError::Decode(DecodeError::WrongArity))
        } else {
            match decode_argv(args@[0]@) {
                Err(error) => result == Err::<Expr, PipelineError>(PipelineError::Decode(error)),
                Ok(argv) => match decode_command(args@[1]@, MAX_NESTING_DEPTH as nat) {
                    Err(error) => result == Err::<Expr, PipelineError>(
                        PipelineError::Decode(error),
                    ),
                    Ok(description) => match description.build_error() {
                        Some(error) => result == Err::<Expr, PipelineError>(
                            PipelineError::Build(error),
                        ),
                        None => result matches Ok(expr) && expr@ == outcome_of(
                            description.compiled(),
                            parse_outcome(without_binary_name(description.compiled()), argv),
                        ).to_expr(),
                    },
                },
            }
        },
{
    if args.len() != 2 {
        return Err(PipelineError::Decode(DecodeError::WrongArity));
    }
    let argv = match argv_from_expr(&args[0]) {
        Ok(argv) => argv,
        Err(error) => {
            return Err(PipelineError::Decode(error));
        },
    };
    let outcome = evaluate(&argv, &args[1])?;
    Ok(outcome.to_expr())
}

/// For a selected chain of `k` subcommands the outcome has `k + 1`
/// entries, and their names are the name of the root command followed by
/// the names of the selected subcommands, from the outermost to the
/// innermost.
pub proof fn law_chain_follows_selection(command: CommandView, matches: MatchesView)
    requires
        parser_accepts(command),
        matches_fit(matches, command),
    ensures
        declared_chain(command, matches).len() == selected_names(matches).len() + 1,
        forall|i: int|
            0 <= i < declared_chain(command, matches).len() ==> (#[trigger] declared_chain(
                command,
                matches,
            )[i]).name == (seq![command.name] + selected_names(matches))[i],
    decreases matches,
{
    match matches.subcommand {
        Some((name, selected)) => {
            let next = subcommand_named(command, name);
            assert(next.name == name);
            law_chain_follows_selection(next, *selected);
        },
        None => {},
    }
}

/// The first entry of an outcome is for the root command and reports
/// every declared argument, in declaration order, under its name and in
/// the shape of its action: for an argument that keeps one value the
/// value that the parser holds, or the missing value; for one that
/// appends the list of all values in the order given, or the missing
/// value; for a switch its state; for a counter its count.
pub proof fn law_reported_values(description: CommandSpec, matches: MatchesView, i: int)
    requires
        0 <= i < description.args.len(),
    ensures
        ({
            let first = declared_chain(description.compiled(), matches)[0];
            let name = description.args[i].name;
            &&& first.name == description.name
            &&& first.args.len() == description.args.len()
            &&& first.args[i].0 == name
            &&& first.args[i].1 == match description.args[i].effective_action() {
                ActionKind::SetValue => value_of_one(matches.one(name)),
                ActionKind::Append => value_of_many(matches.many(name)),
                ActionKind::SetTrue | ActionKind::SetFalse => ValueView::Boolean(
                    matches.flag(name),
                ),
                ActionKind::Count => ValueView::Integer(matches.count(name)),
            }
        }),
{
    description.lemma_compiled();
}

/// A command line that the parser refuses gives a failure of the kind
/// `"ClapError"` with the text of the parser, and one that it parses
/// gives what was matched: an outcome is never in between.
pub proof fn law_refusal_is_failure(command: CommandView, parsed: Result<MatchesView, Seq<char>>)
    ensures
        parsed is Err <==> outcome_of(command, parsed) is Failure,
        parsed matches Err(message) ==> outcome_of(command, parsed) == (OutcomeView::Failure {
            kind: CLAP_ERROR@,
            message,
        }),
{
}

/// Metadata is kept for the root of a parser and, in a parser that `clap`
/// takes, for every subcommand of a command for which it is kept, under
/// the path extended by the name of the subcommand: whichever chain is
/// selected, its metadata is found.
pub proof fn law_every_command_has_metadata(
    root: CommandView,
    path: Seq<Seq<char>>,
    found: CommandView,
    j: int,
)
    requires
        parser_accepts(root),
        node_at(root, path) == Some(found),
        0 <= j < found.subcommands.len(),
    ensures
        metadata_map(root).contains_key(seq![root.name]),
        metadata_map(root)[seq![root.name]] == arg_metadata(root.args),
        metadata_map(root).contains_key(path.push(found.subcommands[j].name)),
        metadata_map(root)[path.push(found.subcommands[j].name)] == arg_metadata(
            found.subcommands[j].args,
        ),
{
    lemma_node_at_step(root, path, found, j);
}

} // verus!
