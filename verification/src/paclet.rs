//! Paclet names, and the evaluations that the paclet commands ask of a
//! kernel.

use vstd::prelude::*;
use vstd::string::StrSliceExecFns;
use vstd::string::StringExecFns;
use crate::expr::{expr_views, Expr, ExprView, AUTOMATIC};

verus! {

/// The name of a paclet.
#[derive(Clone, Debug, PartialEq, Eq)]
pub enum PacletName {
    /// A name of the form `publisher/base`.
    Resource {
        /// What stands before the slash.
        publisher: String,
        /// What stands behind the slash.
        base: String,
    },
    /// A name without a slash.
    Normal(String),
}

/// Why a string is no paclet name.
#[derive(Clone, Copy, Debug, PartialEq, Eq, Structural)]
pub enum PacletNameError {
    /// The string holds more than one slash.
    TooManySlashes,
}

/// The symbol that loads a context.
pub const NEEDS: &'static str = "System`Needs";

/// The symbol that ends a kernel session.
pub const EXIT: &'static str = "System`Exit";

/// The context of the paclet tools.
pub const PACLET_TOOLS: &'static str = "PacletTools`";

/// The symbol that creates a paclet.
pub const CREATE_PACLET: &'static str = "PacletTools`CreatePaclet";

/// The symbol that installs a paclet archive.
pub const COMMAND_PACLET_INSTALL: &'static str = "ConnorGray`WolframCLI`CommandPacletInstall";

/// The symbol that builds a paclet.
pub const COMMAND_PACLET_BUILD: &'static str = "ConnorGray`WolframCLI`CommandPacletBuild";

/// The symbol that builds the documentation of a paclet.
pub const COMMAND_PACLET_DOC: &'static str = "ConnorGray`WolframCLI`CommandPacletDoc";

/// The symbol that runs the tests of a paclet.
pub const COMMAND_PACLET_TEST: &'static str = "ConnorGray`WolframCLI`CommandPacletTest";

/// The symbol that hands a command line to the commands that paclets
/// define.
pub const COMMAND_HANDLE_CUSTOM: &'static str = "ConnorGray`WolframCLI`CommandHandleCustom";

/// The symbol that prints an example of every kind of formatted output.
pub const COMMAND_PRINT_TERMINAL_FORM_DEBUG: &'static str =
    "ConnorGray`WolframCLI`CommandPrintTerminalFormDebug";

/// The position of the first slash of `name` at or behind `from`.
pub fn find_slash(name: &str, from: usize) -> (found: Option<usize>)
    ensures
        match found {
            Some(i) => from <= i < name@.len() && name@[i as int] == '/' && forall|k: int|
                from <= k < i ==> name@[k] != '/',
            None => forall|k: int| from <= k < name@.len() ==> name@[k] != '/',
        },
{
    let len = name.unicode_len();
    let mut i = from;
    while i < len
        invariant
            len == name@.len(),
            from <= i,
            forall|k: int| from <= k < i && k < len ==> name@[k] != '/',
        decreases len - i,
    {
        if name.get_char(i) == '/' {
            return Some(i);
        }
        i += 1;
    }
    None
}

impl PacletName {
    /// Reads a paclet name: a string without a slash is a plain name, one
    /// with a single slash names a publisher and a base, and one with
    /// more slashes is no name.
    pub fn parse(name: &str) -> (result: Result<PacletName, PacletNameError>)
        ensures
            match result {
                Ok(PacletName::Normal(plain)) => plain@ == name@ && !name@.contains('/'),
                Ok(PacletName::Resource { publisher, base }) => name@ == publisher@ + seq!['/']
                    + base@ && !publisher@.contains('/') && !base@.contains('/'),
                Err(_) => exists|i: int, j: int|
                    0 <= i < j < name@.len() && name@[i] == '/' && name@[j] == '/',
            },
    {
        let len = name.unicode_len();
        match find_slash(name, 0) {
            None => Ok(PacletName::Normal(name.to_owned())),
            Some(i) => match find_slash(name, i + 1) {
                Some(j) => Err(PacletNameError::TooManySlashes),
                None => {
                    let publisher = name.substring_char(0, i).to_owned();
                    let base = name.substring_char(i + 1, len).to_owned();
                    Ok(PacletName::Resource { publisher, base })
                },
            },
        }
    }

    /// The directory that a new paclet of this name is created in and the
    /// directory that it is moved to where the name is to be shortened to
    /// its base: `publisher__base` and `base`. A plain name is not
    /// shortened.
    pub fn shortened_directory(&self, shorten: bool) -> (renaming: Option<(String, String)>)
        ensures
            match renaming {
                Some((current, desired)) => {
                    &&& shorten
                    &&& self matches PacletName::Resource { publisher, base }
                    &&& current@ == publisher@ + "__"@ + base@
                    &&& desired@ == base@
                },
                None => !shorten || self is Normal,
            },
    {
        match self {
            PacletName::Resource { publisher, base } => {
                if shorten {
                    let current = publisher.clone().concat("__").concat(base.as_str());
                    Some((current, base.clone()))
                } else {
                    None
                }
            },
            PacletName::Normal(_) => None,
        }
    }
}

impl std::str::FromStr for PacletName {
    type Err = PacletNameError;

    /// Reads a paclet name as [`PacletName::parse`] does: a string
    /// without a slash is a plain name, one with a single slash names a
    /// publisher and a base, and one with more slashes is no name.
    fn from_str(name: &str) -> (result: Result<PacletName, PacletNameError>)
        ensures
            match result {
                Ok(PacletName::Normal(plain)) => plain@ == name@ && !name@.contains('/'),
                Ok(PacletName::Resource { publisher, base }) => name@ == publisher@ + seq!['/']
                    + base@ && !publisher@.contains('/') && !base@.contains('/'),
                Err(_) => exists|i: int, j: int|
                    0 <= i < j < name@.len() && name@[i] == '/' && name@[j] == '/',
            },
    {
        PacletName::parse(name)
    }
}

/// The text of an optional string.
pub open spec fn borrowed_text(text: Option<&str>) -> Option<Seq<char>> {
    match text {
        Some(text) => Some(text@),
        None => None,
    }
}

/// A directory as an expression: the path, or `Automatic` where none is
/// given.
pub open spec fn directory_or_automatic(directory: Option<Seq<char>>) -> ExprView {
    match directory {
        Some(path) => ExprView::String(path),
        None => ExprView::Symbol(AUTOMATIC@),
    }
}

/// A directory as an expression: the path, or `Automatic` where none is
/// given.
pub fn directory_expr(directory: Option<&str>) -> (expr: Expr)
    ensures
        expr@ == directory_or_automatic(borrowed_text(directory)),
{
    match directory {
        Some(path) => Expr::string(path),
        None => Expr::symbol(AUTOMATIC),
    }
}

/// `Needs["PacletTools`"]`: loads the paclet tools.
pub fn needs_paclet_tools() -> (request: Expr)
    ensures
        request@ == ExprView::headed(NEEDS@, seq![ExprView::String(PACLET_TOOLS@)]),
{
    let mut elements: Vec<Expr> = Vec::new();
    elements.push(Expr::string(PACLET_TOOLS));
    assert(expr_views(elements@) =~= seq![ExprView::String(PACLET_TOOLS@)]);
    Expr::headed(NEEDS, elements)
}

/// `CreatePaclet[name, parent]`: creates the paclet `name` below the
/// directory `parent`.
pub fn create_paclet(name: &str, parent: &str) -> (request: Expr)
    ensures
        request@ == ExprView::headed(
            CREATE_PACLET@,
            seq![ExprView::String(name@), ExprView::String(parent@)],
        ),
{
    let mut elements: Vec<Expr> = Vec::new();
    elements.push(Expr::string(name));
    elements.push(Expr::string(parent));
    assert(expr_views(elements@) =~= seq![ExprView::String(name@), ExprView::String(parent@)]);
    Expr::headed(CREATE_PACLET, elements)
}

/// `Exit[]`: ends the session.
pub fn exit() -> (request: Expr)
    ensures
        request@ == ExprView::headed(EXIT@, Seq::empty()),
{
    let elements: Vec<Expr> = Vec::new();
    assert(expr_views(elements@) =~= Seq::<ExprView>::empty());
    Expr::headed(EXIT, elements)
}

/// `CommandPacletInstall[file]`: installs the paclet archive `file`.
pub fn paclet_install(file: &str) -> (request: Expr)
    ensures
        request@ == ExprView::headed(COMMAND_PACLET_INSTALL@, seq![ExprView::String(file@)]),
{
    let mut elements: Vec<Expr> = Vec::new();
    elements.push(Expr::string(file));
    assert(expr_views(elements@) =~= seq![ExprView::String(file@)]);
    Expr::headed(COMMAND_PACLET_INSTALL, elements)
}

/// `CommandPacletBuild[paclet, build, install]`: builds the paclet in
/// the directory `paclet` into the directory `build`, or into one chosen
/// for the caller, and installs it where `install` is set.
pub fn paclet_build(paclet: &str, build: Option<&str>, install: bool) -> (request: Expr)
    ensures
        request@ == ExprView::headed(
            COMMAND_PACLET_BUILD@,
            seq![
                ExprView::String(paclet@),
                directory_or_automatic(borrowed_text(build)),
                ExprView::boolean(install),
            ],
        ),
{
    let directory = Expr::string(paclet);
    let target = directory_expr(build);
    let then_install = Expr::boolean(install);
    let ghost views = seq![
        ExprView::String(paclet@),
        directory_or_automatic(borrowed_text(build)),
        ExprView::boolean(install),
    ];
    let mut elements: Vec<Expr> = Vec::new();
    elements.push(directory);
    elements.push(target);
    elements.push(then_install);
    assert(expr_views(elements@) =~= views);
    Expr::headed(COMMAND_PACLET_BUILD, elements)
}

/// `CommandPacletDoc[paclet, build, html, open]`: builds the
/// documentation of the paclet in the directory `paclet`.
pub fn paclet_doc(paclet: &str, build: Option<&str>, html: bool, open: bool) -> (request: Expr)
    ensures
        request@ == ExprView::headed(
            COMMAND_PACLET_DOC@,
            seq![
                ExprView::String(paclet@),
                directory_or_automatic(borrowed_text(build)),
                ExprView::boolean(html),
                ExprView::boolean(open),
            ],
        ),
{
    let directory = Expr::string(paclet);
    let target = directory_expr(build);
    let as_html = Expr::boolean(html);
    let then_open = Expr::boolean(open);
    let ghost views = seq![
        ExprView::String(paclet@),
        directory_or_automatic(borrowed_text(build)),
        ExprView::boolean(html),
        ExprView::boolean(open),
    ];
    let mut elements: Vec<Expr> = Vec::new();
    elements.push(directory);
    elements.push(target);
    elements.push(as_html);
    elements.push(then_open);
    assert(expr_views(elements@) =~= views);
    Expr::headed(COMMAND_PACLET_DOC, elements)
}

/// `CommandPacletTest[paclet]`: runs the tests of the paclet in the
/// directory `paclet`.
pub fn paclet_test(paclet: &str) -> (request: Expr)
    ensures
        request@ == ExprView::headed(COMMAND_PACLET_TEST@, seq![ExprView::String(paclet@)]),
{
    let mut elements: Vec<Expr> = Vec::new();
    elements.push(Expr::string(paclet));
    assert(expr_views(elements@) =~= seq![ExprView::String(paclet@)]);
    Expr::headed(COMMAND_PACLET_TEST, elements)
}

/// `CommandPrintTerminalFormDebug[]`: prints an example of every kind of
/// formatted output.
pub fn print_terminal_form_debug() -> (request: Expr)
    ensures
        request@ == ExprView::headed(COMMAND_PRINT_TERMINAL_FORM_DEBUG@, Seq::empty()),
{
    let elements: Vec<Expr> = Vec::new();
    assert(expr_views(elements@) =~= Seq::<ExprView>::empty());
    Expr::headed(COMMAND_PRINT_TERMINAL_FORM_DEBUG, elements)
}

/// The strings `words` as expressions.
pub open spec fn word_exprs(words: Seq<String>) -> Seq<ExprView> {
    Seq::new(words.len(), |i: int| ExprView::String(words[i]@))
}

/// `CommandHandleCustom[{words...}]`: hands the command line `words` to
/// the commands that paclets define.
pub fn handle_custom(words: &Vec<String>) -> (request: Expr)
    ensures
        request@ == ExprView::headed(
            COMMAND_HANDLE_CUSTOM@,
            seq![ExprView::list(word_exprs(words@))],
        ),
{
    let mut list: Vec<Expr> = Vec::new();
    let mut i: usize = 0;
    while i < words.len()
        invariant
            i <= words.len(),
            list@.len() == i,
            forall|k: int| 0 <= k < i ==> (#[trigger] list@[k])@ == ExprView::String(words@[k]@),
        decreases words.len() - i,
    {
        list.push(Expr::string(words[i].as_str()));
        i += 1;
    }
    assert(expr_views(list@) =~= word_exprs(words@));
    let mut elements: Vec<Expr> = Vec::new();
    elements.push(Expr::list(list));
    assert(expr_views(elements@) =~= seq![ExprView::list(word_exprs(words@))]);
    Expr::headed(COMMAND_HANDLE_CUSTOM, elements)
}

/// What is entered into a kernel: an expression, or text as it is typed.
#[derive(Debug, PartialEq, Eq)]
pub enum Input {
    /// An expression.
    Expr(Expr),
    /// Text.
    Text(String),
}

/// The mathematical value of an [`Input`].
pub enum InputView {
    /// An expression.
    Expr(ExprView),
    /// Text.
    Text(Seq<char>),
}

impl View for Input {
    type V = InputView;

    open spec fn view(&self) -> InputView {
        match self {
            Input::Expr(expr) => InputView::Expr(expr@),
            Input::Text(text) => InputView::Text(text@),
        }
    }
}

/// How an evaluation has to end for the work to go on.
#[derive(Clone, Copy, Debug, PartialEq, Eq, Structural)]
pub enum Expectation {
    /// Without a result.
    Null,
    /// With a result.
    Returned,
    /// With the end of the session.
    KernelQuit,
    /// In any way.
    Anything,
}

/// One evaluation and how it has to end.
#[derive(Debug, PartialEq, Eq)]
pub struct Step {
    /// What is entered.
    pub input: Input,
    /// How the evaluation has to end.
    pub expect: Expectation,
}

/// The mathematical value of a [`Step`].
pub struct StepView {
    /// What is entered.
    pub input: InputView,
    /// How the evaluation has to end.
    pub expect: Expectation,
}

impl View for Step {
    type V = StepView;

    open spec fn view(&self) -> StepView {
        StepView { input: self.input@, expect: self.expect }
    }
}

/// The values of a list of steps.
pub open spec fn step_views(steps: Seq<Step>) -> Seq<StepView> {
    Seq::new(steps.len(), |i: int| steps[i]@)
}

/// A command on paclets, with every path resolved to text.
#[derive(Clone, Debug, PartialEq, Eq)]
pub enum PacletCommand {
    /// Create the paclet `name` below the directory `parent_dir`.
    New {
        /// The name of the paclet.
        name: String,
        /// The directory in which the paclet is created.
        parent_dir: String,
    },
    /// Build the paclet in `paclet_dir`.
    Build {
        /// The directory of the paclet.
        paclet_dir: String,
        /// The directory to build into; chosen for the caller where none
        /// is given.
        build_dir: Option<String>,
        /// Whether the built paclet is installed.
        install: bool,
    },
    /// Build the documentation of the paclet in `paclet_dir`.
    Doc {
        /// The directory of the paclet.
        paclet_dir: String,
        /// The directory to build into; chosen for the caller where none
        /// is given.
        build_dir: Option<String>,
        /// Whether the documentation is built as HTML.
        html: bool,
        /// Whether the built documentation is opened.
        open: bool,
    },
    /// Install the paclet archive `paclet_file`.
    Install {
        /// The archive.
        paclet_file: String,
    },
    /// Run the tests of the paclet in `paclet_dir`.
    Test {
        /// The directory of the paclet.
        paclet_dir: String,
    },
}

/// The text that loads the commands.
pub const LOAD_COMMANDS: &'static str = "Needs[\"ConnorGray`WolframCLI`\"]";

/// The text that keeps the output of commands from being wrapped.
pub const UNLIMITED_PAGE_WIDTH: &'static str = "SetOptions[$Output, PageWidth -> Infinity]";

/// The text of an optional string.
pub open spec fn optional_text(text: Option<String>) -> Option<Seq<char>> {
    match text {
        Some(text) => Some(text@),
        None => None,
    }
}

/// The evaluation that does the work of `command`.
pub open spec fn request_of(command: PacletCommand) -> ExprView {
    match command {
        PacletCommand::New { name, parent_dir } => ExprView::headed(
            CREATE_PACLET@,
            seq![ExprView::String(name@), ExprView::String(parent_dir@)],
        ),
        PacletCommand::Build { paclet_dir, build_dir, install } => ExprView::headed(
            COMMAND_PACLET_BUILD@,
            seq![
                ExprView::String(paclet_dir@),
                directory_or_automatic(optional_text(build_dir)),
                ExprView::boolean(install),
            ],
        ),
        PacletCommand::Doc { paclet_dir, build_dir, html, open } => ExprView::headed(
            COMMAND_PACLET_DOC@,
            seq![
                ExprView::String(paclet_dir@),
                directory_or_automatic(optional_text(build_dir)),
                ExprView::boolean(html),
                ExprView::boolean(open),
            ],
        ),
        PacletCommand::Install { paclet_file } => ExprView::headed(
            COMMAND_PACLET_INSTALL@,
            seq![ExprView::String(paclet_file@)],
        ),
        PacletCommand::Test { paclet_dir } => ExprView::headed(
            COMMAND_PACLET_TEST@,
            seq![ExprView::String(paclet_dir@)],
        ),
    }
}

/// The two steps that load the commands into a kernel: the first has to
/// end without a result, the second may end in any way.
pub open spec fn loading_steps() -> Seq<StepView> {
    seq![
        StepView { input: InputView::Text(LOAD_COMMANDS@), expect: Expectation::Null },
        StepView { input: InputView::Text(UNLIMITED_PAGE_WIDTH@), expect: Expectation::Anything },
    ]
}

/// What is evaluated for `command`, in order. A paclet is created with
/// the paclet tools alone: they are loaded, the paclet is created, which
/// has to give a result, and the session is ended. Every other command
/// loads the commands and evaluates its request, which has to end
/// without a result.
pub open spec fn plan_of(command: PacletCommand) -> Seq<StepView> {
    match command {
        PacletCommand::New { .. } => seq![
            StepView {
                input: InputView::Expr(
                    ExprView::headed(NEEDS@, seq![ExprView::String(PACLET_TOOLS@)]),
                ),
                expect: Expectation::Null,
            },
            StepView { input: InputView::Expr(request_of(command)), expect: Expectation::Returned },
            StepView {
                input: InputView::Expr(ExprView::headed(EXIT@, Seq::empty())),
                expect: Expectation::KernelQuit,
            },
        ],
        _ => loading_steps().push(
            StepView { input: InputView::Expr(request_of(command)), expect: Expectation::Null },
        ),
    }
}

/// The text of an optional string.
pub fn as_text(text: &Option<String>) -> (borrowed: Option<&str>)
    ensures
        borrowed_text(borrowed) == optional_text(*text),
{
    match text {
        Some(text) => Some(text.as_str()),
        None => None,
    }
}

/// The evaluation that does the work of `command`.
pub fn request(command: &PacletCommand) -> (expr: Expr)
    ensures
        expr@ == request_of(*command),
{
    match command {
        PacletCommand::New { name, parent_dir } => create_paclet(
            name.as_str(),
            parent_dir.as_str(),
        ),
        PacletCommand::Build { paclet_dir, build_dir, install } => paclet_build(
            paclet_dir.as_str(),
            as_text(build_dir),
            *install,
        ),
        PacletCommand::Doc { paclet_dir, build_dir, html, open } => paclet_doc(
            paclet_dir.as_str(),
            as_text(build_dir),
            *html,
            *open,
        ),
        PacletCommand::Install { paclet_file } => paclet_install(paclet_file.as_str()),
        PacletCommand::Test { paclet_dir } => paclet_test(paclet_dir.as_str()),
    }
}

/// The steps that load the commands into a kernel.
pub fn load_wolfram_cli_paclet() -> (steps: Vec<Step>)
    ensures
        step_views(steps@) == loading_steps(),
{
    let mut steps: Vec<Step> = Vec::new();
    steps.push(Step { input: Input::Text(LOAD_COMMANDS.to_owned()), expect: Expectation::Null });
    steps.push(
        Step {
            input: Input::Text(UNLIMITED_PAGE_WIDTH.to_owned()),
            expect: Expectation::Anything,
        },
    );
    steps
}

/// Plans the work of `command`: what is evaluated, in order, and how each
/// evaluation has to end.
pub fn handle_paclet_command(command: &PacletCommand) -> (steps: Vec<Step>)
    ensures
        step_views(steps@) == plan_of(*command),
{
    match command {
        PacletCommand::New { .. } => {
            let mut steps: Vec<Step> = Vec::new();
            steps.push(Step { input: Input::Expr(needs_paclet_tools()), expect: Expectation::Null });
            steps.push(Step { input: Input::Expr(request(command)), expect: Expectation::Returned });
            steps.push(Step { input: Input::Expr(exit()), expect: Expectation::KernelQuit });
            steps
        },
        _ => {
            let mut steps = load_wolfram_cli_paclet();
            steps.push(Step { input: Input::Expr(request(command)), expect: Expectation::Null });
            steps
        },
    }
}

} // verus!
