//! The help of a command and of everything below it as one document: a
//! table of contents, then a section for each command that is not hidden.

use vstd::prelude::*;
use vstd::string::StringExecFns;
use crate::text::{
    ascii_uppercase,
    push_char,
    replace,
    replaced,
    string_views,
    to_ascii_uppercase,
};

verus! {

/// How many levels of headings the document has: a command nested deeper
/// cannot be given a section.
pub const MAX_HEADING_DEPTH: usize = 6;

/// What the help says of one argument.
#[derive(Clone, Debug, PartialEq, Eq)]
pub struct ArgHelp {
    /// The identifier.
    pub id: String,
    /// The short flag.
    pub short: Option<char>,
    /// The long flag.
    pub long: Option<String>,
    /// The description.
    pub help: Option<String>,
}

/// What the help says of one command.
#[derive(Debug, PartialEq, Eq)]
pub struct CommandHelp {
    /// The name.
    pub name: String,
    /// Whether the command is left out of the document.
    pub hidden: bool,
    /// The short description.
    pub about: Option<String>,
    /// The long description.
    pub long_about: Option<String>,
    /// The usage line, as the parser renders it.
    pub usage: String,
    /// The arguments, in declaration order.
    pub args: Vec<ArgHelp>,
    /// The subcommands, in declaration order.
    pub subcommands: Vec<CommandHelp>,
}

/// Why no document can be made.
#[derive(Clone, Copy, Debug, PartialEq, Eq, Structural)]
pub enum HelpError {
    /// A command that is not hidden is nested deeper than there are
    /// levels of headings.
    TooDeep,
}

/// The text of an optional string; empty where there is none.
pub open spec fn text_or_empty(text: Option<String>) -> Seq<char> {
    match text {
        Some(text) => text@,
        None => Seq::empty(),
    }
}

/// The first `n` of `words` with `separator` between them.
pub open spec fn joined(words: Seq<Seq<char>>, separator: Seq<char>, n: nat) -> Seq<char>
    decreases n,
{
    if n == 0 {
        Seq::empty()
    } else if n == 1 {
        words[0]
    } else {
        joined(words, separator, (n - 1) as nat) + separator + words[n - 1]
    }
}

/// `n` hash signs.
pub open spec fn hashes(n: nat) -> Seq<char> {
    Seq::new(n, |i: int| '#')
}

impl ArgHelp {
    /// Whether the argument is given by position.
    pub open spec fn is_positional(self) -> bool {
        self.short is None && self.long is None
    }

    /// The line of the argument in the list of positional arguments.
    pub open spec fn argument_item(self) -> Seq<char> {
        "* `<"@ + ascii_uppercase(self.id@) + ">`"@ + (match self.help {
            Some(help) => " — "@ + help@ + "\n"@,
            None => "\n"@,
        })
    }

    /// The flags of the argument as they are typed.
    pub open spec fn flags(self) -> Seq<char> {
        match (self.short, self.long) {
            (Some(short), Some(long)) => "`-"@ + seq![short] + "`, `--"@ + long@ + "`"@,
            (Some(short), None) => "`-"@ + seq![short] + "`"@,
            (None, Some(long)) => "`--"@ + long@ + "`"@,
            (None, None) => Seq::empty(),
        }
    }

    /// The line of the argument in the list of options. It ends with a
    /// line break only where the argument has a description.
    pub open spec fn option_item(self) -> Seq<char> {
        "* "@ + self.flags() + (match self.help {
            Some(help) => " — "@ + help@ + "\n"@,
            None => Seq::empty(),
        })
    }
}

/// The lines of the positional arguments among the first `n` of `args`.
pub open spec fn argument_items(args: Seq<ArgHelp>, n: nat) -> Seq<char>
    decreases n,
{
    if n == 0 {
        Seq::empty()
    } else {
        argument_items(args, (n - 1) as nat) + (if args[n - 1].is_positional() {
            args[n - 1].argument_item()
        } else {
            Seq::empty()
        })
    }
}

/// The lines of the options among the first `n` of `args`.
pub open spec fn option_items(args: Seq<ArgHelp>, n: nat) -> Seq<char>
    decreases n,
{
    if n == 0 {
        Seq::empty()
    } else {
        option_items(args, (n - 1) as nat) + (if args[n - 1].is_positional() {
            Seq::empty()
        } else {
            args[n - 1].option_item()
        })
    }
}

/// Whether one of the first `n` of `args` is given by position.
pub open spec fn has_positional(args: Seq<ArgHelp>, n: nat) -> bool {
    exists|i: int| 0 <= i < n && (#[trigger] args[i]).is_positional()
}

/// Whether one of the first `n` of `args` is given by a flag.
pub open spec fn has_option(args: Seq<ArgHelp>, n: nat) -> bool {
    exists|i: int| 0 <= i < n && !(#[trigger] args[i]).is_positional()
}

/// The section of the positional arguments; empty where there is none.
pub open spec fn arguments_section(args: Seq<ArgHelp>) -> Seq<char> {
    if has_positional(args, args.len()) {
        "###### **Arguments:**\n\n"@ + argument_items(args, args.len()) + "\n"@
    } else {
        Seq::empty()
    }
}

/// The section of the options; empty where there is none.
pub open spec fn options_section(args: Seq<ArgHelp>) -> Seq<char> {
    if has_option(args, args.len()) {
        "###### **Options:**\n\n"@ + option_items(args, args.len()) + "\n"@
    } else {
        Seq::empty()
    }
}

/// The heading of the section of the command at `path`, `depth` levels
/// below the root.
pub open spec fn heading(path: Seq<Seq<char>>, depth: nat) -> Seq<char> {
    hashes(depth + 1) + " `"@ + joined(path, " "@, path.len()) + "`\n\n"@
}

/// The entry of the command at `path` in the table of contents.
pub open spec fn contents_entry(path: Seq<Seq<char>>) -> Seq<char> {
    "<li><a href=\"#"@ + joined(path, "-"@, path.len()) + "\"><code>"@ + joined(
        path,
        " "@,
        path.len(),
    ) + "</code>↴</a></li>\n"@
}

impl CommandHelp {
    /// The line of the command in the list of the subcommands of its
    /// parent.
    pub open spec fn command_item(self) -> Seq<char> {
        "* `"@ + self.name@ + "` — "@ + text_or_empty(self.about) + "\n"@
    }

    /// The description of the command: the long one, else the short one,
    /// followed by an empty line; nothing where it has neither.
    pub open spec fn description(self) -> Seq<char> {
        match self.long_about {
            Some(text) => text@ + "\n\n"@,
            None => match self.about {
                Some(text) => text@ + "\n\n"@,
                None => Seq::empty(),
            },
        }
    }

    /// The usage of the command, the names of the commands above it put
    /// before what the parser renders.
    pub open spec fn usage_line(self, parent: Seq<Seq<char>>) -> Seq<char> {
        "**Usage:** `"@ + (if parent.len() == 0 {
            Seq::empty()
        } else {
            joined(parent, " "@, parent.len()) + " "@
        }) + replaced(self.usage@, "Usage: "@, ""@) + "`\n\n"@
    }

    /// The section of the subcommands; empty where there is none.
    pub open spec fn commands_section(self) -> Seq<char> {
        if self.subcommands@.len() == 0 {
            Seq::empty()
        } else {
            "###### **Commands:**\n\n"@ + command_items(
                self.subcommands@,
                self.subcommands@.len(),
            ) + "\n"@
        }
    }

    /// The section of the command without those of its subcommands.
    pub open spec fn own_section(self, parent: Seq<Seq<char>>, depth: nat) -> Seq<char> {
        heading(parent.push(self.name@), depth) + self.description() + self.usage_line(parent)
            + self.commands_section() + arguments_section(self.args@) + options_section(
            self.args@,
        ) + "\n\n"@
    }

    /// The sections of the command and of everything below it; nothing
    /// for a hidden command.
    pub open spec fn markdown(self, parent: Seq<Seq<char>>, depth: nat) -> Seq<char>
        decreases self, 0nat,
    {
        if self.hidden {
            Seq::empty()
        } else {
            self.own_section(parent, depth) + sections(
                self.subcommands@,
                self.subcommands@.len(),
                parent.push(self.name@),
                depth + 1,
            )
        }
    }

    /// The entries of the command and of everything below it in the table
    /// of contents; nothing for a hidden command.
    pub open spec fn contents(self, parent: Seq<Seq<char>>) -> Seq<char>
        decreases self, 0nat,
    {
        if self.hidden {
            Seq::empty()
        } else {
            contents_entry(parent.push(self.name@)) + contents_entries(
                self.subcommands@,
                self.subcommands@.len(),
                parent.push(self.name@),
            )
        }
    }

    /// Whether the command or one below it is nested too deep for a
    /// heading, the command itself being `depth` levels below the root.
    pub open spec fn too_deep(self, depth: nat) -> bool
        decreases self, 0nat,
    {
        !self.hidden && (depth >= MAX_HEADING_DEPTH || any_too_deep(
            self.subcommands@,
            self.subcommands@.len(),
            depth + 1,
        ))
    }

    /// The whole document: the table of contents, an empty line, and the
    /// sections.
    pub open spec fn document(self) -> Seq<char> {
        "<div style=\"background: light-gray\"><ul>\n"@ + self.contents(Seq::empty())
            + "</ul></div>\n"@ + "\n"@ + self.markdown(Seq::empty(), 0)
    }
}

/// The lines of the commands among the first `n` of `commands` that are
/// not hidden.
pub open spec fn command_items(commands: Seq<CommandHelp>, n: nat) -> Seq<char>
    decreases n,
{
    if n == 0 {
        Seq::empty()
    } else {
        command_items(commands, (n - 1) as nat) + (if commands[n - 1].hidden {
            Seq::empty()
        } else {
            commands[n - 1].command_item()
        })
    }
}

/// The sections of the first `n` of `commands`, which stand below `path`.
pub open spec fn sections(
    commands: Seq<CommandHelp>,
    n: nat,
    path: Seq<Seq<char>>,
    depth: nat,
) -> Seq<char>
    decreases commands, n,
{
    if n == 0 || n > commands.len() {
        Seq::empty()
    } else {
        sections(commands, (n - 1) as nat, path, depth) + commands[n - 1].markdown(path, depth)
    }
}

/// The entries of the first `n` of `commands`, which stand below `path`,
/// in the table of contents.
pub open spec fn contents_entries(commands: Seq<CommandHelp>, n: nat, path: Seq<Seq<char>>) -> Seq<
    char,
>
    decreases commands, n,
{
    if n == 0 || n > commands.len() {
        Seq::empty()
    } else {
        contents_entries(commands, (n - 1) as nat, path) + commands[n - 1].contents(path)
    }
}

/// Whether one of the first `n` of `commands` is nested too deep.
pub open spec fn any_too_deep(commands: Seq<CommandHelp>, n: nat, depth: nat) -> bool
    decreases commands, n,
{
    if n == 0 || n > commands.len() {
        false
    } else {
        any_too_deep(commands, (n - 1) as nat, depth) || commands[n - 1].too_deep(depth)
    }
}

/// Appends the names of `path` with `separator` between them.
pub fn push_joined(buffer: &mut String, path: &Vec<String>, separator: &str)
    ensures
        final(buffer)@ == old(buffer)@ + joined(string_views(path@), separator@, path@.len()),
{
    let ghost words = string_views(path@);
    let mut i: usize = 0;
    while i < path.len()
        invariant
            i <= path.len(),
            words == string_views(path@),
            buffer@ == old(buffer)@ + joined(words, separator@, i as nat),
        decreases path.len() - i,
    {
        if i > 0 {
            buffer.append(separator);
        }
        buffer.append(path[i].as_str());
        i += 1;
    }
}

/// Appends `n` hash signs.
pub fn push_hashes(buffer: &mut String, n: usize)
    ensures
        final(buffer)@ == old(buffer)@ + hashes(n as nat),
{
    let mut i: usize = 0;
    while i < n
        invariant
            i <= n,
            buffer@ == old(buffer)@ + hashes(i as nat),
        decreases n - i,
    {
        push_char(buffer, '#');
        i += 1;
    }
}

/// A copy of `path` with `name` behind it.
pub fn extended(path: &Vec<String>, name: &str) -> (longer: Vec<String>)
    ensures
        string_views(longer@) == string_views(path@).push(name@),
{
    let mut longer: Vec<String> = Vec::new();
    let mut i: usize = 0;
    while i < path.len()
        invariant
            i <= path.len(),
            longer@.len() == i,
            forall|k: int| 0 <= k < i ==> longer@[k]@ == path@[k]@,
        decreases path.len() - i,
    {
        longer.push(path[i].clone());
        i += 1;
    }
    longer.push(name.to_owned());
    longer
}

impl ArgHelp {
    /// Whether the argument is given by position.
    pub fn positional(&self) -> (positional: bool)
        ensures
            positional == self.is_positional(),
    {
        self.short.is_none() && self.long.is_none()
    }

    /// Appends the line of the argument in the list of positional
    /// arguments.
    pub fn push_argument_item(&self, buffer: &mut String)
        ensures
            final(buffer)@ == old(buffer)@ + self.argument_item(),
    {
        buffer.append("* `<");
        buffer.append(to_ascii_uppercase(self.id.as_str()).as_str());
        buffer.append(">`");
        match &self.help {
            Some(help) => {
                buffer.append(" — ");
                buffer.append(help.as_str());
                buffer.append("\n");
            },
            None => {
                buffer.append("\n");
            },
        }
    }

    /// Appends the line of the argument in the list of options.
    pub fn push_option_item(&self, buffer: &mut String)
        ensures
            final(buffer)@ == old(buffer)@ + self.option_item(),
    {
        buffer.append("* ");
        match (&self.short, &self.long) {
            (Some(short), Some(long)) => {
                buffer.append("`-");
                push_char(buffer, *short);
                buffer.append("`, `--");
                buffer.append(long.as_str());
                buffer.append("`");
            },
            (Some(short), None) => {
                buffer.append("`-");
                push_char(buffer, *short);
                buffer.append("`");
            },
            (None, Some(long)) => {
                buffer.append("`--");
                buffer.append(long.as_str());
                buffer.append("`");
            },
            (None, None) => {},
        }
        match &self.help {
            Some(help) => {
                buffer.append(" — ");
                buffer.append(help.as_str());
                buffer.append("\n");
            },
            None => {},
        }
    }
}

/// Appends the section of the positional arguments.
pub fn push_arguments_section(buffer: &mut String, args: &Vec<ArgHelp>)
    ensures
        final(buffer)@ == old(buffer)@ + arguments_section(args@),
{
    let mut any = false;
    let mut items = String::new();
    let mut i: usize = 0;
    while i < args.len()
        invariant
            i <= args.len(),
            any == has_positional(args@, i as nat),
            items@ == argument_items(args@, i as nat),
        decreases args.len() - i,
    {
        if args[i].positional() {
            any = true;
            args[i].push_argument_item(&mut items);
        }
        i += 1;
    }
    if any {
        buffer.append("###### **Arguments:**\n\n");
        buffer.append(items.as_str());
        buffer.append("\n");
    }
}

/// Appends the section of the options.
pub fn push_options_section(buffer: &mut String, args: &Vec<ArgHelp>)
    ensures
        final(buffer)@ == old(buffer)@ + options_section(args@),
{
    let mut any = false;
    let mut items = String::new();
    let mut i: usize = 0;
    while i < args.len()
        invariant
            i <= args.len(),
            any == has_option(args@, i as nat),
            items@ == option_items(args@, i as nat),
        decreases args.len() - i,
    {
        if !args[i].positional() {
            any = true;
            args[i].push_option_item(&mut items);
        }
        i += 1;
    }
    if any {
        buffer.append("###### **Options:**\n\n");
        buffer.append(items.as_str());
        buffer.append("\n");
    }
}

impl CommandHelp {
    /// Whether the command and everything below it can be given a
    /// heading, the command itself being `depth` levels below the root.
    pub fn fits(&self, depth: usize) -> (fits: bool)
        ensures
            fits == !self.too_deep(depth as nat),
        decreases self,
    {
        if self.hidden {
            return true;
        }
        if depth >= MAX_HEADING_DEPTH {
            return false;
        }
        let mut i: usize = 0;
        while i < self.subcommands.len()
            invariant
                i <= self.subcommands.len(),
                !self.hidden,
                depth < MAX_HEADING_DEPTH,
                !any_too_deep(self.subcommands@, i as nat, (depth + 1) as nat),
            decreases self.subcommands.len() - i,
        {
            if !self.subcommands[i].fits(depth + 1) {
                proof {
                    lemma_too_deep_stays(
                        self.subcommands@,
                        (i + 1) as nat,
                        self.subcommands@.len(),
                        (depth + 1) as nat,
                    );
                }
                return false;
            }
            i += 1;
        }
        true
    }

    /// Appends the heading of the section of the command.
    fn push_heading(&self, buffer: &mut String, parent: &Vec<String>, depth: usize)
        requires
            depth < MAX_HEADING_DEPTH,
        ensures
            final(buffer)@ == old(buffer)@ + heading(
                string_views(parent@).push(self.name@),
                depth as nat,
            ),
    {
        let path = extended(parent, self.name.as_str());
        push_hashes(buffer, depth + 1);
        buffer.append(" `");
        push_joined(buffer, &path, " ");
        buffer.append("`\n\n");
    }

    /// Appends the description of the command.
    pub fn push_description(&self, buffer: &mut String)
        ensures
            final(buffer)@ == old(buffer)@ + self.description(),
    {
        match &self.long_about {
            Some(text) => {
                buffer.append(text.as_str());
                buffer.append("\n\n");
            },
            None => match &self.about {
                Some(text) => {
                    buffer.append(text.as_str());
                    buffer.append("\n\n");
                },
                None => {},
            },
        }
    }

    /// Appends the usage of the command.
    pub fn push_usage_line(&self, buffer: &mut String, parent: &Vec<String>)
        ensures
            final(buffer)@ == old(buffer)@ + self.usage_line(string_views(parent@)),
    {
        buffer.append("**Usage:** `");
        if parent.len() > 0 {
            push_joined(buffer, parent, " ");
            buffer.append(" ");
        }
        proof {
            reveal_strlit("Usage: ");
        }
        buffer.append(replace(self.usage.as_str(), "Usage: ", "").as_str());
        buffer.append("`\n\n");
    }

    /// Appends the line of the command in the list of the subcommands of
    /// its parent.
    pub fn push_command_item(&self, buffer: &mut String)
        ensures
            final(buffer)@ == old(buffer)@ + self.command_item(),
    {
        buffer.append("* `");
        buffer.append(self.name.as_str());
        buffer.append("` — ");
        match &self.about {
            Some(about) => {
                buffer.append(about.as_str());
            },
            None => {},
        }
        buffer.append("\n");
    }

    /// Appends the section of the subcommands.
    pub fn push_commands_section(&self, buffer: &mut String)
        ensures
            final(buffer)@ == old(buffer)@ + self.commands_section(),
    {
        if self.subcommands.len() > 0 {
            buffer.append("###### **Commands:**\n\n");
            let ghost titled = buffer@;
            let mut i: usize = 0;
            while i < self.subcommands.len()
                invariant
                    i <= self.subcommands.len(),
                    buffer@ == titled + command_items(self.subcommands@, i as nat),
                decreases self.subcommands.len() - i,
            {
                if !self.subcommands[i].hidden {
                    self.subcommands[i].push_command_item(buffer);
                }
                i += 1;
            }
            buffer.append("\n");
        }
    }

    /// Appends the section of the command without those of its
    /// subcommands.
    fn push_own_section(&self, buffer: &mut String, parent: &Vec<String>, depth: usize)
        requires
            depth < MAX_HEADING_DEPTH,
        ensures
            final(buffer)@ == old(buffer)@ + self.own_section(string_views(parent@), depth as nat),
    {
        self.push_heading(buffer, parent, depth);
        self.push_description(buffer);
        self.push_usage_line(buffer, parent);
        self.push_commands_section(buffer);
        push_arguments_section(buffer, &self.args);
        push_options_section(buffer, &self.args);
        buffer.append("\n\n");
    }

    /// Appends the sections of the command and of everything below it.
    fn push_markdown(&self, buffer: &mut String, parent: &Vec<String>, depth: usize)
        requires
            !self.too_deep(depth as nat),
        ensures
            final(buffer)@ == old(buffer)@ + self.markdown(string_views(parent@), depth as nat),
        decreases self,
    {
        if self.hidden {
            return ;
        }
        self.push_own_section(buffer, parent, depth);
        let ghost own = buffer@;
        let path = extended(parent, self.name.as_str());
        let mut i: usize = 0;
        while i < self.subcommands.len()
            invariant
                i <= self.subcommands.len(),
                depth < MAX_HEADING_DEPTH,
                !any_too_deep(
                    self.subcommands@,
                    self.subcommands@.len(),
                    (depth + 1) as nat,
                ),
                buffer@ == own + sections(
                    self.subcommands@,
                    i as nat,
                    string_views(path@),
                    (depth + 1) as nat,
                ),
            decreases self.subcommands.len() - i,
        {
            proof {
                lemma_none_too_deep(
                    self.subcommands@,
                    self.subcommands@.len(),
                    (depth + 1) as nat,
                    i as int,
                );
            }
            self.subcommands[i].push_markdown(buffer, &path, depth + 1);
            i += 1;
        }
    }
}

/// Once one of the first `n` commands is nested too deep, one of the
/// first `m` is.
pub proof fn lemma_too_deep_stays(commands: Seq<CommandHelp>, n: nat, m: nat, depth: nat)
    requires
        n <= m <= commands.len(),
        any_too_deep(commands, n, depth),
    ensures
        any_too_deep(commands, m, depth),
    decreases m,
{
    if n < m {
        lemma_too_deep_stays(commands, n, (m - 1) as nat, depth);
    }
}

/// Where none of the first `n` commands is nested too deep, command `i`
/// is not.
pub proof fn lemma_none_too_deep(commands: Seq<CommandHelp>, n: nat, depth: nat, i: int)
    requires
        0 <= i < n <= commands.len(),
        !any_too_deep(commands, n, depth),
    ensures
        !commands[i].too_deep(depth),
    decreases n,
{
    if i < n - 1 {
        lemma_none_too_deep(commands, (n - 1) as nat, depth, i);
    }
}

/// Appends the sections of `command` and of everything below it, each
/// under a heading one level deeper than that of its parent, `command`
/// itself being `depth` levels below the root and `parent_command_path`
/// naming the commands above it. Nothing is appended where a command
/// that is not hidden lies deeper than there are levels of headings.
pub fn build_command_markdown(
    buffer: &mut String,
    parent_command_path: &Vec<String>,
    command: &CommandHelp,
    depth: usize,
) -> (result: Result<(), HelpError>)
    ensures
        match result {
            Ok(_) => !command.too_deep(depth as nat) && final(buffer)@ == old(buffer)@
                + command.markdown(string_views(parent_command_path@), depth as nat),
            Err(_) => command.too_deep(depth as nat) && final(buffer)@ == old(buffer)@,
        },
{
    if !command.fits(depth) {
        return Err(HelpError::TooDeep);
    }
    command.push_markdown(buffer, parent_command_path, depth);
    Ok(())
}

/// Appends the entries of `command` and of everything below it in the
/// table of contents, `parent_command_path` naming the commands above it.
pub fn build_table_of_contents_html(
    buffer: &mut String,
    parent_command_path: &Vec<String>,
    command: &CommandHelp,
)
    ensures
        final(buffer)@ == old(buffer)@ + command.contents(string_views(parent_command_path@)),
    decreases command,
{
    if command.hidden {
        return ;
    }
    let path = extended(parent_command_path, command.name.as_str());
    buffer.append("<li><a href=\"#");
    push_joined(buffer, &path, "-");
    buffer.append("\"><code>");
    push_joined(buffer, &path, " ");
    buffer.append("</code>↴</a></li>\n");
    let ghost own = buffer@;
    let mut i: usize = 0;
    while i < command.subcommands.len()
        invariant
            i <= command.subcommands.len(),
            buffer@ == own + contents_entries(command.subcommands@, i as nat, string_views(path@)),
        decreases command.subcommands.len() - i,
    {
        build_table_of_contents_html(buffer, &path, &command.subcommands[i]);
        i += 1;
    }
}

/// The whole document for `command`: the table of contents and the
/// sections.
pub fn all_help_markdown(command: &CommandHelp) -> (result: Result<String, HelpError>)
    ensures
        match result {
            Ok(text) => !command.too_deep(0) && text@ == command.document(),
            Err(_) => command.too_deep(0),
        },
{
    let root: Vec<String> = Vec::new();
    assert(string_views(root@) =~= Seq::<Seq<char>>::empty());
    let mut buffer = String::new();
    buffer.append("<div style=\"background: light-gray\"><ul>\n");
    build_table_of_contents_html(&mut buffer, &root, command);
    buffer.append("</ul></div>\n");
    buffer.append("\n");
    match build_command_markdown(&mut buffer, &root, command, 0) {
        Ok(_) => {
            Ok(buffer)
        },
        Err(error) => Err(error),
    }
}

} // verus!
