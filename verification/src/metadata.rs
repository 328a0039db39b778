//! What a parse does not keep: for every command of a parser, by its path
//! from the root, the identifiers and actions of its arguments.

use vstd::prelude::*;
use crate::engine::{
    arg_get_action,
    arg_get_id,
    arg_view,
    command_get_arguments,
    command_get_name,
    command_get_subcommands,
    command_view,
    ActionKind,
    ArgView,
    CommandView,
};
use crate::text::{str_eq, string_views};

verus! {

/// What is kept of one argument.
#[derive(Clone, Debug, PartialEq, Eq)]
pub struct ArgMetadata {
    /// The identifier under which matched values are looked up.
    pub id: String,
    /// The action, which decides the shape of the matched values.
    pub action: ActionKind,
}

/// The mathematical value of an [`ArgMetadata`].
pub struct ArgMetadataView {
    /// The identifier.
    pub id: Seq<char>,
    /// The action.
    pub action: ActionKind,
}

impl View for ArgMetadata {
    type V = ArgMetadataView;

    open spec fn view(&self) -> ArgMetadataView {
        ArgMetadataView { id: self.id@, action: self.action }
    }
}

/// The names of the commands from the root to a command, the root first.
pub type CommandPath = Vec<String>;

/// The values of a list of argument metadata.
pub open spec fn metadata_views(list: Seq<ArgMetadata>) -> Seq<ArgMetadataView> {
    Seq::new(list.len(), |i: int| list[i]@)
}

/// Whether two paths hold the same names.
pub fn path_eq(left: &Vec<String>, right: &Vec<String>) -> (equal: bool)
    ensures
        equal == (string_views(left@) == string_views(right@)),
{
    if left.len() != right.len() {
        return false;
    }
    let mut i: usize = 0;
    while i < left.len()
        invariant
            i <= left.len(),
            left.len() == right.len(),
            forall|k: int| 0 <= k < i ==> left@[k]@ == right@[k]@,
        decreases left.len() - i,
    {
        if !str_eq(left[i].as_str(), right[i].as_str()) {
            assert(string_views(left@)[i as int] != string_views(right@)[i as int]);
            return false;
        }
        i += 1;
    }
    assert(string_views(left@) =~= string_views(right@));
    true
}

/// The metadata of one command.
pub struct Entry {
    /// The path of the command.
    pub path: Vec<String>,
    /// The metadata of its arguments, in declaration order.
    pub metadata: Vec<ArgMetadata>,
}

/// A map from command paths to the metadata of the arguments of the
/// command. No path is held twice.
pub struct MetadataMap {
    entries: Vec<Entry>,
}

/// Whether entry `i` of `entries` is for `path`.
pub open spec fn entry_for(entries: Seq<Entry>, path: Seq<Seq<char>>, i: int) -> bool {
    0 <= i < entries.len() && string_views(entries[i].path@) == path
}

/// Whether no path occurs twice in `entries`.
pub open spec fn paths_unique(entries: Seq<Entry>) -> bool {
    forall|i: int, j: int|
        0 <= i < j < entries.len() ==> string_views((#[trigger] entries[i]).path@) != string_views(
            (#[trigger] entries[j]).path@,
        )
}

/// The map that `entries` stand for.
pub open spec fn map_of(entries: Seq<Entry>) -> Map<Seq<Seq<char>>, Seq<ArgMetadataView>> {
    Map::new(
        |path: Seq<Seq<char>>| exists|i: int| entry_for(entries, path, i),
        |path: Seq<Seq<char>>|
            metadata_views(entries[choose|i: int| entry_for(entries, path, i)].metadata@),
    )
}

/// Where no path occurs twice, the map holds for a path what the entry for
/// the path holds.
pub proof fn lemma_map_of_entry(entries: Seq<Entry>, path: Seq<Seq<char>>, i: int)
    requires
        paths_unique(entries),
        entry_for(entries, path, i),
    ensures
        map_of(entries).contains_key(path),
        map_of(entries)[path] == metadata_views(entries[i].metadata@),
{
    let chosen = choose|k: int| entry_for(entries, path, k);
    assert(chosen == i);
}

impl View for MetadataMap {
    type V = Map<Seq<Seq<char>>, Seq<ArgMetadataView>>;

    closed spec fn view(&self) -> Map<Seq<Seq<char>>, Seq<ArgMetadataView>> {
        map_of(self.entries@)
    }
}

impl MetadataMap {
    /// No path occurs twice.
    #[verifier::type_invariant]
    spec fn unique(&self) -> bool {
        paths_unique(self.entries@)
    }

    /// The empty map.
    pub fn new() -> (map: MetadataMap)
        ensures
            map@ == Map::<Seq<Seq<char>>, Seq<ArgMetadataView>>::empty(),
    {
        let map = MetadataMap { entries: Vec::new() };
        map
    }

    /// The position of the entry for `path`.
    fn position(&self, path: &Vec<String>) -> (found: Option<usize>)
        ensures
            match found {
                Some(i) => entry_for(self.entries@, string_views(path@), i as int),
                None => forall|i: int| !entry_for(self.entries@, string_views(path@), i),
            },
    {
        let mut i: usize = 0;
        while i < self.entries.len()
            invariant
                i <= self.entries.len(),
                forall|k: int| 0 <= k < i ==> !entry_for(self.entries@, string_views(path@), k),
            decreases self.entries.len() - i,
        {
            if path_eq(&self.entries[i].path, path) {
                return Some(i);
            }
            i += 1;
        }
        None
    }

    /// The metadata kept for `path`.
    pub fn get(&self, path: &Vec<String>) -> (found: Option<&Vec<ArgMetadata>>)
        ensures
            match found {
                Some(list) => self@.contains_key(string_views(path@)) && self@[string_views(path@)]
                    == metadata_views(list@),
                None => !self@.contains_key(string_views(path@)),
            },
    {
        match self.position(path) {
            Some(i) => {
                proof {
                    use_type_invariant(self);
                    lemma_map_of_entry(self.entries@, string_views(path@), i as int);
                }
                Some(&self.entries[i].metadata)
            },
            None => None,
        }
    }

    /// Keeps `metadata` for `path`, in place of what was kept for it.
    pub fn insert(&mut self, path: Vec<String>, metadata: Vec<ArgMetadata>)
        ensures
            final(self)@ == old(self)@.insert(string_views(path@), metadata_views(metadata@)),
    {
        let ghost key = string_views(path@);
        let ghost value = metadata_views(metadata@);
        proof {
            use_type_invariant(&*self);
        }
        let ghost before = self.entries@;
        let ghost at: int;
        let found = self.position(&path);
        let mut taken = MetadataMap::new();
        std::mem::swap(self, &mut taken);
        let mut entries = taken.entries;
        match found {
            Some(i) => {
                entries.set(i, Entry { path, metadata });
                proof {
                    at = i as int;
                }
            },
            None => {
                entries.push(Entry { path, metadata });
                proof {
                    at = before.len() as int;
                }
            },
        }
        proof {
            let after = entries@;
            assert(entry_for(after, key, at));
            assert forall|i: int| 0 <= i < after.len() && i != at implies after[i] == before[i]
                && string_views((#[trigger] after[i]).path@) != key by {
                if string_views(after[i].path@) == key {
                    assert(entry_for(before, key, i));
                }
            }
            assert forall|other: Seq<Seq<char>>|
                map_of(after).contains_key(other) == #[trigger] map_of(before).insert(
                    key,
                    value,
                ).contains_key(other) by {
                if other != key {
                    if exists|i: int| entry_for(before, other, i) {
                        let i = choose|i: int| entry_for(before, other, i);
                        assert(entry_for(after, other, i));
                    }
                    if exists|i: int| entry_for(after, other, i) {
                        let i = choose|i: int| entry_for(after, other, i);
                        assert(entry_for(before, other, i));
                    }
                }
            }
            assert forall|other: Seq<Seq<char>>| #[trigger]
                map_of(after).contains_key(other) implies map_of(after)[other] == map_of(
                before,
            ).insert(key, value)[other] by {
                let i = choose|i: int| entry_for(after, other, i);
                lemma_map_of_entry(after, other, i);
                if other != key {
                    lemma_map_of_entry(before, other, i);
                } else {
                    lemma_map_of_entry(after, key, at);
                }
            }
        }
        *self = MetadataMap { entries };
    }
}

/// Why no metadata can be kept for a parser.
#[derive(Clone, Copy, Debug, PartialEq, Eq, Structural)]
pub enum MetadataError {
    /// An argument has an action that prints help or the version.
    UnsupportedAction,
}

/// Whether every one of `args` has an action of which values can be kept.
pub open spec fn args_supported(args: Seq<ArgView>) -> bool {
    forall|i: int| 0 <= i < args.len() ==> (#[trigger] args[i]).action is Some
}

/// Whether every argument of `command` and of the commands below it has
/// an action of which values can be kept.
pub open spec fn supported(command: CommandView) -> bool
    decreases command,
{
    &&& args_supported(command.args)
    &&& forall|j: int|
        0 <= j < command.subcommands.len() ==> supported(#[trigger] command.subcommands[j])
}

/// The metadata of `args`, in the same order.
pub open spec fn arg_metadata(args: Seq<ArgView>) -> Seq<ArgMetadataView> {
    Seq::new(args.len(), |i: int| ArgMetadataView { id: args[i].id, action: args[i].action->0 })
}

/// The command that `path` leads to from `command`, whose name is the
/// first name of the path. Where several subcommands of a command bear the
/// next name, the last of them that leads anywhere is followed.
pub open spec fn node_at(command: CommandView, path: Seq<Seq<char>>) -> Option<CommandView>
    decreases path.len(), 0nat,
{
    if path.len() == 0 || path[0] != command.name {
        None
    } else if path.len() == 1 {
        Some(command)
    } else {
        child_at(command.subcommands, path.drop_first(), command.subcommands.len())
    }
}

/// The command that `path` leads to from the last of the first `n` of
/// `subcommands` from which it leads anywhere.
pub open spec fn child_at(subcommands: Seq<CommandView>, path: Seq<Seq<char>>, n: nat) -> Option<
    CommandView,
>
    decreases path.len(), n + 1,
{
    if n == 0 {
        None
    } else {
        match node_at(subcommands[n - 1], path) {
            Some(found) => Some(found),
            None => child_at(subcommands, path, (n - 1) as nat),
        }
    }
}

/// The metadata of a parser: for every path that leads to a command, the
/// metadata of the arguments of that command.
pub open spec fn metadata_map(command: CommandView) -> Map<Seq<Seq<char>>, Seq<ArgMetadataView>> {
    Map::new(
        |path: Seq<Seq<char>>| node_at(command, path) is Some,
        |path: Seq<Seq<char>>| arg_metadata(node_at(command, path)->0.args),
    )
}

/// The command that `path` leads to from `command` where only the first
/// `n` subcommands of `command` are followed.
pub open spec fn node_within(command: CommandView, path: Seq<Seq<char>>, n: nat) -> Option<
    CommandView,
> {
    if path.len() == 0 || path[0] != command.name {
        None
    } else if path.len() == 1 {
        Some(command)
    } else {
        child_at(command.subcommands, path.drop_first(), n)
    }
}

/// `map`, with the metadata of `command` and of what lies below its first
/// `n` subcommands written over it, the paths taken from `parent` on.
pub open spec fn overlay(
    map: Map<Seq<Seq<char>>, Seq<ArgMetadataView>>,
    parent: Seq<Seq<char>>,
    command: CommandView,
    n: nat,
) -> Map<Seq<Seq<char>>, Seq<ArgMetadataView>> {
    Map::new(
        |path: Seq<Seq<char>>| map.contains_key(path) || reaches(parent, command, n, path),
        |path: Seq<Seq<char>>|
            if reaches(parent, command, n, path) {
                arg_metadata(node_within(command, path.skip(parent.len() as int), n)->0.args)
            } else {
                map[path]
            },
    )
}

/// Whether `path` starts with `parent` and leads on to a command from
/// `command`, only the first `n` subcommands of `command` followed.
pub open spec fn reaches(
    parent: Seq<Seq<char>>,
    command: CommandView,
    n: nat,
    path: Seq<Seq<char>>,
) -> bool {
    parent.is_prefix_of(path) && node_within(command, path.skip(parent.len() as int), n) is Some
}

/// Writing the metadata of subcommand `n` over what the first `n`
/// subcommands gave is what the first `n + 1` subcommands give.
pub proof fn lemma_overlay_step(
    map: Map<Seq<Seq<char>>, Seq<ArgMetadataView>>,
    parent: Seq<Seq<char>>,
    command: CommandView,
    n: nat,
)
    requires
        n < command.subcommands.len(),
    ensures
        overlay(
            overlay(map, parent, command, n),
            parent.push(command.name),
            command.subcommands[n as int],
            command.subcommands[n as int].subcommands.len(),
        ) == overlay(map, parent, command, n + 1),
{
    let own = parent.push(command.name);
    let child = command.subcommands[n as int];
    let width = child.subcommands.len();
    let inner = overlay(map, parent, command, n);
    let left = overlay(inner, own, child, width);
    let right = overlay(map, parent, command, n + 1);
    assert forall|path: Seq<Seq<char>>|
        reaches(own, child, width, path) == (parent.is_prefix_of(path) && path.len()
            >= parent.len() + 2 && path[parent.len() as int] == command.name && node_at(
            child,
            path.skip(parent.len() as int).drop_first(),
        ) is Some) by {
        let rest = path.skip(parent.len() as int);
        if own.is_prefix_of(path) {
            assert(parent.is_prefix_of(path));
            assert(path[parent.len() as int] == own[parent.len() as int]);
        }
        if parent.is_prefix_of(path) && path.len() >= parent.len() + 2 && path[parent.len() as int]
            == command.name {
            assert(path.skip(own.len() as int) =~= rest.drop_first());
        }
    }
    assert forall|path: Seq<Seq<char>>|
        left.contains_key(path) == #[trigger] right.contains_key(path) by {}
    assert forall|path: Seq<Seq<char>>| #[trigger] left.contains_key(path) implies left[path]
        == right[path] by {
        let rest = path.skip(parent.len() as int);
        if reaches(own, child, width, path) {
            assert(path.skip(own.len() as int) =~= rest.drop_first());
        }
    }
}

/// A copy of `path`.
pub fn clone_path(path: &Vec<String>) -> (copy: Vec<String>)
    ensures
        string_views(copy@) == string_views(path@),
{
    let mut copy: Vec<String> = Vec::new();
    let mut i: usize = 0;
    while i < path.len()
        invariant
            i <= path.len(),
            copy@.len() == i,
            forall|k: int| 0 <= k < i ==> copy@[k]@ == path@[k]@,
        decreases path.len() - i,
    {
        copy.push(path[i].clone());
        i += 1;
    }
    copy
}

/// The metadata of the arguments of `command`, in declaration order.
pub fn command_arg_metadata(command: &clap::Command) -> (result: Result<
    Vec<ArgMetadata>,
    MetadataError,
>)
    ensures
        match result {
            Ok(list) => args_supported(command_view(*command).args) && metadata_views(list@)
                == arg_metadata(command_view(*command).args),
            Err(_) => !args_supported(command_view(*command).args),
        },
{
    let args = command_get_arguments(command);
    let ghost views = command_view(*command).args;
    let mut list: Vec<ArgMetadata> = Vec::new();
    let mut i: usize = 0;
    while i < args.len()
        invariant
            i <= args.len(),
            views == command_view(*command).args,
            args@.len() == views.len(),
            forall|k: int| 0 <= k < args@.len() ==> arg_view(*#[trigger] args@[k]) == views[k],
            list@.len() == i,
            forall|k: int| 0 <= k < i ==> (#[trigger] views[k]).action is Some,
            forall|k: int|
                0 <= k < i ==> (#[trigger] list@[k])@ == (ArgMetadataView {
                    id: views[k].id,
                    action: views[k].action->0,
                }),
        decreases args.len() - i,
    {
        let arg = args[i];
        let id = arg_get_id(arg).to_owned();
        match arg_get_action(arg) {
            Some(action) => {
                list.push(ArgMetadata { id, action });
            },
            None => {
                return Err(MetadataError::UnsupportedAction);
            },
        }
        i += 1;
    }
    Ok(list)
}

/// Writes into `data` the metadata of `command` and of every command below
/// it, each under its path from `parent_command_path` on.
pub fn build_arg_metadata(
    data: &mut MetadataMap,
    parent_command_path: &Vec<String>,
    command: &clap::Command,
) -> (result: Result<(), MetadataError>)
    ensures
        match result {
            Ok(_) => supported(command_view(*command)) && final(data)@ == overlay(
                old(data)@,
                string_views(parent_command_path@),
                command_view(*command),
                command_view(*command).subcommands.len(),
            ),
            Err(_) => !supported(command_view(*command)),
        },
    decreases command_view(*command),
{
    let ghost view = command_view(*command);
    let ghost parent = string_views(parent_command_path@);
    let ghost before = data@;
    let mut command_path = clone_path(parent_command_path);
    command_path.push(command_get_name(command).to_owned());
    assert(string_views(command_path@) =~= parent.push(view.name));
    let metadata = command_arg_metadata(command)?;
    data.insert(clone_path(&command_path), metadata);
    proof {
        let own = parent.push(view.name);
        assert forall|path: Seq<Seq<char>>| reaches(parent, view, 0, path) == (path == own) by {
            if reaches(parent, view, 0, path) {
                assert(path =~= own);
            }
        }
    }
    let subcommands = command_get_subcommands(command);
    let mut k: usize = 0;
    while k < subcommands.len()
        invariant
            k <= subcommands.len(),
            view == command_view(*command),
            subcommands@.len() == view.subcommands.len(),
            forall|j: int|
                0 <= j < subcommands@.len() ==> command_view(*#[trigger] subcommands@[j])
                    == view.subcommands[j],
            args_supported(view.args),
            forall|j: int| 0 <= j < k ==> supported(#[trigger] view.subcommands[j]),
            string_views(command_path@) == parent.push(view.name),
            data@ == overlay(before, parent, view, k as nat),
        decreases subcommands.len() - k,
    {
        let subcommand = subcommands[k];
        match build_arg_metadata(data, &command_path, subcommand) {
            Ok(_) => {},
            Err(error) => {
                return Err(error);
            },
        }
        proof {
            lemma_overlay_step(before, parent, view, k as nat);
        }
        k += 1;
    }
    Ok(())
}

/// The metadata of a parser: for every command that can be reached in
/// `command`, by its path from the root, the identifiers and actions of
/// its own arguments in declaration order. There is none where an argument
/// has an action that prints help or the version.
pub fn extract_arg_metadata(command: &clap::Command) -> (result: Result<
    MetadataMap,
    MetadataError,
>)
    ensures
        match result {
            Ok(data) => supported(command_view(*command)) && data@ == metadata_map(
                command_view(*command),
            ),
            Err(_) => !supported(command_view(*command)),
        },
{
    let mut data = MetadataMap::new();
    let root: Vec<String> = Vec::new();
    build_arg_metadata(&mut data, &root, command)?;
    proof {
        let view = command_view(*command);
        let empty = Map::<Seq<Seq<char>>, Seq<ArgMetadataView>>::empty();
        assert(string_views(root@) =~= Seq::<Seq<char>>::empty());
        assert forall|path: Seq<Seq<char>>|
            reaches(Seq::empty(), view, view.subcommands.len(), path) == (node_at(view, path)
                is Some) by {
            assert(path.skip(0) =~= path);
        }
        assert forall|path: Seq<Seq<char>>| #[trigger]
            metadata_map(view).contains_key(path) implies overlay(
            empty,
            Seq::empty(),
            view,
            view.subcommands.len(),
        )[path] == metadata_map(view)[path] by {
            assert(path.skip(0) =~= path);
        }
    }
    Ok(data)
}

} // verus!
