//! What the command line takes, and what it asks for.

use vstd::prelude::*;

use crate::git::{Place, WorkPath};
use crate::text::{
    concat2, number_of, owned, parse_number, same_text, string_of, strip_prefix, texts,
};

pub mod definition;

pub use crate::cli::definition::localized_command;

verus! {

broadcast use crate::text::lemma_texts_push;

/// How many commits are offered where nothing else is said.
pub const DEFAULT_COMMIT_LIMIT: usize = 1000;

/// What an argument takes.
#[derive(Debug, Clone, Copy, PartialEq, Eq)]
pub enum ArgKind {
    /// Nothing: it is there or not.
    Flag,
    /// A text, called so in the help.
    Value(&'static str),
    /// A number, called so in the help. Without it the default limit holds.
    Number(&'static str),
    /// It is a text that stands for itself, and is needed.
    Operand(&'static str),
    /// It is a path that stands for itself, and is needed. A path need not be text.
    Path(&'static str),
}

/// The contents of an [`ArgKind`].
pub enum KindView {
    Flag,
    Value(Seq<char>),
    Number(Seq<char>),
    Operand(Seq<char>),
    Path(Seq<char>),
}

impl View for ArgKind {
    type V = KindView;

    open spec fn view(&self) -> KindView {
        match *self {
            ArgKind::Flag => KindView::Flag,
            ArgKind::Value(name) => KindView::Value(name@),
            ArgKind::Number(name) => KindView::Number(name@),
            ArgKind::Operand(name) => KindView::Operand(name@),
            ArgKind::Path(name) => KindView::Path(name@),
        }
    }
}

/// An argument of a command. Its long spelling is its name with hyphens for underscores.
#[derive(Debug, PartialEq, Eq)]
pub struct ArgSpec {
    pub kind: ArgKind,
    pub id: &'static str,
    pub short: Option<char>,
    /// The arguments that it excludes.
    pub conflicts: Vec<&'static str>,
    pub help: &'static str,
}

/// The contents of an [`ArgSpec`].
#[verifier::ext_equal]
pub struct ArgView {
    pub kind: KindView,
    pub id: Seq<char>,
    pub short: Option<char>,
    pub conflicts: Seq<Seq<char>>,
    pub help: Seq<char>,
}

/// The contents of each of several names.
pub open spec fn names_of(names: Seq<&'static str>) -> Seq<Seq<char>> {
    names.map_values(|name: &'static str| name@)
}

impl View for ArgSpec {
    type V = ArgView;

    open spec fn view(&self) -> ArgView {
        ArgView {
            kind: self.kind@,
            id: self.id@,
            short: self.short,
            conflicts: names_of(self.conflicts@),
            help: self.help@,
        }
    }
}

/// An argument with the given contents.
pub open spec fn arg_view(
    kind: KindView,
    id: Seq<char>,
    short: Option<char>,
    conflicts: Seq<Seq<char>>,
    help: Seq<char>,
) -> ArgView {
    ArgView { kind, id, short, conflicts, help }
}

/// Builds an argument.
pub fn arg(
    kind: ArgKind,
    id: &'static str,
    short: Option<char>,
    conflicts: &[&'static str],
    help: &'static str,
) -> (arg: ArgSpec)
    ensures
        arg@ == arg_view(kind@, id@, short, names_of(conflicts@), help@),
{
    let mut names: Vec<&'static str> = Vec::new();
    let mut i: usize = 0;
    while i < conflicts.len()
        invariant
            i <= conflicts@.len(),
            names@ == conflicts@.take(i as int),
        decreases conflicts@.len() - i,
    {
        names.push(conflicts[i]);
        i += 1;
        assert(names@ =~= conflicts@.take(i as int));
    }
    assert(names@ =~= conflicts@);
    ArgSpec { kind, id, short, conflicts: names, help }
}

/// The contents of several arguments.
pub open spec fn arg_views(args: Seq<ArgSpec>) -> Seq<ArgView> {
    args.map_values(|arg: ArgSpec| arg@)
}

/// What a command does where no command below it is given.
#[derive(Debug, Clone, Copy, PartialEq, Eq, Structural)]
pub enum Bare {
    Runs,
    /// It is refused, and the help is shown.
    ShowsHelp,
}

/// A command below another.
#[derive(Debug, PartialEq, Eq)]
pub struct SubcommandSpec {
    pub name: &'static str,
    pub about: &'static str,
    pub args: Vec<ArgSpec>,
}

/// The contents of a [`SubcommandSpec`].
#[verifier::ext_equal]
pub struct SubcommandView {
    pub name: Seq<char>,
    pub about: Seq<char>,
    pub args: Seq<ArgView>,
}

impl View for SubcommandSpec {
    type V = SubcommandView;

    open spec fn view(&self) -> SubcommandView {
        SubcommandView { name: self.name@, about: self.about@, args: arg_views(self.args@) }
    }
}

/// The contents of several commands below another.
pub open spec fn subcommand_views(commands: Seq<SubcommandSpec>) -> Seq<SubcommandView> {
    commands.map_values(|command: SubcommandSpec| command@)
}

/// A command.
#[derive(Debug, PartialEq, Eq)]
pub struct CommandSpec {
    pub name: &'static str,
    pub about: &'static str,
    pub args: Vec<ArgSpec>,
    pub subcommands: Vec<SubcommandSpec>,
    /// Whether its own arguments exclude the commands below it.
    pub exclusive: bool,
    pub bare: Bare,
}

/// The contents of a [`CommandSpec`].
#[verifier::ext_equal]
pub struct CommandView {
    pub name: Seq<char>,
    pub about: Seq<char>,
    pub args: Seq<ArgView>,
    pub subcommands: Seq<SubcommandView>,
    pub exclusive: bool,
    pub bare: Bare,
}

impl View for CommandSpec {
    type V = CommandView;

    open spec fn view(&self) -> CommandView {
        CommandView {
            name: self.name@,
            about: self.about@,
            args: arg_views(self.args@),
            subcommands: subcommand_views(self.subcommands@),
            exclusive: self.exclusive,
            bare: self.bare,
        }
    }
}

/// The contents of several commands.
pub open spec fn command_views(commands: Seq<CommandSpec>) -> Seq<CommandView> {
    commands.map_values(|command: CommandSpec| command@)
}

/// The whole command line. Without a command it is refused, and the help is shown. Every
/// command takes `--lang`.
#[derive(Debug, PartialEq, Eq)]
pub struct Definition {
    pub about: &'static str,
    pub lang_help: &'static str,
    pub commands: Vec<CommandSpec>,
}

/// The contents of a [`Definition`].
#[verifier::ext_equal]
pub struct DefinitionView {
    pub about: Seq<char>,
    pub lang_help: Seq<char>,
    pub commands: Seq<CommandView>,
}

impl View for Definition {
    type V = DefinitionView;

    open spec fn view(&self) -> DefinitionView {
        DefinitionView {
            about: self.about@,
            lang_help: self.lang_help@,
            commands: command_views(self.commands@),
        }
    }
}

/// What `--lang` takes.
#[derive(Debug, Clone, Copy, PartialEq, Eq, Structural)]
pub enum LangOption {
    Ja,
    En,
    /// From the locale.
    Auto,
}

impl LangOption {
    pub open spec fn spelling_text(self) -> Seq<char> {
        match self {
            LangOption::Ja => "ja"@,
            LangOption::En => "en"@,
            LangOption::Auto => "auto"@,
        }
    }

    /// How it is spelled.
    pub fn spelling(self) -> (text: &'static str)
        ensures
            text@ == self.spelling_text(),
    {
        match self {
            LangOption::Ja => "ja",
            LangOption::En => "en",
            LangOption::Auto => "auto",
        }
    }

    /// What is spelled so.
    pub open spec fn spelled(text: Seq<char>) -> Option<LangOption> {
        if text == "ja"@ {
            Some(LangOption::Ja)
        } else if text == "en"@ {
            Some(LangOption::En)
        } else if text == "auto"@ {
            Some(LangOption::Auto)
        } else {
            None
        }
    }

    /// Reads the spelling.
    pub fn from_spelling(text: &str) -> (option: Option<LangOption>)
        ensures
            option == LangOption::spelled(text@),
    {
        if same_text(text, "ja") {
            Some(LangOption::Ja)
        } else if same_text(text, "en") {
            Some(LangOption::En)
        } else if same_text(text, "auto") {
            Some(LangOption::Auto)
        } else {
            None
        }
    }
}

/// What is spelled out is read back.
pub proof fn law_a_language_is_read_back(option: LangOption)
    ensures
        LangOption::spelled(option.spelling_text()) == Some(option),
{
    reveal_strlit("ja");
    reveal_strlit("en");
    reveal_strlit("auto");
    assert("ja"@.len() == 2);
    assert("ja"@[0] == 'j');
    assert("en"@.len() == 2);
    assert("en"@[0] == 'e');
    assert("auto"@.len() == 4);
}

/// A whole command line.
#[derive(Debug, PartialEq, Eq)]
pub struct Cli {
    pub lang: Option<LangOption>,
    pub command: Command,
}

/// The commands of `gz`.
#[derive(Debug, PartialEq, Eq)]
#[allow(inconsistent_fields)]
pub enum Command {
    Branch { all: bool, command: Option<BranchCommand> },
    Log { limit: usize, action: bool },
    CherryPick { branch: Option<String> },
    Restore { source: Option<String>, staged: bool },
    Add,
    Stash { command: StashCommand },
    Tag { switch: bool, diff: bool },
    Reflog { restore: Option<String>, action: bool },
    Commit { message: Option<String> },
    Fixup { squash: bool },
    Merge { no_ff: bool, squash: bool, ff_only: bool },
    Rebase,
    Revert { no_edit: bool },
    Status,
    Diff { staged: bool, head: bool, upstream: bool, branch: bool, commit: bool },
    Fetch { prune: bool, siblings: bool },
    Pull,
    Sync { rebase: bool, merge: bool },
    Worktree { command: Option<WorktreeCommand> },
}

/// The commands of `gz branch`.
#[derive(Debug, PartialEq, Eq)]
pub enum BranchCommand {
    Create { name: String, switch: bool },
    Delete { force: bool, into: Option<String> },
    Cleanup { into: Option<String> },
}

/// The commands of `gz worktree`.
#[derive(Debug, PartialEq, Eq)]
pub enum WorktreeCommand {
    Add { path: WorkPath },
    Remove,
    Prune,
}

/// The commands of `gz stash`.
#[derive(Debug, PartialEq, Eq)]
pub enum StashCommand {
    Push { message: Option<String>, include_untracked: bool },
    Apply,
    Pop,
    Drop,
}

/// The arguments that were given to a command.
#[derive(Debug, PartialEq, Eq)]
pub struct ParsedArgs {
    /// The flags that are there.
    pub flags: Vec<String>,
    /// The names of those that take a text or a number, and what they were given.
    pub values: Vec<(String, String)>,
    /// The names of those that take a path, and what they were given.
    pub paths: Vec<(String, WorkPath)>,
}

/// A command that was given.
#[derive(Debug, PartialEq, Eq)]
pub struct ParsedCommand {
    pub name: String,
    pub args: ParsedArgs,
    /// The command below it, where one was given.
    pub subcommand: Option<(String, ParsedArgs)>,
}

impl ParsedArgs {
    /// Whether a flag is there.
    pub open spec fn has(self, id: Seq<char>) -> bool {
        texts(self.flags@).contains(id)
    }

    /// What an argument was given, by the first of its name among the first `count`.
    pub open spec fn first_value(self, id: Seq<char>, count: nat) -> Option<Seq<char>>
        decreases count,
    {
        if count == 0 || count > self.values@.len() {
            None
        } else {
            match self.first_value(id, (count - 1) as nat) {
                Some(value) => Some(value),
                None => if self.values@[count - 1].0@ == id {
                    Some(self.values@[count - 1].1@)
                } else {
                    None
                },
            }
        }
    }

    /// What an argument was given.
    pub open spec fn value_of(self, id: Seq<char>) -> Option<Seq<char>> {
        self.first_value(id, self.values@.len())
    }

    /// The path that an argument was given, by the first of its name among the first `count`.
    pub open spec fn first_path(self, id: Seq<char>, count: nat) -> Option<Place>
        decreases count,
    {
        if count == 0 || count > self.paths@.len() {
            None
        } else {
            match self.first_path(id, (count - 1) as nat) {
                Some(path) => Some(path),
                None => if self.paths@[count - 1].0@ == id {
                    Some(self.paths@[count - 1].1@)
                } else {
                    None
                },
            }
        }
    }

    /// The path that an argument was given.
    pub open spec fn path_of(self, id: Seq<char>) -> Option<Place> {
        self.first_path(id, self.paths@.len())
    }

    pub fn flag(&self, id: &str) -> (there: bool)
        ensures
            there == self.has(id@),
    {
        crate::text::contains_text(&self.flags, id)
    }

    proof fn lemma_first_value(self, id: Seq<char>, count: nat, all: nat)
        requires
            count <= all <= self.values@.len(),
            self.first_value(id, count) is Some,
        ensures
            self.first_value(id, all) == self.first_value(id, count),
        decreases all,
    {
        if count < all {
            self.lemma_first_value(id, count, (all - 1) as nat);
        }
    }

    pub fn value(&self, id: &str) -> (value: Option<String>)
        ensures
            string_of(value) == self.value_of(id@),
    {
        let mut i: usize = 0;
        while i < self.values.len()
            invariant
                i <= self.values@.len(),
                self.first_value(id@, i as nat) is None,
            decreases self.values@.len() - i,
        {
            if same_text(self.values[i].0.as_str(), id) {
                proof {
                    self.lemma_first_value(id@, (i + 1) as nat, self.values@.len());
                }
                return Some(self.values[i].1.clone());
            }
            i += 1;
        }
        None
    }

    proof fn lemma_first_path(self, id: Seq<char>, count: nat, all: nat)
        requires
            count <= all <= self.paths@.len(),
            self.first_path(id, count) is Some,
        ensures
            self.first_path(id, all) == self.first_path(id, count),
        decreases all,
    {
        if count < all {
            self.lemma_first_path(id, count, (all - 1) as nat);
        }
    }

    pub fn path(&self, id: &str) -> (path: Option<WorkPath>)
        ensures
            match path {
                Some(path) => self.path_of(id@) == Some(path@),
                None => self.path_of(id@) is None,
            },
    {
        let mut i: usize = 0;
        while i < self.paths.len()
            invariant
                i <= self.paths@.len(),
                self.first_path(id@, i as nat) is None,
            decreases self.paths@.len() - i,
        {
            if same_text(self.paths[i].0.as_str(), id) {
                proof {
                    self.lemma_first_path(id@, (i + 1) as nat, self.paths@.len());
                }
                return Some(self.paths[i].1.duplicate());
            }
            i += 1;
        }
        None
    }
}

/// The limit that was given, or the default one.
pub open spec fn limit_of(value: Option<Seq<char>>) -> Option<usize> {
    match value {
        Some(text) => number_of(text),
        None => Some(DEFAULT_COMMIT_LIMIT),
    }
}

/// Reads the limit.
fn limit(args: &ParsedArgs) -> (limit: Option<usize>)
    ensures
        limit == limit_of(args.value_of("limit"@)),
{
    match args.value("limit") {
        Some(text) => parse_number(text.as_str()),
        None => Some(DEFAULT_COMMIT_LIMIT),
    }
}

/// Whether a command below `gz branch` is the one that was given.
pub open spec fn is_branch_command(command: BranchCommand, name: Seq<char>, args: ParsedArgs) -> bool {
    match command {
        BranchCommand::Create { name: branch, switch } => name == "create"@ && args.value_of(
            "name"@,
        ) == Some(branch@) && switch == args.has("switch"@),
        BranchCommand::Delete { force, into } => name == "delete"@ && force == args.has("force"@)
            && string_of(into) == args.value_of("into"@),
        BranchCommand::Cleanup { into } => name == "cleanup"@ && string_of(into) == args.value_of(
            "into"@,
        ),
    }
}

/// Whether a command below `gz branch` was given.
pub open spec fn names_branch_command(name: Seq<char>, args: ParsedArgs) -> bool {
    if name == "create"@ {
        args.value_of("name"@) is Some
    } else {
        name == "delete"@ || name == "cleanup"@
    }
}

/// Reads the command below `gz branch`.
pub fn branch_command(name: &str, args: &ParsedArgs) -> (command: Option<BranchCommand>)
    ensures
        match command {
            Some(command) => is_branch_command(command, name@, *args),
            None => !names_branch_command(name@, *args),
        },
{
    if same_text(name, "create") {
        match args.value("name") {
            Some(branch) => Some(
                BranchCommand::Create { name: branch, switch: args.flag("switch") },
            ),
            None => None,
        }
    } else if same_text(name, "delete") {
        Some(BranchCommand::Delete { force: args.flag("force"), into: args.value("into") })
    } else if same_text(name, "cleanup") {
        Some(BranchCommand::Cleanup { into: args.value("into") })
    } else {
        None
    }
}

/// Whether a command below `gz stash` is the one that was given.
pub open spec fn is_stash_command(command: StashCommand, name: Seq<char>, args: ParsedArgs) -> bool {
    match command {
        StashCommand::Push { message, include_untracked } => name == "push"@ && string_of(message)
            == args.value_of("message"@) && include_untracked == args.has("include_untracked"@),
        StashCommand::Apply => name == "apply"@,
        StashCommand::Pop => name == "pop"@,
        StashCommand::Drop => name == "drop"@,
    }
}

/// Whether a command below `gz stash` was given.
pub open spec fn names_stash_command(name: Seq<char>) -> bool {
    name == "push"@ || name == "apply"@ || name == "pop"@ || name == "drop"@
}

/// Reads the command below `gz stash`.
pub fn stash_command(name: &str, args: &ParsedArgs) -> (command: Option<StashCommand>)
    ensures
        match command {
            Some(command) => is_stash_command(command, name@, *args),
            None => !names_stash_command(name@),
        },
{
    if same_text(name, "push") {
        Some(
            StashCommand::Push {
                message: args.value("message"),
                include_untracked: args.flag("include_untracked"),
            },
        )
    } else if same_text(name, "apply") {
        Some(StashCommand::Apply)
    } else if same_text(name, "pop") {
        Some(StashCommand::Pop)
    } else if same_text(name, "drop") {
        Some(StashCommand::Drop)
    } else {
        None
    }
}

/// Whether a command below `gz worktree` is the one that was given.
pub open spec fn is_worktree_command(
    command: WorktreeCommand,
    name: Seq<char>,
    args: ParsedArgs,
) -> bool {
    match command {
        WorktreeCommand::Add { path } => name == "add"@ && args.path_of("path"@) == Some(path@),
        WorktreeCommand::Remove => name == "remove"@,
        WorktreeCommand::Prune => name == "prune"@,
    }
}

/// Whether a command below `gz worktree` was given.
pub open spec fn names_worktree_command(name: Seq<char>, args: ParsedArgs) -> bool {
    if name == "add"@ {
        args.path_of("path"@) is Some
    } else {
        name == "remove"@ || name == "prune"@
    }
}

/// Reads the command below `gz worktree`.
pub fn worktree_command(name: &str, args: &ParsedArgs) -> (command: Option<WorktreeCommand>)
    ensures
        match command {
            Some(command) => is_worktree_command(command, name@, *args),
            None => !names_worktree_command(name@, *args),
        },
{
    if same_text(name, "add") {
        match args.path("path") {
            Some(path) => Some(WorktreeCommand::Add { path }),
            None => None,
        }
    } else if same_text(name, "remove") {
        Some(WorktreeCommand::Remove)
    } else if same_text(name, "prune") {
        Some(WorktreeCommand::Prune)
    } else {
        None
    }
}

/// Whether a command is the one that was given.
pub open spec fn is_command(command: Command, parsed: ParsedCommand) -> bool {
    let name = parsed.name@;
    let args = parsed.args;
    match command {
        Command::Branch { all, command } => name == "branch"@ && all == args.has("all"@) && (
        match (command, parsed.subcommand) {
            (Some(command), Some((below, given))) => is_branch_command(command, below@, given),
            (None, None) => true,
            _ => false,
        }),
        Command::Log { limit, action } => name == "log"@ && limit_of(args.value_of("limit"@))
            == Some(limit) && action == args.has("action"@),
        Command::CherryPick { branch } => name == "cherry-pick"@ && string_of(branch)
            == args.value_of("branch"@),
        Command::Restore { source, staged } => name == "restore"@ && string_of(source)
            == args.value_of("source"@) && staged == args.has("staged"@),
        Command::Add => name == "add"@,
        Command::Stash { command } => name == "stash"@ && (parsed.subcommand matches Some(
            (below, given),
        ) && is_stash_command(command, below@, given)),
        Command::Tag { switch, diff } => name == "tag"@ && switch == args.has("switch"@) && diff
            == args.has("diff"@),
        Command::Reflog { restore, action } => name == "reflog"@ && string_of(restore)
            == args.value_of("restore"@) && action == args.has("action"@),
        Command::Commit { message } => name == "commit"@ && string_of(message) == args.value_of(
            "message"@,
        ),
        Command::Fixup { squash } => name == "fixup"@ && squash == args.has("squash"@),
        Command::Merge { no_ff, squash, ff_only } => name == "merge"@ && no_ff == args.has(
            "no_ff"@,
        ) && squash == args.has("squash"@) && ff_only == args.has("ff_only"@),
        Command::Rebase => name == "rebase"@,
        Command::Revert { no_edit } => name == "revert"@ && no_edit == args.has("no_edit"@),
        Command::Status => name == "status"@,
        Command::Diff { staged, head, upstream, branch, commit } => name == "diff"@ && staged
            == args.has("staged"@) && head == args.has("head"@) && upstream == args.has(
            "upstream"@,
        ) && branch == args.has("branch"@) && commit == args.has("commit"@),
        Command::Fetch { prune, siblings } => name == "fetch"@ && prune == args.has("prune"@)
            && siblings == args.has("siblings"@),
        Command::Pull => name == "pull"@,
        Command::Sync { rebase, merge } => name == "sync"@ && rebase == args.has("rebase"@)
            && merge == args.has("merge"@),
        Command::Worktree { command } => name == "worktree"@ && (match (
            command,
            parsed.subcommand,
        ) {
            (Some(command), Some((below, given))) => is_worktree_command(command, below@, given),
            (None, None) => true,
            _ => false,
        }),
    }
}

/// Whether a command was given.
pub open spec fn names_command(parsed: ParsedCommand) -> bool {
    let name = parsed.name@;
    if name == "branch"@ {
        match parsed.subcommand {
            Some((below, given)) => names_branch_command(below@, given),
            None => true,
        }
    } else if name == "log"@ {
        limit_of(parsed.args.value_of("limit"@)) is Some
    } else if name == "stash"@ {
        parsed.subcommand matches Some((below, _)) && names_stash_command(below@)
    } else if name == "worktree"@ {
        match parsed.subcommand {
            Some((below, given)) => names_worktree_command(below@, given),
            None => true,
        }
    } else {
        ||| name == "cherry-pick"@
        ||| name == "restore"@
        ||| name == "add"@
        ||| name == "tag"@
        ||| name == "reflog"@
        ||| name == "commit"@
        ||| name == "fixup"@
        ||| name == "merge"@
        ||| name == "rebase"@
        ||| name == "revert"@
        ||| name == "status"@
        ||| name == "diff"@
        ||| name == "fetch"@
        ||| name == "pull"@
        ||| name == "sync"@
    }
}

/// Reads a command that has commands below it, or takes a number.
fn compound_command(parsed: &ParsedCommand) -> (command: Option<Command>)
    requires
        parsed.name@ == "branch"@ || parsed.name@ == "log"@ || parsed.name@ == "stash"@
            || parsed.name@ == "worktree"@,
    ensures
        match command {
            Some(command) => is_command(command, *parsed),
            None => !names_command(*parsed),
        },
{
    let name = parsed.name.as_str();
    let args = &parsed.args;
    if same_text(name, "branch") {
        match &parsed.subcommand {
            Some((below, given)) => match branch_command(below.as_str(), given) {
                Some(command) => Some(
                    Command::Branch { all: args.flag("all"), command: Some(command) },
                ),
                None => None,
            },
            None => Some(Command::Branch { all: args.flag("all"), command: None }),
        }
    } else if same_text(name, "log") {
        match limit(args) {
            Some(limit) => Some(Command::Log { limit, action: args.flag("action") }),
            None => None,
        }
    } else if same_text(name, "stash") {
        match &parsed.subcommand {
            Some((below, given)) => match stash_command(below.as_str(), given) {
                Some(command) => Some(Command::Stash { command }),
                None => None,
            },
            None => None,
        }
    } else {
        match &parsed.subcommand {
            Some((below, given)) => match worktree_command(below.as_str(), given) {
                Some(command) => Some(Command::Worktree { command: Some(command) }),
                None => None,
            },
            None => Some(Command::Worktree { command: None }),
        }
    }
}

/// Reads a command that takes flags and texts only.
fn simple_command(name: &str, args: &ParsedArgs) -> (command: Option<Command>)
    ensures
        match command {
            Some(command) => forall|parsed: ParsedCommand|
                parsed.name@ == name@ && parsed.args == *args ==> #[trigger] is_command(
                    command,
                    parsed,
                ),
            None => forall|parsed: ParsedCommand|
                parsed.name@ == name@ && name@ != "branch"@ && name@ != "log"@ && name@
                    != "stash"@ && name@ != "worktree"@ ==> !#[trigger] names_command(parsed),
        },
{
    if same_text(name, "cherry-pick") {
        Some(Command::CherryPick { branch: args.value("branch") })
    } else if same_text(name, "restore") {
        Some(Command::Restore { source: args.value("source"), staged: args.flag("staged") })
    } else if same_text(name, "add") {
        Some(Command::Add)
    } else if same_text(name, "tag") {
        Some(Command::Tag { switch: args.flag("switch"), diff: args.flag("diff") })
    } else if same_text(name, "reflog") {
        Some(Command::Reflog { restore: args.value("restore"), action: args.flag("action") })
    } else if same_text(name, "commit") {
        Some(Command::Commit { message: args.value("message") })
    } else if same_text(name, "fixup") {
        Some(Command::Fixup { squash: args.flag("squash") })
    } else if same_text(name, "merge") {
        Some(
            Command::Merge {
                no_ff: args.flag("no_ff"),
                squash: args.flag("squash"),
                ff_only: args.flag("ff_only"),
            },
        )
    } else if same_text(name, "rebase") {
        Some(Command::Rebase)
    } else if same_text(name, "revert") {
        Some(Command::Revert { no_edit: args.flag("no_edit") })
    } else if same_text(name, "status") {
        Some(Command::Status)
    } else if same_text(name, "diff") {
        Some(
            Command::Diff {
                staged: args.flag("staged"),
                head: args.flag("head"),
                upstream: args.flag("upstream"),
                branch: args.flag("branch"),
                commit: args.flag("commit"),
            },
        )
    } else if same_text(name, "fetch") {
        Some(Command::Fetch { prune: args.flag("prune"), siblings: args.flag("siblings") })
    } else if same_text(name, "pull") {
        Some(Command::Pull)
    } else if same_text(name, "sync") {
        Some(Command::Sync { rebase: args.flag("rebase"), merge: args.flag("merge") })
    } else {
        None
    }
}

impl Command {
    /// Reads the command that was given. What names no command is none.
    pub fn from_parsed(parsed: &ParsedCommand) -> (command: Option<Command>)
        ensures
            match command {
                Some(command) => is_command(command, *parsed),
                None => !names_command(*parsed),
            },
    {
        let name = parsed.name.as_str();
        if same_text(name, "branch") || same_text(name, "log") || same_text(name, "stash")
            || same_text(name, "worktree") {
            compound_command(parsed)
        } else {
            simple_command(name, &parsed.args)
        }
    }
}

impl Cli {
    /// Reads a command line: the language, where one was given, and the command.
    pub fn from_parsed(lang: Option<&str>, parsed: &ParsedCommand) -> (cli: Option<Cli>)
        ensures
            ({
                let known = match lang {
                    Some(text) => LangOption::spelled(text@),
                    None => None,
                };
                match cli {
                    Some(cli) => {
                        &&& cli.lang == known
                        &&& lang is Some ==> known is Some
                        &&& is_command(cli.command, *parsed)
                    },
                    None => (lang is Some && known is None) || !names_command(*parsed),
                }
            }),
    {
        let lang = match lang {
            Some(text) => match LangOption::from_spelling(text) {
                Some(option) => Some(option),
                None => {
                    return None;
                },
            },
            None => None,
        };
        match Command::from_parsed(parsed) {
            Some(command) => Some(Cli { lang, command }),
            None => None,
        }
    }
}

/// What introduces the language.
pub const LANG_OPTION: &'static str = "--lang";

/// What ends the options.
pub const TERMINATOR: &'static str = "--";

/// The language that words ask for from some place on, in either spelling, up to where the
/// options end.
pub open spec fn lang_from(words: Seq<Seq<char>>, from: int) -> Option<Seq<char>>
    decreases words.len() - from,
{
    if from < 0 || from >= words.len() || words[from] == TERMINATOR@ {
        None
    } else if words[from] == LANG_OPTION@ {
        if from + 1 < words.len() {
            Some(words[from + 1])
        } else {
            None
        }
    } else if (LANG_OPTION@ + "="@).is_prefix_of(words[from]) {
        Some(words[from].skip((LANG_OPTION@ + "="@).len() as int))
    } else {
        lang_from(words, from + 1)
    }
}

/// Looks for the language before anything is parsed: the help and the complaints of the
/// parser are written in it.
pub fn scan_lang_flag(words: &Vec<String>) -> (lang: Option<String>)
    ensures
        string_of(lang) == lang_from(texts(words@), 1),
{
    let prefix = concat2(LANG_OPTION, "=");
    let mut i: usize = 1;
    while i < words.len()
        invariant
            1 <= i,
            i <= words@.len() || i == 1,
            prefix@ == LANG_OPTION@ + "="@,
            lang_from(texts(words@), 1) == lang_from(texts(words@), i as int),
        decreases words@.len() - i,
    {
        let word = words[i].as_str();
        assert(texts(words@)[i as int] == word@);
        if same_text(word, TERMINATOR) {
            return None;
        }
        if same_text(word, LANG_OPTION) {
            if i + 1 < words.len() {
                assert(texts(words@)[i + 1] == words@[i + 1]@);
                return Some(owned(words[i + 1].as_str()));
            }
            return None;
        }
        if let Some(value) = strip_prefix(word, prefix.as_str()) {
            return Some(value);
        }
        i += 1;
    }
    None
}

/// Both spellings ask for the same language.
pub proof fn law_both_spellings_are_read_alike(program: Seq<char>, value: Seq<char>, rest: Seq<Seq<char>>)
    ensures
        lang_from(seq![program, LANG_OPTION@, value] + rest, 1) == Some(value),
        lang_from(seq![program, LANG_OPTION@ + "="@ + value] + rest, 1) == Some(value),
{
    reveal_strlit("--lang");
    reveal_strlit("=");
    reveal_strlit("--");
    let apart = seq![program, LANG_OPTION@, value] + rest;
    assert(apart[1] == LANG_OPTION@);
    assert(apart[2] == value);
    assert(LANG_OPTION@.len() != TERMINATOR@.len());
    let prefix = LANG_OPTION@ + "="@;
    let word = prefix + value;
    let together = seq![program, LANG_OPTION@ + "="@ + value] + rest;
    assert(together[1] == word);
    assert(word.len() > LANG_OPTION@.len());
    assert(prefix.is_prefix_of(word));
    assert(word.skip(prefix.len() as int) =~= value);
}

/// Nothing that follows the end of the options asks for a language.
pub proof fn law_nothing_is_read_behind_the_options(words: Seq<Seq<char>>, from: int, end: int)
    requires
        0 <= from <= end < words.len(),
        words[end] == TERMINATOR@,
        forall|i: int|
            from <= i < end ==> #[trigger] words[i] != LANG_OPTION@ && !(LANG_OPTION@
                + "="@).is_prefix_of(words[i]),
    ensures
        lang_from(words, from) is None,
    decreases end - from,
{
    if from < end && words[from] != TERMINATOR@ {
        law_nothing_is_read_behind_the_options(words, from + 1, end);
    }
}

/// Each flag is read from the word for it, and each value from the argument of its name: no
/// command line asks for what it does not say.
pub proof fn law_a_command_is_what_was_said(parsed: &ParsedCommand, command: Command)
    requires
        call_ensures(Command::from_parsed, (parsed,), Some(command)),
    ensures
        ({
            let name = parsed.name@;
            let flags = texts(parsed.args.flags@);
            match command {
                Command::Branch { all, .. } => name == "branch"@ && (all <==> flags.contains(
                    "all"@,
                )),
                Command::Log { action, .. } => name == "log"@ && (action <==> flags.contains(
                    "action"@,
                )),
                Command::CherryPick { .. } => name == "cherry-pick"@,
                Command::Restore { staged, .. } => name == "restore"@ && (staged <==> flags.contains(
                    "staged"@,
                )),
                Command::Add => name == "add"@,
                Command::Stash { .. } => name == "stash"@ && parsed.subcommand is Some,
                Command::Tag { switch, diff } => name == "tag"@ && (switch <==> flags.contains(
                    "switch"@,
                )) && (diff <==> flags.contains("diff"@)),
                Command::Reflog { action, .. } => name == "reflog"@ && (action <==> flags.contains(
                    "action"@,
                )),
                Command::Commit { .. } => name == "commit"@,
                Command::Fixup { squash } => name == "fixup"@ && (squash <==> flags.contains(
                    "squash"@,
                )),
                Command::Merge { no_ff, squash, ff_only } => name == "merge"@ && (no_ff
                    <==> flags.contains("no_ff"@)) && (squash <==> flags.contains("squash"@)) && (
                ff_only <==> flags.contains("ff_only"@)),
                Command::Rebase => name == "rebase"@,
                Command::Revert { no_edit } => name == "revert"@ && (no_edit <==> flags.contains(
                    "no_edit"@,
                )),
                Command::Status => name == "status"@,
                Command::Diff { staged, head, upstream, branch, commit } => name == "diff"@ && (staged
                    <==> flags.contains("staged"@)) && (head <==> flags.contains("head"@)) && (
                upstream <==> flags.contains("upstream"@)) && (branch <==> flags.contains(
                    "branch"@,
                )) && (commit <==> flags.contains("commit"@)),
                Command::Fetch { prune, siblings } => name == "fetch"@ && (prune <==> flags.contains(
                    "prune"@,
                )) && (siblings <==> flags.contains("siblings"@)),
                Command::Pull => name == "pull"@,
                Command::Sync { rebase, merge } => name == "sync"@ && (rebase <==> flags.contains(
                    "rebase"@,
                )) && (merge <==> flags.contains("merge"@)),
                Command::Worktree { .. } => name == "worktree"@,
            }
        }),
{
}

/// A value that was given once is the value that is read, whatever other arguments there are.
pub proof fn law_a_value_is_read_from_its_argument(
    args: &ParsedArgs,
    id: &str,
    at: int,
    value: Option<String>,
)
    requires
        0 <= at < args.values@.len(),
        args.values@[at].0@ == id@,
        forall|k: int| 0 <= k < at ==> (#[trigger] args.values@[k]).0@ != id@,
        call_ensures(ParsedArgs::value, (args, id), value),
    ensures
        value matches Some(text) && text@ == args.values@[at].1@,
{
    lemma_no_value_before(*args, id@, at as nat);
    args.lemma_first_value(id@, (at + 1) as nat, args.values@.len());
}

proof fn lemma_no_value_before(args: ParsedArgs, id: Seq<char>, count: nat)
    requires
        count <= args.values@.len(),
        forall|k: int| 0 <= k < count ==> (#[trigger] args.values@[k]).0@ != id,
    ensures
        args.first_value(id, count) is None,
    decreases count,
{
    if count > 0 {
        lemma_no_value_before(args, id, (count - 1) as nat);
    }
}

/// What was given reaches the command: the texts of a command line are those of its arguments.
pub proof fn law_a_command_carries_its_values(parsed: &ParsedCommand, command: Command)
    requires
        call_ensures(Command::from_parsed, (parsed,), Some(command)),
    ensures
        ({
            let args = parsed.args;
            match command {
                Command::CherryPick { branch } => string_of(branch) == args.value_of("branch"@),
                Command::Restore { source, .. } => string_of(source) == args.value_of("source"@),
                Command::Reflog { restore, .. } => string_of(restore) == args.value_of("restore"@),
                Command::Commit { message } => string_of(message) == args.value_of("message"@),
                Command::Log { limit, .. } => match args.value_of("limit"@) {
                    Some(text) => number_of(text) == Some(limit),
                    None => limit == 1000,
                },
                _ => true,
            }
        }),
{
}

/// A command below another is read from what was given for it, and never from the flags of the
/// one above.
pub proof fn law_a_command_below_is_what_was_said(
    name: &str,
    args: &ParsedArgs,
    branch: Option<BranchCommand>,
    stash: Option<StashCommand>,
    worktree: Option<WorktreeCommand>,
)
    requires
        call_ensures(branch_command, (name, args), branch),
        call_ensures(stash_command, (name, args), stash),
        call_ensures(worktree_command, (name, args), worktree),
    ensures
        match branch {
            Some(BranchCommand::Create { name: created, switch }) => name@ == "create"@
                && args.value_of("name"@) == Some(created@) && (switch <==> texts(
                args.flags@,
            ).contains("switch"@)),
            Some(BranchCommand::Delete { force, into }) => name@ == "delete"@ && (force <==> texts(
                args.flags@,
            ).contains("force"@)) && string_of(into) == args.value_of("into"@),
            Some(BranchCommand::Cleanup { into }) => name@ == "cleanup"@ && string_of(into)
                == args.value_of("into"@),
            None => name@ != "delete"@ && name@ != "cleanup"@,
        },
        match stash {
            Some(StashCommand::Push { message, include_untracked }) => name@ == "push"@
                && string_of(message) == args.value_of("message"@) && (include_untracked <==> texts(
                args.flags@,
            ).contains("include_untracked"@)),
            Some(StashCommand::Apply) => name@ == "apply"@,
            Some(StashCommand::Pop) => name@ == "pop"@,
            Some(StashCommand::Drop) => name@ == "drop"@,
            None => name@ != "push"@ && name@ != "apply"@ && name@ != "pop"@ && name@ != "drop"@,
        },
        match worktree {
            Some(WorktreeCommand::Add { path }) => name@ == "add"@ && args.path_of("path"@) == Some(
                path@,
            ),
            Some(WorktreeCommand::Remove) => name@ == "remove"@,
            Some(WorktreeCommand::Prune) => name@ == "prune"@,
            None => name@ != "remove"@ && name@ != "prune"@,
        },
{
    reveal_strlit("create");
    reveal_strlit("delete");
    reveal_strlit("cleanup");
    reveal_strlit("add");
    reveal_strlit("remove");
    reveal_strlit("prune");
    assert("create"@.len() == 6 && "create"@[0] == 'c');
    assert("delete"@.len() == 6 && "delete"@[0] == 'd');
    assert("cleanup"@.len() == 7);
    assert("add"@.len() == 3 && "remove"@.len() == 6 && "prune"@.len() == 5);
}

/// A flag is set if and only if its word is there, and a language is taken if and only if it is
/// one of the three spellings.
pub proof fn law_a_language_is_taken_by_its_spelling(
    lang: &str,
    parsed: &ParsedCommand,
    cli: Option<Cli>,
    bare: Option<Cli>,
    id: &str,
    there: bool,
)
    requires
        call_ensures(Cli::from_parsed, (Some(lang), parsed), cli),
        call_ensures(Cli::from_parsed, (None, parsed), bare),
        call_ensures(ParsedArgs::flag, (&parsed.args, id), there),
    ensures
        there <==> texts(parsed.args.flags@).contains(id@),
        bare matches Some(bare) ==> bare.lang is None,
        cli matches Some(cli) ==> (cli.lang == Some(LangOption::Ja) <==> lang@ == "ja"@) && (cli.lang
            == Some(LangOption::En) <==> lang@ == "en"@) && (cli.lang == Some(LangOption::Auto)
            <==> lang@ == "auto"@) && cli.lang is Some,
        cli is Some ==> lang@ == "ja"@ || lang@ == "en"@ || lang@ == "auto"@,
{
    reveal_strlit("ja");
    reveal_strlit("en");
    reveal_strlit("auto");
    assert("ja"@.len() == 2 && "ja"@[0] == 'j');
    assert("en"@.len() == 2 && "en"@[0] == 'e');
    assert("auto"@.len() == 4);
}

} // verus!
