//! The way out of a merge or rebase in progress.

use vstd::prelude::*;

use crate::commands::add::{add_arguments, lemma_pathspecs_of, paths_of, pathspecs_of};
use crate::commands::file_selection::{change_line, FileCandidate, RenameOrigin};
use crate::commands::{command_display, status_preview_args};
use crate::error::Error;
use crate::finder::{
    headed, item_views, items_of, plain, FinderItem, FinderOptions, ListOptions, Picker, Preview,
    PreviewSource, SelectionMode,
};
use crate::git::{pathspec_text, pathspec_texts, FileChange, GitRun, Operation};
use crate::i18n::Messages;
use crate::selection::{keys_of, missing_keys, picked, Keyed};
use crate::text::{concat4, copied, join, owned_all, same_text, texts};

verus! {

broadcast use crate::text::lemma_texts_push;

/// The key of the entry that shows the conflicts.
pub const CONFLICTS_KEY: &'static str = "conflicts";

/// The key of the entry that goes on.
pub const CONTINUE_KEY: &'static str = "continue";

/// The key of the entry that leaves a commit out.
pub const SKIP_KEY: &'static str = "skip";

/// The key of the entry that gives up.
pub const ABORT_KEY: &'static str = "abort";

/// What an entry does. What git gets is fixed with the entry, so no merge can ever be asked
/// to skip.
#[derive(Debug, PartialEq, Eq)]
pub enum MenuAction {
    /// Show the conflicts, and stage what is resolved.
    ShowConflicts,
    /// Run git at once. Nothing that was resolved is lost.
    Proceed(Vec<String>),
    /// Ask for consent, and run git with it.
    Abort(Vec<String>),
}

/// The contents of a [`MenuAction`].
pub enum Action {
    ShowConflicts,
    Proceed(Seq<Seq<char>>),
    Abort(Seq<Seq<char>>),
}

impl View for MenuAction {
    type V = Action;

    open spec fn view(&self) -> Action {
        match self {
            MenuAction::ShowConflicts => Action::ShowConflicts,
            MenuAction::Proceed(args) => Action::Proceed(texts(args@)),
            MenuAction::Abort(args) => Action::Abort(texts(args@)),
        }
    }
}

/// An entry of the menu.
#[derive(Debug, PartialEq, Eq)]
pub struct MenuEntry {
    /// What finds the entry again, in every language.
    pub key: &'static str,
    pub display: String,
    pub action: MenuAction,
}

/// The contents of a [`MenuEntry`].
pub struct Entry {
    pub key: Seq<char>,
    pub display: Seq<char>,
    pub action: Action,
}

impl View for MenuEntry {
    type V = Entry;

    open spec fn view(&self) -> Entry {
        Entry { key: self.key@, display: self.display@, action: self.action@ }
    }
}

/// The contents of several entries.
pub open spec fn entry_views(entries: Seq<MenuEntry>) -> Seq<Entry> {
    entries.map_values(|entry: MenuEntry| entry@)
}

/// The word for an operation.
pub open spec fn name_of(operation: Operation) -> Seq<char> {
    match operation {
        Operation::Merge => "merge"@,
        Operation::Rebase => "rebase"@,
    }
}

/// An entry: its line ends with the command that it runs.
pub open spec fn entry_of(key: Seq<char>, label: Seq<char>, action: Action) -> Entry {
    let display = match action {
        Action::ShowConflicts => label,
        Action::Proceed(args) => label + " ("@ + ("git "@ + join(args, " "@)) + ")"@,
        Action::Abort(args) => label + " ("@ + ("git "@ + join(args, " "@)) + ")"@,
    };
    Entry { key, display, action }
}

/// The menu of an operation. A merge is one step, so there is nothing in it to skip.
pub open spec fn menu_of(messages: Messages, operation: Operation) -> Seq<Entry> {
    let texts = messages.in_progress();
    let name = name_of(operation);
    let conflicts = entry_of(CONFLICTS_KEY@, texts.conflicts_action_text(), Action::ShowConflicts);
    match operation {
        Operation::Merge => seq![
            conflicts,
            entry_of(
                CONTINUE_KEY@,
                texts.continue_action_text(name),
                Action::Proceed(seq!["merge"@, "--continue"@]),
            ),
            entry_of(
                ABORT_KEY@,
                texts.abort_action_text(name),
                Action::Abort(seq!["merge"@, "--abort"@]),
            ),
        ],
        Operation::Rebase => seq![
            conflicts,
            entry_of(
                CONTINUE_KEY@,
                texts.continue_action_text(name),
                Action::Proceed(seq!["rebase"@, "--continue"@]),
            ),
            entry_of(
                SKIP_KEY@,
                texts.skip_action_text(),
                Action::Proceed(seq!["rebase"@, "--skip"@]),
            ),
            entry_of(
                ABORT_KEY@,
                texts.abort_action_text(name),
                Action::Abort(seq!["rebase"@, "--abort"@]),
            ),
        ],
    }
}

/// The word for an operation.
pub fn operation_name(operation: Operation) -> (name: &'static str)
    ensures
        name@ == name_of(operation),
{
    match operation {
        Operation::Merge => "merge",
        Operation::Rebase => "rebase",
    }
}

/// Two arguments.
fn two_args(command: &str, option: &str) -> (args: Vec<String>)
    ensures
        texts(args@) == seq![command@, option@],
{
    let args = owned_all(&[command, option]);
    assert(texts(args@) =~= seq![command@, option@]);
    args
}

/// Builds the menu of an operation.
pub fn menu(messages: Messages, operation: Operation) -> (entries: Vec<MenuEntry>)
    ensures
        entry_views(entries@) == menu_of(messages, operation),
{
    let name = operation_name(operation);
    let in_progress = messages.in_progress();
    let mut entries: Vec<MenuEntry> = Vec::new();
    entries.push(
        entry(
            CONFLICTS_KEY,
            in_progress.conflicts_action().to_owned(),
            MenuAction::ShowConflicts,
        ),
    );
    match operation {
        Operation::Merge => {
            entries.push(
                entry(
                    CONTINUE_KEY,
                    in_progress.continue_action(name),
                    MenuAction::Proceed(two_args("merge", "--continue")),
                ),
            );
            entries.push(
                entry(
                    ABORT_KEY,
                    in_progress.abort_action(name),
                    MenuAction::Abort(two_args("merge", "--abort")),
                ),
            );
        },
        Operation::Rebase => {
            entries.push(
                entry(
                    CONTINUE_KEY,
                    in_progress.continue_action(name),
                    MenuAction::Proceed(two_args("rebase", "--continue")),
                ),
            );
            entries.push(
                entry(
                    SKIP_KEY,
                    in_progress.skip_action().to_owned(),
                    MenuAction::Proceed(two_args("rebase", "--skip")),
                ),
            );
            entries.push(
                entry(
                    ABORT_KEY,
                    in_progress.abort_action(name),
                    MenuAction::Abort(two_args("rebase", "--abort")),
                ),
            );
        },
    }
    assert(entry_views(entries@) =~= menu_of(messages, operation));
    entries
}

/// Builds an entry. The command in its line is written from what it runs.
fn entry(key: &'static str, label: String, action: MenuAction) -> (entry: MenuEntry)
    ensures
        entry@ == entry_of(key@, label@, action@),
{
    let display = match &action {
        MenuAction::ShowConflicts => label,
        MenuAction::Proceed(args) => concat4(
            label.as_str(),
            " (",
            command_display(args).as_str(),
            ")",
        ),
        MenuAction::Abort(args) => concat4(
            label.as_str(),
            " (",
            command_display(args).as_str(),
            ")",
        ),
    };
    MenuEntry { key, display, action }
}

/// The arguments behind the preview of the menu.
pub open spec fn status_arguments() -> Seq<Seq<char>> {
    seq!["-c"@, "color.status=always"@, "status"@, "--short"@, "--branch"@]
}

/// An entry as the list shows it. Whatever the entry, the preview shows the current state.
pub fn to_item(entry: &MenuEntry) -> (item: FinderItem)
    ensures
        item@ == plain(entry.display@, entry.key@, Preview::Git(status_arguments())),
{
    FinderItem::new(
        entry.display.clone(),
        entry.key.to_owned(),
        PreviewSource::Git(status_preview_args()),
    )
}

/// Whether a list shows the menu of an operation.
pub open spec fn shows_menu(picker: Picker, messages: Messages, operation: Operation) -> bool {
    &&& item_views(picker.items@) == menu_of(messages, operation).map_values(
        |entry: Entry| plain(entry.display, entry.key, Preview::Git(status_arguments())),
    )
    &&& picker.options@ == (ListOptions {
        mode: SelectionMode::Single,
        header: None,
        preselect: Seq::empty(),
    })
}

/// What a command that merges or rebases begins with.
#[derive(Debug, PartialEq, Eq)]
pub enum Start {
    /// Nothing is under way, and the command goes on.
    Proceed,
    /// An operation is under way. Its menu is shown, and the command does nothing else.
    Resume { operation: Operation, picker: Picker },
}

/// Whether a command begins as what is under way asks for.
pub open spec fn begins(start: Start, messages: Messages, under_way: Option<Operation>) -> bool {
    match under_way {
        None => start is Proceed,
        Some(operation) => start matches Start::Resume { operation: resumed, picker } && resumed
            == operation && shows_menu(picker, messages, operation),
    }
}

/// Decides what a command that merges or rebases begins with. Nothing new is started beside an
/// operation that is not finished: the way out of that is offered before anything is picked.
pub fn start(messages: Messages, under_way: Option<Operation>) -> (start: Start)
    ensures
        begins(start, messages, under_way),
{
    match under_way {
        None => Start::Proceed,
        Some(operation) => Start::Resume { operation, picker: picker(messages, operation) },
    }
}

/// Builds the menu as a candidate list.
pub fn picker(messages: Messages, operation: Operation) -> (picker: Picker)
    ensures
        shows_menu(picker, messages, operation),
{
    let ghost all = menu_of(messages, operation).map_values(
        |entry: Entry| plain(entry.display, entry.key, Preview::Git(status_arguments())),
    );
    let entries = menu(messages, operation);
    let items = items_of(entries.as_slice(), to_item);
    proof {
        assert(entry_views(entries@).len() == entries@.len());
        assert forall|i: int| 0 <= i < items@.len() implies (#[trigger] items@[i])@ == all[i] by {
            assert(entry_views(entries@)[i] == entries@[i]@);
        }
        assert(item_views(items@) =~= all);
    }
    Picker { items, options: FinderOptions::new(SelectionMode::Single) }
}

/// Finds the entry of a picked key. A key that is not in the menu is an error.
pub fn resolve_entry<'a>(messages: Messages, entries: &'a [MenuEntry], selected: &str) -> (entry: Result<
    &'a MenuEntry,
    Error,
>)
    ensures
        match entry {
            Ok(entry) => exists|i: int|
                0 <= i < entries@.len() && *entry == #[trigger] entries@[i] && entry.key@
                    == selected@ && forall|k: int|
                    0 <= k < i ==> (#[trigger] entries@[k]).key@ != selected@,
            Err(error) => {
                &&& forall|k: int|
                    0 <= k < entries@.len() ==> (#[trigger] entries@[k]).key@ != selected@
                &&& error.says(messages.in_progress().menu_selection_not_found_text(selected@))
            },
        },
{
    let mut i: usize = 0;
    while i < entries.len()
        invariant
            i <= entries@.len(),
            forall|k: int| 0 <= k < i ==> (#[trigger] entries@[k]).key@ != selected@,
        decreases entries@.len() - i,
    {
        if same_text(entries[i].key, selected) {
            return Ok(&entries[i]);
        }
        i += 1;
    }
    Err(Error::Explained(messages.in_progress().menu_selection_not_found(selected)))
}

/// What a picked entry comes to.
#[derive(Debug, PartialEq, Eq)]
pub enum Step {
    /// The conflicts are shown.
    ShowConflicts,
    /// Git runs.
    Run(GitRun),
    /// Git runs with consent.
    Confirm { header: String, target: String, run: GitRun },
}

/// Whether a run is what `execute` makes of arguments.
pub open spec fn executes(run: GitRun, messages: Messages, args: Seq<Seq<char>>) -> bool {
    run.is(args, messages.common().command_run_failed_text("git "@ + join(args, " "@)))
}

/// Whether a step does what an action says.
pub open spec fn steps(
    step: Step,
    messages: Messages,
    operation: Operation,
    action: Action,
) -> bool {
    match action {
        Action::ShowConflicts => step is ShowConflicts,
        Action::Proceed(args) => step matches Step::Run(run) && executes(run, messages, args),
        Action::Abort(args) => step matches Step::Confirm { header, target, run } && header@
            == messages.in_progress().abort_confirmation_text(name_of(operation)) && target@
            == "git "@ + join(args, " "@) && executes(run, messages, args),
    }
}

/// Decides about the picked entry. A key that is not in the menu is an error.
pub fn run_on_selection(messages: Messages, operation: Operation, selected: &str) -> (step: Result<
    Step,
    Error,
>)
    ensures
        match step {
            Ok(step) => exists|i: int|
                0 <= i < menu_of(messages, operation).len() && (#[trigger] menu_of(
                    messages,
                    operation,
                )[i]).key == selected@ && steps(
                    step,
                    messages,
                    operation,
                    menu_of(messages, operation)[i].action,
                ),
            Err(error) => {
                &&& forall|i: int|
                    0 <= i < menu_of(messages, operation).len() ==> (#[trigger] menu_of(
                        messages,
                        operation,
                    )[i]).key != selected@
                &&& error.says(messages.in_progress().menu_selection_not_found_text(selected@))
            },
        },
{
    let entries = menu(messages, operation);
    assert(entry_views(entries@).len() == entries@.len());
    match resolve_entry(messages, entries.as_slice(), selected) {
        Ok(entry) => {
            let step = match &entry.action {
                MenuAction::ShowConflicts => Step::ShowConflicts,
                MenuAction::Proceed(args) => Step::Run(execute(messages, args)),
                MenuAction::Abort(args) => abort(messages, operation, args),
            };
            proof {
                let i = choose|i: int|
                    0 <= i < entries@.len() && *entry == #[trigger] entries@[i] && entry.key@
                        == selected@;
                assert(entry_views(entries@)[i] == entry@);
                assert(menu_of(messages, operation)[i].key == selected@);
            }
            Ok(step)
        },
        Err(error) => {
            proof {
                assert forall|i: int| 0 <= i < menu_of(messages, operation).len() implies (
                #[trigger] menu_of(messages, operation)[i]).key != selected@ by {
                    assert(entry_views(entries@)[i] == entries@[i]@);
                }
            }
            Err(error)
        },
    }
}

/// The run of a continue or skip.
fn execute(messages: Messages, args: &Vec<String>) -> (run: GitRun)
    ensures
        executes(run, messages, texts(args@)),
{
    let command = command_display(args);
    GitRun {
        args: copied(args),
        failure: messages.common().command_run_failed(command.as_str()),
    }
}

/// The step of an abort: what was resolved is lost, so consent is asked for first.
fn abort(messages: Messages, operation: Operation, args: &Vec<String>) -> (step: Step)
    ensures
        steps(step, messages, operation, Action::Abort(texts(args@))),
{
    Step::Confirm {
        header: abort_header(messages, operation),
        target: command_display(args),
        run: execute(messages, args),
    }
}

/// What an abort loses.
pub fn abort_header(messages: Messages, operation: Operation) -> (header: String)
    ensures
        header@ == messages.in_progress().abort_confirmation_text(name_of(operation)),
{
    messages.in_progress().abort_confirmation(operation_name(operation))
}

/// The arguments that show the conflict of a file.
pub open spec fn conflict_arguments(path: Seq<char>) -> Seq<Seq<char>> {
    seq!["diff"@, "--color=always"@, "--"@, pathspec_text(path)]
}

/// Builds the list of conflicted files. There being none is said before anything is picked.
pub fn conflicts_picker(messages: Messages, conflicts: &[FileChange]) -> (picker: Result<
    Picker,
    Error,
>)
    ensures
        match picker {
            Ok(picker) => {
                &&& conflicts@.len() > 0
                &&& item_views(picker.items@) == conflicts@.map_values(
                    |change: FileChange|
                        plain(
                            change_line(change),
                            change.path@,
                            Preview::Git(conflict_arguments(change.path@)),
                        ),
                )
                &&& picker.options@ == headed(
                    SelectionMode::Multi,
                    messages.in_progress().conflicts_header_text(),
                )
            },
            Err(error) => conflicts@.len() == 0 && error.says(
                messages.in_progress().no_conflicts_text(),
            ),
        },
{
    if conflicts.len() == 0 {
        return Err(Error::Explained(messages.in_progress().no_conflicts().to_owned()));
    }
    let ghost all = conflicts@.map_values(
        |change: FileChange|
            plain(
                change_line(change),
                change.path@,
                Preview::Git(conflict_arguments(change.path@)),
            ),
    );
    let item = |change: &FileChange| -> (item: FinderItem)
        ensures
            item@ == plain(
                change_line(*change),
                change.path@,
                Preview::Git(conflict_arguments(change.path@)),
            ),
        { to_conflict_item(&to_candidate(change)) };
    let items = items_of(conflicts, item);
    assert(item_views(items@) =~= all);
    let options = FinderOptions::new(SelectionMode::Multi).with_header(
        messages.in_progress().conflicts_header().to_owned(),
    );
    Ok(Picker { items, options })
}

/// Staging conflicted files records them as resolved.
pub open spec fn resolves(run: GitRun, messages: Messages, changes: Seq<FileChange>) -> bool {
    run.is(
        add_arguments(paths_of(changes, RenameOrigin::Exclude)),
        messages.in_progress().stage_failed_text(),
    )
}

/// The run that stages the picked files. A picked path that was not offered is an error.
pub fn stage_resolved(messages: Messages, conflicts: &[FileChange], selected: &Vec<String>) -> (run:
    Result<GitRun, Error>)
    ensures
        match run {
            Ok(run) => {
                &&& missing_keys(keys_of(conflicts@), texts(selected@)).len() == 0
                &&& resolves(run, messages, picked(conflicts@, texts(selected@)))
            },
            Err(error) => {
                &&& missing_keys(keys_of(conflicts@), texts(selected@)).len() > 0
                &&& error.says(
                    messages.file_selection().selection_not_found_text(
                        join(missing_keys(keys_of(conflicts@), texts(selected@)), ", "@),
                    ),
                )
            },
        },
{
    match crate::commands::file_selection::resolve_changes(messages, conflicts, selected) {
        Ok(list) => {
            let paths = crate::commands::add::collect_paths(
                list.as_slice(),
                RenameOrigin::Exclude,
            );
            Ok(
                GitRun {
                    args: add_args(&paths),
                    failure: messages.in_progress().stage_failed().to_owned(),
                },
            )
        },
        Err(error) => Err(error),
    }
}

/// A conflicted file as a candidate. Git reports no renames among those.
pub fn to_candidate(change: &FileChange) -> (candidate: FileCandidate)
    ensures
        candidate.display@ == change_line(*change),
        candidate.key@ == change.path@,
        texts(candidate.paths@) == seq![change.path@],
{
    FileCandidate::from_change(change, RenameOrigin::Exclude)
}

/// A conflicted file as the list shows it.
pub fn to_conflict_item(candidate: &FileCandidate) -> (item: FinderItem)
    ensures
        item@ == plain(
            candidate.display@,
            candidate.key@,
            Preview::Git(conflict_arguments(candidate.key@)),
        ),
{
    FinderItem::new(
        candidate.display.clone(),
        candidate.key.clone(),
        PreviewSource::Git(preview_args(candidate.key.as_str())),
    )
}

/// The arguments that show the conflict of a file, markers and all.
pub fn preview_args(path: &str) -> (args: Vec<String>)
    ensures
        texts(args@) == conflict_arguments(path@),
{
    crate::commands::add::preview_args(path)
}

/// The arguments that stage paths.
pub fn add_args(paths: &Vec<String>) -> (args: Vec<String>)
    ensures
        texts(args@) == add_arguments(texts(paths@)),
{
    crate::commands::add::add_args(paths)
}

proof fn lemma_keys_differ()
    ensures
        CONFLICTS_KEY@ != CONTINUE_KEY@,
        CONFLICTS_KEY@ != SKIP_KEY@,
        CONFLICTS_KEY@ != ABORT_KEY@,
        CONTINUE_KEY@ != SKIP_KEY@,
        CONTINUE_KEY@ != ABORT_KEY@,
        SKIP_KEY@ != ABORT_KEY@,
{
    reveal_strlit("conflicts");
    reveal_strlit("continue");
    reveal_strlit("skip");
    reveal_strlit("abort");
    assert(CONFLICTS_KEY@.len() == 9);
    assert(CONTINUE_KEY@.len() == 8);
    assert(SKIP_KEY@.len() == 4);
    assert(ABORT_KEY@.len() == 5);
}

/// A merge cannot be skipped: its menu has no such key.
pub proof fn law_a_merge_has_no_skip(messages: Messages)
    ensures
        forall|i: int|
            0 <= i < menu_of(messages, Operation::Merge).len() ==> (#[trigger] menu_of(
                messages,
                Operation::Merge,
            )[i]).key != SKIP_KEY@,
{
    lemma_keys_differ();
}

/// A key leads to the same action in every language.
pub proof fn law_keys_do_not_depend_on_the_language(
    a: Messages,
    b: Messages,
    operation: Operation,
    i: int,
)
    requires
        0 <= i < menu_of(a, operation).len(),
    ensures
        menu_of(b, operation).len() == menu_of(a, operation).len(),
        menu_of(b, operation)[i].key == menu_of(a, operation)[i].key,
        menu_of(b, operation)[i].action == menu_of(a, operation)[i].action,
{
}

/// No two entries of a menu share a key.
pub proof fn law_menu_keys_are_distinct(messages: Messages, operation: Operation, i: int, j: int)
    requires
        0 <= i < j < menu_of(messages, operation).len(),
    ensures
        menu_of(messages, operation)[i].key != menu_of(messages, operation)[j].key,
{
    lemma_keys_differ();
}

/// Only giving up asks for consent, and every command belongs to the operation.
pub proof fn law_commands_belong_to_the_operation(messages: Messages, operation: Operation, i: int)
    requires
        0 <= i < menu_of(messages, operation).len(),
    ensures
        match menu_of(messages, operation)[i].action {
            Action::ShowConflicts => true,
            Action::Proceed(args) => args.len() == 2 && args[0] == name_of(operation) && args[1]
                != "--abort"@,
            Action::Abort(args) => args == seq![name_of(operation), "--abort"@],
        },
{
    reveal_strlit("--continue");
    reveal_strlit("--skip");
    reveal_strlit("--abort");
    assert("--continue"@.len() == 10);
    assert("--skip"@.len() == 6);
    assert("--abort"@.len() == 7);
}

/// While an operation is not finished, its menu is all that a command begins with, and whatever
/// is picked there shows the conflicts or goes to that operation: nothing else starts.
pub proof fn law_an_unfinished_operation_comes_first(
    messages: Messages,
    operation: Operation,
    start: Start,
    i: int,
    step: Step,
)
    requires
        begins(start, messages, Some(operation)),
        0 <= i < menu_of(messages, operation).len(),
        steps(step, messages, operation, menu_of(messages, operation)[i].action),
    ensures
        start matches Start::Resume { operation: resumed, picker } && resumed == operation
            && shows_menu(picker, messages, operation),
        match step {
            Step::ShowConflicts => true,
            Step::Run(run) => texts(run.args@)[0] == name_of(operation),
            Step::Confirm { run, .. } => texts(run.args@)[0] == name_of(operation),
        },
{
    law_commands_belong_to_the_operation(messages, operation, i);
}

/// What is picked is what git is told: the option is the key behind two hyphens, and the command
/// is the operation that is under way. Only giving up asks first.
pub proof fn law_the_key_is_the_option(
    messages: Messages,
    operation: Operation,
    entries: Vec<MenuEntry>,
    i: int,
)
    requires
        0 <= i < entries@.len(),
        call_ensures(menu, (messages, operation), entries),
    ensures
        match entries@[i].action {
            MenuAction::ShowConflicts => entries@[i].key@ == "conflicts"@,
            MenuAction::Proceed(args) => {
                &&& texts(args@) == seq![name_of(operation), "--"@ + entries@[i].key@]
                &&& entries@[i].key@ == "continue"@ || entries@[i].key@ == "skip"@
            },
            MenuAction::Abort(args) => {
                &&& texts(args@) == seq![name_of(operation), "--"@ + entries@[i].key@]
                &&& entries@[i].key@ == "abort"@
            },
        },
        operation == Operation::Merge ==> name_of(operation) == "merge"@ && entries@.len() == 3,
        operation == Operation::Rebase ==> name_of(operation) == "rebase"@ && entries@.len() == 4,
{
    assert(entry_views(entries@).len() == entries@.len());
    assert(entry_views(entries@)[i] == entries@[i]@);
    reveal_strlit("--");
    reveal_strlit("continue");
    reveal_strlit("skip");
    reveal_strlit("abort");
    reveal_strlit("--continue");
    reveal_strlit("--skip");
    reveal_strlit("--abort");
    assert("--continue"@ =~= "--"@ + "continue"@);
    assert("--skip"@ =~= "--"@ + "skip"@);
    assert("--abort"@ =~= "--"@ + "abort"@);
}

/// The picked key decides: to give up asks first, to show the conflicts runs nothing, and to go
/// on or to skip runs at once.
pub proof fn law_the_picked_key_decides(
    messages: Messages,
    operation: Operation,
    selected: &str,
    step: Step,
)
    requires
        call_ensures(run_on_selection, (messages, operation, selected), Ok(step)),
    ensures
        selected@ == "conflicts"@ <==> step is ShowConflicts,
        selected@ == "abort"@ <==> step is Confirm,
        selected@ == "continue"@ || selected@ == "skip"@ <==> step is Run,
        step matches Step::Run(run) ==> texts(run.args@) == seq![name_of(operation), "--"@
            + selected@],
        step matches Step::Confirm { target, run, .. } ==> texts(run.args@) == seq![
            name_of(operation),
            "--abort"@,
        ] && target@ == "git "@ + join(texts(run.args@), " "@),
{
    lemma_keys_differ();
    let menu = menu_of(messages, operation);
    let i = choose|i: int|
        0 <= i < menu.len() && (#[trigger] menu[i]).key == selected@ && steps(
            step,
            messages,
            operation,
            menu[i].action,
        );
    assert(menu[i].key == selected@);
    reveal_strlit("--");
    reveal_strlit("continue");
    reveal_strlit("skip");
    reveal_strlit("--continue");
    reveal_strlit("--skip");
    assert("--continue"@ =~= "--"@ + "continue"@);
    assert("--skip"@ =~= "--"@ + "skip"@);
}

/// What is staged as resolved is what was picked among the conflicts: git gets their paths
/// behind the separator.
pub proof fn law_picked_conflicts_are_staged(
    messages: Messages,
    conflicts: &[FileChange],
    selected: &Vec<String>,
    run: GitRun,
)
    requires
        call_ensures(stage_resolved, (messages, conflicts, selected), Ok(run)),
    ensures
        texts(run.args@)[0] == "add"@,
        texts(run.args@)[1] == "--"@,
        forall|word: Seq<char>| #[trigger]
            texts(run.args@).skip(2).contains(word) ==> exists|path: Seq<char>| #[trigger]
                texts(selected@).contains(path) && word == ":(top,literal)"@ + path,
{
    broadcast use vstd::seq_lib::group_filter_ensures;

    let chosen = picked(conflicts@, texts(selected@));
    let words = pathspec_texts(paths_of(chosen, RenameOrigin::Exclude));
    assert(texts(run.args@).skip(2) =~= words);
    assert forall|word: Seq<char>| #[trigger]
        texts(run.args@).skip(2).contains(word) implies exists|path: Seq<char>| #[trigger]
        texts(selected@).contains(path) && word == ":(top,literal)"@ + path by {
        lemma_pathspecs_of(chosen, RenameOrigin::Exclude, word);
        let i = choose|i: int|
            0 <= i < chosen.len() && pathspecs_of(#[trigger] chosen[i], RenameOrigin::Exclude, word);
        let path = choose|path: Seq<char>| #[trigger]
            crate::commands::file_selection::change_paths(
                chosen[i],
                RenameOrigin::Exclude,
            ).contains(path) && word == pathspec_text(path);
        assert(path == chosen[i].path@);
        let pred = |change: FileChange| texts(selected@).contains(change.key_text());
        assert(pred(conflicts@.filter(pred)[i]));
        assert(texts(selected@).contains(path));
    }
}

/// A conflict is found by its path, and its preview shows that file with its markers.
pub proof fn law_a_preview_shows_its_own_conflict(candidate: &FileCandidate, item: FinderItem)
    requires
        call_ensures(to_conflict_item, (candidate,), item),
    ensures
        item.key@ == candidate.key@,
        item.display@ == candidate.display@,
        item@.preview == Preview::Git(
            seq!["diff"@, "--color=always"@, "--"@, ":(top,literal)"@ + candidate.key@],
        ),
{
    assert(item@.key == item.key@);
}

/// Of all conflicts, those that were picked are staged as resolved, and the others are not.
pub proof fn law_exactly_the_picked_conflicts_are_staged(
    messages: Messages,
    conflicts: &[FileChange],
    selected: &Vec<String>,
    run: Result<GitRun, Error>,
    path: Seq<char>,
)
    requires
        call_ensures(stage_resolved, (messages, conflicts, selected), run),
    ensures
        run is Err <==> exists|key: Seq<char>|
            texts(selected@).contains(key) && !keys_of(conflicts@).contains(key),
        run matches Ok(run) ==> (texts(run.args@).skip(2).contains(":(top,literal)"@ + path)
            <==> texts(selected@).contains(path)),
{
    crate::selection::law_selection_is_refused_for_unknown_keys(
        keys_of(conflicts@),
        texts(selected@),
    );
    if let Ok(run) = run {
        let chosen = picked(conflicts@, texts(selected@));
        crate::commands::add::lemma_picked_paths(
            conflicts@,
            texts(selected@),
            RenameOrigin::Exclude,
            path,
        );
        assert(texts(run.args@).skip(2) =~= pathspec_texts(
            paths_of(chosen, RenameOrigin::Exclude),
        ));
    }
}

/// The preview of the menu shows where things are, whatever entry is looked at.
pub proof fn law_the_menu_shows_where_things_are(entry: &MenuEntry, item: FinderItem)
    requires
        call_ensures(to_item, (entry,), item),
    ensures
        item.key@ == entry.key@,
        item.display@ == entry.display@,
        item@.preview == Preview::Git(
            seq!["-c"@, "color.status=always"@, "status"@, "--short"@, "--branch"@],
        ),
{
    assert(item@.key == item.key@);
}

/// The line of an entry says what its key does, and then the command that runs, if any.
pub proof fn law_a_line_says_what_its_key_does(
    messages: Messages,
    operation: Operation,
    entries: Vec<MenuEntry>,
    i: int,
)
    requires
        0 <= i < entries@.len(),
        call_ensures(menu, (messages, operation), entries),
    ensures
        ({
            let entry = entries@[i];
            let name = match operation {
                Operation::Merge => "merge"@,
                Operation::Rebase => "rebase"@,
            };
            let command = " ("@ + ("git "@ + join(seq![name, "--"@ + entry.key@], " "@)) + ")"@;
            &&& entry.key@ == "conflicts"@ ==> entry.display@
                == messages.in_progress().conflicts_action_text()
            &&& entry.key@ == "continue"@ ==> entry.display@
                == messages.in_progress().continue_action_text(name) + command
            &&& entry.key@ == "skip"@ ==> entry.display@
                == messages.in_progress().skip_action_text() + command
            &&& entry.key@ == "abort"@ ==> entry.display@
                == messages.in_progress().abort_action_text(name) + command
        }),
{
    law_the_key_is_the_option(messages, operation, entries, i);
    lemma_keys_differ();
    assert(entry_views(entries@).len() == entries@.len());
    assert(entry_views(entries@)[i] == entries@[i]@);
    let entry = entries@[i];
    let label = match entry.action {
        MenuAction::ShowConflicts => messages.in_progress().conflicts_action_text(),
        MenuAction::Abort(_) => messages.in_progress().abort_action_text(name_of(operation)),
        MenuAction::Proceed(_) => if entry.key@ == "skip"@ {
            messages.in_progress().skip_action_text()
        } else {
            messages.in_progress().continue_action_text(name_of(operation))
        },
    };
    let args = seq![name_of(operation), "--"@ + entry.key@];
    if !(entry.action is ShowConflicts) {
        assert(entry.display@ == label + " ("@ + ("git "@ + join(args, " "@)) + ")"@);
        assert(entry.display@ =~= label + (" ("@ + ("git "@ + join(args, " "@)) + ")"@));
    }
}

/// What is asked before giving up names the operation that is under way, and what is refused names
/// the key that is not in the menu.
pub proof fn law_giving_up_names_the_operation(
    messages: Messages,
    operation: Operation,
    selected: &str,
    step: Result<Step, Error>,
)
    requires
        call_ensures(run_on_selection, (messages, operation, selected), step),
    ensures
        step matches Ok(Step::Confirm { header, .. }) ==> header@
            == messages.in_progress().abort_confirmation_text(
            match operation {
                Operation::Merge => "merge"@,
                Operation::Rebase => "rebase"@,
            },
        ),
        step matches Err(error) ==> error.says(
            messages.in_progress().menu_selection_not_found_text(selected@),
        ),
        step is Err <==> selected@ != "conflicts"@ && selected@ != "continue"@ && selected@
            != "abort"@ && !(selected@ == "skip"@ && operation == Operation::Rebase),
{
    lemma_keys_differ();
    let menu = menu_of(messages, operation);
    assert(menu[0].key == "conflicts"@);
    assert(menu[1].key == "continue"@);
    match operation {
        Operation::Merge => {
            assert(menu[2].key == "abort"@);
        },
        Operation::Rebase => {
            assert(menu[2].key == "skip"@);
            assert(menu[3].key == "abort"@);
        },
    }
}

} // verus!
