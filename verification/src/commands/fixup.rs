//! `gz fixup`: create a commit that amends a picked one.
//!
//! The history is not rewritten here: a hint says how.

use vstd::prelude::*;

use crate::commands::cherry_pick::candidate_of;
use crate::commands::{commit_highlights, commit_line, commit_preview_args, commit_text};
use crate::error::Error;
use crate::finder::{
    item_views, FinderItem, FinderOptions, ListOptions, Picker, PreviewSource, SelectionMode,
};
use crate::git::{is_full_hash, parses_as_hash, CommitInfo, GitRun};
use crate::i18n::Messages;
use crate::selection::{find_by_key, keys_of};
use crate::text::{concat2, texts};

verus! {

broadcast use crate::text::lemma_texts_push;

/// What kind of commit is created.
#[derive(Debug, Clone, Copy, PartialEq, Eq, Structural)]
pub enum FixupKind {
    /// One that keeps the message of its target.
    Fixup,
    /// One whose message is joined to that of its target.
    Squash,
}

impl FixupKind {
    /// The option of `git commit`, which carries the hash.
    pub open spec fn option_text(self, id: Seq<char>) -> Seq<char> {
        match self {
            FixupKind::Fixup => "--fixup="@ + id,
            FixupKind::Squash => "--squash="@ + id,
        }
    }

    /// The word for the kind.
    pub open spec fn label_text(self) -> Seq<char> {
        match self {
            FixupKind::Fixup => "fixup"@,
            FixupKind::Squash => "squash"@,
        }
    }

    pub fn from_flag(squash: bool) -> (kind: Self)
        ensures
            kind == (if squash {
                FixupKind::Squash
            } else {
                FixupKind::Fixup
            }),
    {
        if squash {
            FixupKind::Squash
        } else {
            FixupKind::Fixup
        }
    }

    pub fn option(self, id: &str) -> (option: String)
        ensures
            option@ == self.option_text(id@),
    {
        match self {
            FixupKind::Fixup => concat2("--fixup=", id),
            FixupKind::Squash => concat2("--squash=", id),
        }
    }

    pub fn label(self) -> (label: &'static str)
        ensures
            label@ == self.label_text(),
    {
        match self {
            FixupKind::Fixup => "fixup",
            FixupKind::Squash => "squash",
        }
    }
}

/// Where a rebase that folds the commit in starts.
#[derive(Debug, PartialEq, Eq)]
pub enum RebaseStart {
    /// At the parent of the target.
    Parent(String),
    /// At the root: the target has no parent.
    Root,
}

impl RebaseStart {
    /// What `git rebase` gets.
    pub open spec fn argument_text(self) -> Seq<char> {
        match self {
            RebaseStart::Parent(id) => id@ + "^"@,
            RebaseStart::Root => "--root"@,
        }
    }

    pub fn argument(&self) -> (argument: String)
        ensures
            argument@ == self.argument_text(),
    {
        match self {
            RebaseStart::Parent(id) => concat2(id.as_str(), "^"),
            RebaseStart::Root => "--root".to_owned(),
        }
    }
}

/// Builds the candidate list. Where nothing is staged there is nothing to commit, and that
/// is said before anything is picked.
pub fn picker(
    messages: Messages,
    kind: FixupKind,
    staged_files: usize,
    candidates: &[CommitInfo],
) -> (picker: Result<Picker, Error>)
    ensures
        match picker {
            Ok(picker) => {
                &&& staged_files > 0
                &&& item_views(picker.items@) == candidates@.map_values(
                    |commit: CommitInfo| candidate_of(commit),
                )
                &&& picker.options@ == (ListOptions {
                    mode: SelectionMode::Single,
                    header: None,
                    preselect: Seq::empty(),
                })
            },
            Err(error) => staged_files == 0 && error.says(
                messages.fixup().staged_required_text(kind.label_text()),
            ),
        },
{
    if staged_files == 0 {
        return Err(Error::Explained(messages.fixup().staged_required(kind.label())));
    }
    let list = crate::commands::cherry_pick::picker(candidates);
    Ok(Picker { items: list.items, options: FinderOptions::new(SelectionMode::Single) })
}

/// Finds the picked commit. A hash that was not offered is an error.
pub fn find<'a>(messages: Messages, candidates: &'a [CommitInfo], selected: &str) -> (commit: Result<
    &'a CommitInfo,
    Error,
>)
    ensures
        match keys_of(candidates@).index_of_first(selected@) {
            Some(i) => commit matches Ok(commit) && *commit == candidates@[i],
            None => commit matches Err(error) && error.says(
                messages.fixup().selection_not_found_text(selected@),
            ),
        },
{
    proof {
        keys_of(candidates@).index_of_first_ensures(selected@);
    }
    match find_by_key(candidates, selected) {
        Some(commit) => Ok(commit),
        None => Err(Error::Explained(messages.fixup().selection_not_found(selected))),
    }
}

/// What creates the commit, and the hint that follows.
#[derive(Debug, PartialEq, Eq)]
pub struct FixupPlan {
    pub commit: GitRun,
    pub hint: String,
}

/// Whether a result is the plan for a commit of the given hash, or why there is none.
pub open spec fn plans(
    plan: Result<FixupPlan, Error>,
    messages: Messages,
    kind: FixupKind,
    id: Seq<char>,
    has_parent: Option<bool>,
) -> bool {
    match start_of(id, has_parent) {
        Ok(is_root) => plan matches Ok(plan) && plan.commit.is(
            seq!["commit"@, kind.option_text(id)],
            messages.fixup().commit_creation_failed_text(kind.label_text()),
        ) && plan.hint@ == hint_of(messages, id, is_root),
        Err(failure) => plan matches Err(error) && error.says(failure.explained(messages, id)),
    }
}

/// Plans the commit for what was picked. A hash that was not offered is an error.
pub fn run_on_selection(
    messages: Messages,
    kind: FixupKind,
    candidates: &[CommitInfo],
    selected: &str,
    has_parent: Option<bool>,
) -> (plan: Result<FixupPlan, Error>)
    ensures
        match keys_of(candidates@).index_of_first(selected@) {
            Some(i) => plans(plan, messages, kind, candidates@[i].id@, has_parent),
            None => plan matches Err(error) && error.says(
                messages.fixup().selection_not_found_text(selected@),
            ),
        },
{
    match find(messages, candidates, selected) {
        Ok(commit) => run_on_commit(messages, kind, commit, has_parent),
        Err(error) => Err(error),
    }
}

/// Plans the commit. The start of the rebase is settled before, so that no commit is created
/// where that fails.
pub fn run_on_commit(
    messages: Messages,
    kind: FixupKind,
    commit: &CommitInfo,
    has_parent: Option<bool>,
) -> (plan: Result<FixupPlan, Error>)
    ensures
        plans(plan, messages, kind, commit.id@, has_parent),
{
    match rebase_start(messages, commit, has_parent) {
        Ok(start) => Ok(
            FixupPlan {
                commit: GitRun {
                    args: commit_args(kind, commit.id.as_str()),
                    failure: messages.fixup().commit_creation_failed(kind.label()),
                },
                hint: autosquash_hint(messages, &start),
            },
        ),
        Err(error) => Err(error),
    }
}

/// Writes the line of a commit.
pub fn display_line(commit: &CommitInfo) -> (line: String)
    ensures
        line@ == commit_text(commit.short_id@, commit.time@, commit.summary@, commit.author@),
{
    commit_line(commit)
}

/// The arguments that show a commit in its preview.
pub fn preview_args(commit: &CommitInfo) -> (args: Vec<String>)
    ensures
        texts(args@) == seq!["show"@, "--color=always"@, commit.id@, "--"@],
{
    commit_preview_args(commit.id.as_str())
}

/// A commit as the list shows it.
pub fn to_item(commit: &CommitInfo) -> (item: FinderItem)
    ensures
        item@ == candidate_of(*commit),
{
    FinderItem::new(
        display_line(commit),
        commit.id.clone(),
        PreviewSource::Git(preview_args(commit)),
    ).with_highlights(commit_highlights(commit))
}

/// The arguments that create the commit from what is staged. There are no paths among them.
pub fn commit_args(kind: FixupKind, id: &str) -> (args: Vec<String>)
    ensures
        texts(args@) == seq!["commit"@, kind.option_text(id@)],
{
    let mut args: Vec<String> = Vec::new();
    args.push("commit".to_owned());
    args.push(kind.option(id));
    assert(texts(args@) =~= seq!["commit"@, kind.option_text(id@)]);
    args
}

/// Why the start of the rebase cannot be settled.
pub enum StartFailure {
    /// The hash is none.
    NoHash,
    /// The commit could not be read.
    Unread,
}

impl StartFailure {
    /// What is said of it.
    pub open spec fn explained(self, messages: Messages, id: Seq<char>) -> Seq<char> {
        match self {
            StartFailure::NoHash => messages.common().commit_hash_parse_failed_text(id),
            StartFailure::Unread => messages.common().commit_read_failed_text(id),
        }
    }
}

/// Whether the rebase starts at the root, given whether the commit was found to have a
/// parent; nothing where it could not be read.
pub open spec fn start_of(id: Seq<char>, has_parent: Option<bool>) -> Result<bool, StartFailure> {
    if !is_full_hash(id) {
        Err(StartFailure::NoHash)
    } else {
        match has_parent {
            Some(found) => Ok(!found),
            None => Err(StartFailure::Unread),
        }
    }
}

/// Settles where the rebase starts: at the parent of the target, or at the root where there
/// is none.
pub fn rebase_start(messages: Messages, commit: &CommitInfo, has_parent: Option<bool>) -> (start: Result<
    RebaseStart,
    Error,
>)
    ensures
        match start_of(commit.id@, has_parent) {
            Ok(true) => start == Ok::<RebaseStart, Error>(RebaseStart::Root),
            Ok(false) => start matches Ok(RebaseStart::Parent(id)) && id@ == commit.id@,
            Err(failure) => start matches Err(error) && error.says(
                failure.explained(messages, commit.id@),
            ),
        },
{
    let id: &str = commit.id.as_str();
    if !parses_as_hash(id) {
        return Err(Error::Explained(messages.common().commit_hash_parse_failed(id)));
    }
    match has_parent {
        Some(true) => Ok(RebaseStart::Parent(commit.id.clone())),
        Some(false) => Ok(RebaseStart::Root),
        None => Err(Error::Explained(messages.common().commit_read_failed(id))),
    }
}

/// How to fold the commit in: a command to copy, with the full hash, and for the root why it
/// is named.
pub open spec fn hint_of(messages: Messages, id: Seq<char>, is_root: bool) -> Seq<char> {
    if is_root {
        messages.fixup().autosquash_hint_text("--root"@) + "\n"@
            + messages.fixup().root_start_note_text()
    } else {
        messages.fixup().autosquash_hint_text(id + "^"@)
    }
}

/// Writes how to fold the commit in.
pub fn autosquash_hint(messages: Messages, start: &RebaseStart) -> (hint: String)
    ensures
        match start {
            RebaseStart::Parent(id) => hint@ == hint_of(messages, id@, false),
            RebaseStart::Root => forall|id: Seq<char>| hint@ == #[trigger] hint_of(
                messages,
                id,
                true,
            ),
        },
{
    let mut hint = messages.fixup().autosquash_hint(start.argument().as_str());
    if let RebaseStart::Root = start {
        hint.append("\n");
        hint.append(messages.fixup().root_start_note());
    }
    hint
}

/// The hash is never an argument of its own: it cannot be taken for another kind of one.
pub proof fn law_hash_is_carried_by_the_option(kind: FixupKind, id: Seq<char>)
    ensures
        kind.option_text(id) != id,
        kind.option_text(id)[0] == '-',
{
    reveal_strlit("--fixup=");
    reveal_strlit("--squash=");
    assert(kind.option_text(id).len() > id.len());
}

/// A rebase starts at the parent of the commit, and at the root if and only if there is none; a
/// hash that is none, or a commit that could not be read, settles nothing.
pub proof fn law_a_rebase_starts_below_the_commit(
    messages: Messages,
    commit: &CommitInfo,
    has_parent: Option<bool>,
    start: Result<RebaseStart, Error>,
    argument: String,
)
    requires
        call_ensures(rebase_start, (messages, commit, has_parent), start),
        start is Ok ==> call_ensures(RebaseStart::argument, (&start->Ok_0,), argument),
    ensures
        start is Ok <==> is_full_hash(commit.id@) && has_parent is Some,
        start is Ok ==> {
            &&& has_parent == Some(true) ==> argument@ == commit.id@ + "^"@
            &&& has_parent == Some(false) ==> argument@ == "--root"@
        },
{
}

/// The hint names the start of the rebase, and the root if and only if the commit has no parent.
pub proof fn law_a_plan_is_about_its_commit(
    messages: Messages,
    kind: FixupKind,
    commit: &CommitInfo,
    has_parent: bool,
    plan: FixupPlan,
)
    requires
        call_ensures(run_on_commit, (messages, kind, commit, Some(has_parent)), Ok(plan)),
    ensures
        texts(plan.commit.args@).len() == 2,
        texts(plan.commit.args@)[0] == "commit"@,
        texts(plan.commit.args@)[1] == (if kind == FixupKind::Squash {
            "--squash="@
        } else {
            "--fixup="@
        }) + commit.id@,
        has_parent ==> plan.hint@ == messages.fixup().autosquash_hint_text(commit.id@ + "^"@),
        !has_parent ==> messages.fixup().autosquash_hint_text("--root"@).is_prefix_of(plan.hint@),
{
}

/// Where nothing is staged no list is shown, and where anything is, one is.
pub proof fn law_something_must_be_staged(
    messages: Messages,
    kind: FixupKind,
    staged_files: usize,
    candidates: &[CommitInfo],
    picker: Result<Picker, Error>,
)
    requires
        call_ensures(self::picker, (messages, kind, staged_files, candidates), picker),
    ensures
        picker is Ok <==> staged_files > 0,
        picker matches Ok(picker) ==> picker.items@.len() == candidates@.len(),
{
    if let Ok(picker) = picker {
        assert(item_views(picker.items@).len() == picker.items@.len());
    }
}

} // verus!
