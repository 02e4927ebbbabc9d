//! What holds of all commands together.
//!
//! The laws of one command stand with that command. Those that stand here follow a flag from
//! where it is read to the words that git gets, and say what every list offers.

use vstd::prelude::*;

use crate::cli::{Command, StashCommand};
use crate::commands::diff::{resolve_range, DiffMode, RangeStep};
use crate::commands::fetch::{
    choose_siblings, fetch_args, sibling_fetch_args, FetchScope, FetchTarget, PruneMode,
    SiblingChoice,
};
use crate::commands::file_selection::FileCandidate;
use crate::commands::fixup::FixupKind;
use crate::commands::merge::{merge_args, MergeMode};
use crate::commands::pr::PrCandidate;
use crate::commands::pull::{mode_args, PullChoice, PullMode};
use crate::commands::restore::{restore_args, RestoreTarget};
use crate::commands::{
    add, branch, cherry_pick, commit, diff, dispatch, fetch, fixup, in_progress, log, merge, pr,
    pull, rebase, reflog, restore, selection_header, BranchScope, CommitScope,
    MessageEditing, Request, StashAction, UntrackedFiles,
};
use crate::error::Error;
use crate::finder::{item_views, Picker, SelectionMode};
use crate::git::{
    pathspec_texts, BranchDetail, BranchInfo, CommitInfo, FileChange, PullScan, PushTarget,
    ReflogEntry, SiblingScan,
};
use crate::i18n::Messages;
use crate::text::{decimal, string_of, text_of, texts};

verus! {

/// One for a flag that is set.
pub open spec fn one(flag: bool) -> int {
    if flag {
        1
    } else {
        0
    }
}

/// A fetch covers the repositories beside this one if and only if the flag for that is set,
/// whatever the flag for pruning says.
pub proof fn law_siblings_are_fetched_by_their_flag_alone<'a>(
    messages: Messages,
    command: &'a Command,
    prune: bool,
    siblings: bool,
    result: Result<Request<'a>, Error>,
)
    requires
        *command == (Command::Fetch { prune, siblings }),
        call_ensures(dispatch, (messages, Ok(()), command), result),
    ensures
        result matches Ok(Request::Fetch(scope, _)) && (scope == FetchScope::Siblings <==> siblings)
            && (scope == FetchScope::Current <==> !siblings),
{
}

/// References are removed if and only if the flag for that is set, whatever the flag for the
/// repositories beside this one says: the words that git then gets hold `--prune`, or they do
/// not.
pub proof fn law_references_are_removed_by_their_flag_alone<'a>(
    messages: Messages,
    command: &'a Command,
    prune: bool,
    siblings: bool,
    scope: FetchScope,
    mode: PruneMode,
    target: &FetchTarget,
    all: Vec<String>,
    one: Vec<String>,
)
    requires
        *command == (Command::Fetch { prune, siblings }),
        call_ensures(dispatch, (messages, Ok(()), command), Ok(Request::Fetch(scope, mode))),
        call_ensures(sibling_fetch_args, (mode,), all),
        call_ensures(fetch_args, (target, mode), one),
        target.remote() != Some("--prune"@),
    ensures
        texts(all@).contains("--prune"@) <==> prune,
        texts(one@).contains("--prune"@) <==> prune,
        texts(all@)[0] == "fetch"@,
        texts(one@)[0] == "fetch"@,
        texts(all@).last() == "--all"@,
        target.remote() matches Some(name) ==> texts(one@).last() == name,
        target.remote() is None ==> texts(one@) == texts(all@),
{
    reveal_strlit("fetch");
    reveal_strlit("--prune");
    reveal_strlit("--all");
    assert("fetch"@.len() == 5 && "--prune"@.len() == 7 && "--all"@.len() == 5);
    if prune {
        assert(texts(all@)[1] == "--prune"@);
        assert(texts(one@)[1] == "--prune"@);
    }
}

/// The two flags of a fetch are apart: to set one of them changes what it stands for and leaves
/// the other as it was.
pub proof fn law_the_flags_of_a_fetch_do_not_mix<'a, 'b>(
    messages: Messages,
    command: &'a Command,
    other: &'b Command,
    prune: bool,
    siblings: bool,
    pruned: bool,
    covered: bool,
    first: Result<Request<'a>, Error>,
    second: Result<Request<'b>, Error>,
)
    requires
        *command == (Command::Fetch { prune, siblings }),
        *other == (Command::Fetch { prune: pruned, siblings: covered }),
        call_ensures(dispatch, (messages, Ok(()), command), first),
        call_ensures(dispatch, (messages, Ok(()), other), second),
    ensures
        first matches Ok(Request::Fetch(scope, mode)) && second matches Ok(
            Request::Fetch(other_scope, other_mode),
        ) && (scope == other_scope <==> siblings == covered) && (mode == other_mode <==> prune
            == pruned),
{
}

/// A comparison is between what its flag names: without one, git is told nothing more, and
/// compares the index with the work tree; for what is staged it is told so; for `HEAD` it gets
/// that, and the other flags ask for what is still to be picked.
pub proof fn law_a_diff_compares_what_its_flag_names<'a>(
    messages: Messages,
    command: &'a Command,
    staged: bool,
    head: bool,
    upstream: bool,
    branch: bool,
    commit: bool,
    mode: DiffMode,
    step: RangeStep,
)
    requires
        *command == (Command::Diff { staged, head, upstream, branch, commit }),
        call_ensures(dispatch, (messages, Ok(()), command), Ok(Request::Diff(mode))),
        call_ensures(resolve_range, (messages, mode), step),
    ensures
        staged ==> (step matches RangeStep::Settled(range) && texts(range.arguments@) == seq![
            "--staged"@,
        ]),
        head ==> (step matches RangeStep::Settled(range) && texts(range.arguments@) == seq![
            "HEAD"@,
        ]),
        upstream <==> step is Upstream,
        branch <==> step is Branches,
        commit <==> step is Commits,
        !(staged || head || upstream || branch || commit) ==> (step matches RangeStep::Settled(
            range,
        ) && texts(range.arguments@).len() == 0),
{
}

/// A merge takes the option that its flag names, in front of the branch, and no other: without a
/// flag git decides.
pub proof fn law_a_merge_takes_the_option_of_its_flag<'a>(
    messages: Messages,
    command: &'a Command,
    no_ff: bool,
    squash: bool,
    ff_only: bool,
    mode: MergeMode,
    branch: &str,
    args: Vec<String>,
)
    requires
        *command == (Command::Merge { no_ff, squash, ff_only }),
        call_ensures(dispatch, (messages, Ok(()), command), Ok(Request::Merge(mode))),
        call_ensures(merge_args, (mode, branch), args),
    ensures
        texts(args@)[0] == "merge"@,
        texts(args@).last() == branch@,
        texts(args@).len() == 2 + one(no_ff) + one(squash) + one(ff_only),
        no_ff ==> texts(args@)[1] == "--no-ff"@,
        squash ==> texts(args@)[1] == "--squash"@,
        ff_only ==> texts(args@)[1] == "--ff-only"@,
{
}

/// The current branch is integrated as its flag says: a rebase rebases, a merge merges, and
/// without a flag nothing but a fast-forward is done.
pub proof fn law_a_sync_integrates_as_its_flag_says<'a>(
    messages: Messages,
    command: &'a Command,
    rebase: bool,
    merge: bool,
    mode: PullMode,
    reference: &str,
    args: Vec<String>,
)
    requires
        *command == (Command::Sync { rebase, merge }),
        call_ensures(dispatch, (messages, Ok(()), command), Ok(Request::Sync(mode))),
        call_ensures(mode_args, (mode, reference), args),
    ensures
        texts(args@).last() == reference@,
        rebase <==> texts(args@)[0] == "rebase"@,
        !rebase <==> texts(args@)[0] == "merge"@,
        !rebase && !merge <==> texts(args@).len() == 3,
        !rebase && !merge ==> texts(args@)[1] == "--ff-only"@,
{
    reveal_strlit("rebase");
    reveal_strlit("merge");
    assert("rebase"@.len() == 6 && "merge"@.len() == 5);
}

/// A commit that amends another is a squash if and only if that was asked for, and names the
/// commit by its hash.
pub proof fn law_a_fixup_is_a_squash_by_its_flag_alone<'a>(
    messages: Messages,
    command: &'a Command,
    squash: bool,
    kind: FixupKind,
    id: &str,
    args: Vec<String>,
)
    requires
        *command == (Command::Fixup { squash }),
        call_ensures(dispatch, (messages, Ok(()), command), Ok(Request::Fixup(kind))),
        call_ensures(fixup::commit_args, (kind, id), args),
    ensures
        texts(args@).len() == 2,
        texts(args@)[0] == "commit"@,
        squash ==> texts(args@)[1] == "--squash="@ + id@,
        !squash ==> texts(args@)[1] == "--fixup="@ + id@,
{
}

/// A restore writes to the index if and only if that was asked for. Git gets the revision behind
/// the option for it, where there is one, and the paths behind the separator.
pub proof fn law_a_restore_writes_where_its_flag_says<'a>(
    messages: Messages,
    command: &'a Command,
    source: Option<String>,
    staged: bool,
    target: RestoreTarget,
    given: Option<&'a str>,
    revision: Option<&str>,
    paths: &Vec<String>,
    args: Vec<String>,
)
    requires
        *command == (Command::Restore { source, staged }),
        call_ensures(dispatch, (messages, Ok(()), command), Ok(Request::Restore(target, given))),
        call_ensures(restore_args, (target, revision, paths), args),
    ensures
        text_of(given) == string_of(source),
        texts(args@)[0] == "restore"@,
        staged ==> texts(args@)[1] == "--staged"@,
        texts(args@).len() == 2 + one(staged) + 2 * one(revision is Some) + paths@.len(),
        revision is Some ==> {
            &&& texts(args@)[1 + one(staged)] == "--source"@
            &&& texts(args@)[2 + one(staged)] == text_of(revision)->0
        },
        ({
            let separator = 1 + one(staged) + 2 * one(revision is Some);
            &&& texts(args@)[separator] == "--"@
            &&& forall|i: int|
                0 <= i < paths@.len() ==> texts(args@)[separator + 1 + i] == ":(top,literal)"@
                    + (#[trigger] paths@[i])@
        }),
{
    assert(pathspec_texts(texts(paths@)).len() == paths@.len());
    let separator = 1 + one(staged) + 2 * one(revision is Some);
    assert forall|i: int| 0 <= i < paths@.len() implies texts(args@)[separator + 1 + i]
        == ":(top,literal)"@ + (#[trigger] paths@[i])@ by {
        assert(pathspec_texts(texts(paths@))[i] == texts(args@)[separator + 1 + i]);
        assert(texts(paths@)[i] == paths@[i]@);
    }
}

/// A menu opens if and only if that was asked for, in the history and in the reflog, and then
/// nothing is printed; a branch is created under the name that was given for it.
pub proof fn law_a_menu_opens_where_it_was_asked_for<'a, 'b>(
    messages: Messages,
    command: &'a Command,
    limit: usize,
    action: bool,
    result: Result<Request<'a>, Error>,
    other: &'b Command,
    restore: Option<String>,
    opened: bool,
    found: Result<Request<'b>, Error>,
)
    requires
        *command == (Command::Log { limit, action }),
        call_ensures(dispatch, (messages, Ok(()), command), result),
        *other == (Command::Reflog { restore, action: opened }),
        call_ensures(dispatch, (messages, Ok(()), other), found),
    ensures
        result matches Ok(Request::Log(count, decision)) && count == limit && (decision
            == log::Decision::Menu <==> action) && (decision == log::Decision::Print <==> !action),
        found is Err <==> restore is Some && opened,
        found matches Ok(request) ==> (request matches Request::Reflog(decision) && (decision is Menu
            <==> opened) && (decision is Restore <==> restore is Some) && (decision
            matches reflog::Decision::Restore(name) ==> Some(name@) == string_of(restore))),
{
}

/// Two modes at once are refused, and nothing else is: a command line is dispatched if and only
/// if at most one of the flags that exclude each other is set.
pub proof fn law_two_modes_at_once_are_refused<'a>(
    messages: Messages,
    command: &'a Command,
    result: Result<Request<'a>, Error>,
)
    requires
        call_ensures(dispatch, (messages, Ok(()), command), result),
    ensures
        match *command {
            Command::Diff { staged, head, upstream, branch, commit } => result is Err <==> one(staged)
                + one(head) + one(upstream) + one(branch) + one(commit) > 1,
            Command::Merge { no_ff, squash, ff_only } => result is Err <==> one(no_ff) + one(squash)
                + one(ff_only) > 1,
            Command::Sync { rebase, merge } => result is Err <==> one(rebase) + one(merge) > 1,
            Command::Reflog { restore, action } => result is Err <==> one(restore is Some) + one(
                action,
            ) > 1,
            _ => result is Ok,
        },
{
}

/// No command is taken for another: each one that is dispatched comes to a request of its own
/// kind, and carries on what it was given.
pub proof fn law_a_command_comes_to_its_own_request<'a>(
    messages: Messages,
    command: &'a Command,
    request: Request<'a>,
)
    requires
        call_ensures(dispatch, (messages, Ok(()), command), Ok(request)),
    ensures
        match *command {
            Command::Branch { all, command: None } => request == Request::SwitchBranch(
                BranchScope::All,
            ) <==> all,
            Command::Branch { all: _, command: Some(below) } => request matches Request::ManageBranch(
                given,
            ) && *given == below,
            Command::CherryPick { branch: None } => request == Request::CherryPick(
                CommitScope::AllBranches,
            ),
            Command::CherryPick { branch: Some(name) } => request matches Request::CherryPick(
                CommitScope::Branch(given),
            ) && given@ == name@,
            Command::Add => request is Stage,
            Command::Tag { switch, diff } => request matches Request::Tag {
                switch: switches,
                diff: compares,
            } && switches == switch && compares == diff,
            Command::Commit { message } => request matches Request::Commit(given) && text_of(given)
                == string_of(message),
            Command::Rebase => request is Rebase,
            Command::Revert { no_edit } => request == Request::Revert(MessageEditing::Skip)
                <==> no_edit,
            Command::Status => request is Status,
            Command::Pull => request is Pull,
            Command::Worktree { command: None } => request == Request::Worktree(None),
            Command::Worktree { command: Some(below) } => request matches Request::Worktree(
                Some(given),
            ) && *given == below,
            Command::Stash { command: StashCommand::Apply } => request == Request::Stash(
                StashAction::Apply,
            ),
            Command::Stash { command: StashCommand::Pop } => request == Request::Stash(
                StashAction::Pop,
            ),
            Command::Stash { command: StashCommand::Drop } => request == Request::Stash(
                StashAction::Drop,
            ),
            Command::Stash {
                command: StashCommand::Push { message, include_untracked },
            } => request matches Request::StashPush(given, untracked) && text_of(given)
                == string_of(message) && (untracked == UntrackedFiles::Include
                <==> include_untracked),
            Command::Log { .. } => request is Log,
            Command::Restore { .. } => request is Restore,
            Command::Reflog { .. } => request is Reflog,
            Command::Fixup { .. } => request is Fixup,
            Command::Merge { .. } => request is Merge,
            Command::Diff { .. } => request is Diff,
            Command::Fetch { .. } => request is Fetch,
            Command::Sync { .. } => request is Sync,
        },
        command matches Command::Branch { command: None, .. } ==> request is SwitchBranch,
        command matches Command::Revert { .. } ==> request is Revert,
{
}

/// Every branch can be switched to, by its name, and one at a time.
pub proof fn law_a_branch_to_switch_to_is_one_of_all(
    messages: Messages,
    candidates: &[(BranchInfo, Option<BranchDetail>)],
    picker: Picker,
)
    requires
        call_ensures(branch::picker, (messages, candidates), picker),
    ensures
        picker.options.mode == SelectionMode::Single,
        picker.items@.len() == candidates@.len(),
        forall|i: int| 0 <= i < candidates@.len() ==> (#[trigger] picker.items@[i]).key@ == candidates@[i].0.name@,
{
    assert(item_views(picker.items@).len() == picker.items@.len());
    assert forall|i: int| 0 <= i < candidates@.len() implies (#[trigger] picker.items@[i]).key@ == candidates@[i].0.name@ by {
        assert(item_views(picker.items@)[i] == picker.items@[i]@);
    }
}

/// Every commit can be applied, by its full hash, and several at a time.
pub proof fn law_commits_to_apply_are_some_of_all(
    candidates: &[CommitInfo],
    picker: Picker,
)
    requires
        call_ensures(cherry_pick::picker, (candidates,), picker),
    ensures
        picker.options.mode == SelectionMode::Multi,
        picker.items@.len() == candidates@.len(),
        forall|i: int| 0 <= i < candidates@.len() ==> (#[trigger] picker.items@[i]).key@ == candidates@[i].id@,
{
    assert(item_views(picker.items@).len() == picker.items@.len());
    assert forall|i: int| 0 <= i < candidates@.len() implies (#[trigger] picker.items@[i]).key@ == candidates@[i].id@ by {
        assert(item_views(picker.items@)[i] == picker.items@[i]@);
    }
}

/// Every commit of the history is offered, by its full hash, and one is picked.
pub proof fn law_a_commit_of_the_history_is_one_of_all(
    messages: Messages,
    candidates: &[CommitInfo],
    decision: log::Decision,
    picker: Picker,
)
    requires
        call_ensures(log::picker, (messages, candidates, decision), picker),
    ensures
        picker.options.mode == SelectionMode::Single,
        picker.items@.len() == candidates@.len(),
        forall|i: int| 0 <= i < candidates@.len() ==> (#[trigger] picker.items@[i]).key@ == candidates@[i].id@,
{
    assert(item_views(picker.items@).len() == picker.items@.len());
    assert forall|i: int| 0 <= i < candidates@.len() implies (#[trigger] picker.items@[i]).key@ == candidates@[i].id@ by {
        assert(item_views(picker.items@)[i] == picker.items@[i]@);
    }
}

/// Every place of `HEAD` is offered, by the name that git has for it, and one is picked.
pub proof fn law_an_entry_of_the_reflog_is_one_of_all(
    messages: Messages,
    candidates: &[ReflogEntry],
    decision: &reflog::Decision<'_>,
    picker: Picker,
)
    requires
        call_ensures(reflog::picker, (messages, candidates, decision), picker),
    ensures
        picker.options.mode == SelectionMode::Single,
        picker.items@.len() == candidates@.len(),
        forall|i: int| 0 <= i < candidates@.len() ==> (#[trigger] picker.items@[i]).key@ == "HEAD@{"@ + decimal(candidates@[i].index as nat) + "}"@,
{
    assert(item_views(picker.items@).len() == picker.items@.len());
    assert forall|i: int| 0 <= i < candidates@.len() implies (#[trigger] picker.items@[i]).key@ == "HEAD@{"@ + decimal(candidates@[i].index as nat) + "}"@ by {
        assert(item_views(picker.items@)[i] == picker.items@[i]@);
    }
}

/// Every file that changed can be restored, by its path, and several at a time.
pub proof fn law_files_to_restore_are_some_of_all(
    candidates: &[FileCandidate],
    target: RestoreTarget,
    revision: Option<&str>,
    picker: Picker,
)
    requires
        call_ensures(restore::picker, (candidates, target, revision), picker),
    ensures
        picker.options.mode == SelectionMode::Multi,
        picker.items@.len() == candidates@.len(),
        forall|i: int| 0 <= i < candidates@.len() ==> (#[trigger] picker.items@[i]).key@ == candidates@[i].key@,
{
    assert(item_views(picker.items@).len() == picker.items@.len());
    assert forall|i: int| 0 <= i < candidates@.len() implies (#[trigger] picker.items@[i]).key@ == candidates@[i].key@ by {
        assert(item_views(picker.items@)[i] == picker.items@[i]@);
    }
}

/// Every branch can be compared, by its name, and one is picked under each header.
pub proof fn law_a_branch_to_compare_is_one_of_all(
    candidates: &[BranchInfo],
    header: &str,
    picker: Picker,
)
    requires
        call_ensures(diff::branch_picker, (candidates, header), picker),
    ensures
        picker.options.mode == SelectionMode::Single,
        picker.items@.len() == candidates@.len(),
        forall|i: int| 0 <= i < candidates@.len() ==> (#[trigger] picker.items@[i]).key@ == candidates@[i].name@,
{
    assert(item_views(picker.items@).len() == picker.items@.len());
    assert forall|i: int| 0 <= i < candidates@.len() implies (#[trigger] picker.items@[i]).key@ == candidates@[i].name@ by {
        assert(item_views(picker.items@)[i] == picker.items@[i]@);
    }
}

/// Every commit can be compared, by its full hash, and one is picked under each header.
pub proof fn law_a_commit_to_compare_is_one_of_all(
    candidates: &[CommitInfo],
    header: &str,
    picker: Picker,
)
    requires
        call_ensures(diff::commit_picker, (candidates, header), picker),
    ensures
        picker.options.mode == SelectionMode::Single,
        picker.items@.len() == candidates@.len(),
        forall|i: int| 0 <= i < candidates@.len() ==> (#[trigger] picker.items@[i]).key@ == candidates@[i].id@,
{
    assert(item_views(picker.items@).len() == picker.items@.len());
    assert forall|i: int| 0 <= i < candidates@.len() implies (#[trigger] picker.items@[i]).key@ == candidates@[i].id@ by {
        assert(item_views(picker.items@)[i] == picker.items@[i]@);
    }
}

/// A merge is offered if and only if there is a branch to merge; each is, by its name.
pub proof fn law_a_branch_to_merge_is_one_of_the_others(
    candidates: &[BranchInfo],
    result: Result<Picker, Error>,
)
    requires
        call_ensures(merge::picker, (candidates,), result),
    ensures
        result is Ok <==> candidates@.len() > 0,
        result matches Ok(picker) ==> {
            &&& picker.options.mode == SelectionMode::Single
            &&& picker.items@.len() == candidates@.len()
            &&& forall|i: int| 0 <= i < candidates@.len() ==> (#[trigger] picker.items@[i]).key@ == candidates@[i].name@
        },
{
    if let Ok(picker) = result {
        assert(item_views(picker.items@).len() == picker.items@.len());
        assert forall|i: int| 0 <= i < candidates@.len() implies (#[trigger] picker.items@[i]).key@ == candidates@[i].name@ by {
            assert(item_views(picker.items@)[i] == picker.items@[i]@);
        }
    }
}

/// A rebase is offered if and only if there is a branch to rebase onto; each is, by its name.
pub proof fn law_a_branch_to_rebase_onto_is_one_of_the_others(
    candidates: &[BranchInfo],
    result: Result<Picker, Error>,
)
    requires
        call_ensures(rebase::picker, (candidates,), result),
    ensures
        result is Ok <==> candidates@.len() > 0,
        result matches Ok(picker) ==> {
            &&& picker.options.mode == SelectionMode::Single
            &&& picker.items@.len() == candidates@.len()
            &&& forall|i: int| 0 <= i < candidates@.len() ==> (#[trigger] picker.items@[i]).key@ == candidates@[i].name@
        },
{
    if let Ok(picker) = result {
        assert(item_views(picker.items@).len() == picker.items@.len());
        assert forall|i: int| 0 <= i < candidates@.len() implies (#[trigger] picker.items@[i]).key@ == candidates@[i].name@ by {
            assert(item_views(picker.items@)[i] == picker.items@[i]@);
        }
    }
}

/// A push is offered if and only if there is a destination; each is, by its name.
pub proof fn law_a_destination_is_one_of_all(
    messages: Messages,
    candidates: &[PushTarget],
    result: Result<Picker, Error>,
)
    requires
        call_ensures(crate::commands::push::picker, (messages, candidates), result),
    ensures
        result is Ok <==> candidates@.len() > 0,
        result matches Ok(picker) ==> {
            &&& picker.options.mode == SelectionMode::Single
            &&& picker.items@.len() == candidates@.len()
            &&& forall|i: int| 0 <= i < candidates@.len() ==> (#[trigger] picker.items@[i]).key@ == candidates@[i].remote@ + "/"@ + candidates@[i].branch@
        },
{
    if let Ok(picker) = result {
        assert(item_views(picker.items@).len() == picker.items@.len());
        assert forall|i: int| 0 <= i < candidates@.len() implies (#[trigger] picker.items@[i]).key@ == candidates@[i].remote@ + "/"@ + candidates@[i].branch@ by {
            assert(item_views(picker.items@)[i] == picker.items@[i]@);
        }
    }
}

/// Conflicts are shown if and only if there are any; each is, by its path, and several can be picked.
pub proof fn law_conflicts_are_some_of_all(
    messages: Messages,
    conflicts: &[FileChange],
    result: Result<Picker, Error>,
)
    requires
        call_ensures(in_progress::conflicts_picker, (messages, conflicts), result),
    ensures
        result is Ok <==> conflicts@.len() > 0,
        result matches Ok(picker) ==> {
            &&& picker.options.mode == SelectionMode::Multi
            &&& picker.items@.len() == conflicts@.len()
            &&& forall|i: int| 0 <= i < conflicts@.len() ==> (#[trigger] picker.items@[i]).key@ == conflicts@[i].path@
        },
{
    if let Ok(picker) = result {
        assert(item_views(picker.items@).len() == picker.items@.len());
        assert forall|i: int| 0 <= i < conflicts@.len() implies (#[trigger] picker.items@[i]).key@ == conflicts@[i].path@ by {
            assert(item_views(picker.items@)[i] == picker.items@[i]@);
        }
    }
}

/// Every change that can be staged is offered, by its path, and several can be picked. Only a file that git does not know, without a work tree to show it from, keeps the list from being shown.
pub proof fn law_files_to_stage_are_some_of_all(
    worktree: Option<&str>,
    changes: &[FileChange],
    result: Result<Picker, Error>,
)
    requires
        call_ensures(add::picker, (worktree, changes), result),
    ensures
        worktree is Some ==> result is Ok,
        result matches Ok(picker) ==> {
            &&& picker.options.mode == SelectionMode::Multi
            &&& picker.items@.len() == changes@.len()
            &&& forall|i: int| 0 <= i < changes@.len() ==> (#[trigger] picker.items@[i]).key@ == changes@[i].path@
        },
{
    if let Ok(picker) = result {
        assert(item_views(picker.items@).len() == picker.items@.len());
        assert forall|i: int| 0 <= i < changes@.len() implies (#[trigger] picker.items@[i]).key@ == changes@[i].path@ by {
            assert(item_views(picker.items@)[i] == picker.items@[i]@);
        }
    }
}

/// Every change is offered for a commit, by its path, and several can be picked.
pub proof fn law_files_to_commit_are_some_of_all(
    messages: Messages,
    worktree: Option<&str>,
    changes: &[FileChange],
    result: Result<Picker, Error>,
)
    requires
        call_ensures(commit::picker, (messages, worktree, changes), result),
    ensures
        worktree is Some ==> result is Ok,
        result matches Ok(picker) ==> {
            &&& picker.options.mode == SelectionMode::Multi
            &&& picker.items@.len() == changes@.len()
            &&& forall|i: int| 0 <= i < changes@.len() ==> (#[trigger] picker.items@[i]).key@ == changes@[i].path@
        },
{
    if let Ok(picker) = result {
        assert(item_views(picker.items@).len() == picker.items@.len());
        assert forall|i: int| 0 <= i < changes@.len() implies (#[trigger] picker.items@[i]).key@ == changes@[i].path@ by {
            assert(item_views(picker.items@)[i] == picker.items@[i]@);
        }
    }
}

/// Pull requests are offered if and only if there are any; each is, by its number.
pub proof fn law_requests_are_offered_by_their_numbers(
    messages: Messages,
    candidates: &Vec<PrCandidate>,
    checks: bool,
    result: Result<Picker, Error>,
)
    requires
        call_ensures(pr::picker, (messages, candidates, checks), result),
    ensures
        result is Ok <==> candidates@.len() > 0,
        result matches Ok(picker) ==> {
            &&& picker.options.mode == SelectionMode::Single
            &&& picker.items@.len() == candidates@.len()
            &&& forall|i: int| 0 <= i < candidates@.len() ==> (#[trigger] picker.items@[i]).key@ == decimal(candidates@[i].number as nat)
        },
{
    if let Ok(picker) = result {
        assert(item_views(picker.items@).len() == picker.items@.len());
        assert forall|i: int| 0 <= i < candidates@.len() implies (#[trigger] picker.items@[i]).key@ == decimal(candidates@[i].number as nat) by {
            assert(item_views(picker.items@)[i] == picker.items@[i]@);
        }
    }
}

/// What is picked from the start of a commit is what is staged: the list begins with those lines,
/// and with no others.
pub proof fn law_a_commit_begins_with_what_is_staged(
    messages: Messages,
    worktree: Option<&str>,
    changes: &[FileChange],
    picker: Picker,
    lines: Vec<String>,
)
    requires
        call_ensures(commit::picker, (messages, worktree, changes), Ok(picker)),
        call_ensures(commit::preselected, (changes,), lines),
    ensures
        texts(picker.options.preselect@) == texts(lines@),
        picker.options.header is Some,
{
    assert(picker.options@.preselect == texts(picker.options.preselect@));
}

/// Repositories are fetched several at a time and branches are pulled several at a time: the
/// lists let pick many, hold each by its path or its name, and begin with the current one.
pub proof fn law_several_can_be_fetched_and_pulled(
    messages: Messages,
    siblings: &SiblingScan,
    prune: PruneMode,
    repositories: Picker,
    scan: &PullScan,
    branches: Picker,
)
    requires
        call_ensures(
            choose_siblings,
            (messages, siblings, prune),
            Ok(SiblingChoice::Choose(repositories)),
        ),
        call_ensures(pull::choose_targets, (messages, scan), Ok(PullChoice::Choose(branches))),
    ensures
        repositories.options.mode == SelectionMode::Multi,
        repositories.items@.len() == siblings.candidates@.len(),
        forall|i: int|
            0 <= i < siblings.candidates@.len() ==> (#[trigger] repositories.items@[i]).key@
                == siblings.candidates@[i].workdir.shown_text(),
        branches.options.mode == SelectionMode::Multi,
        branches.items@.len() == scan.targets@.len(),
        texts(branches.options.preselect@) == pull::current_lines(
            scan.targets@,
            pull::lines_of(scan.targets@),
        ),
        texts(repositories.options.preselect@) == fetch::current_lines(
            siblings.candidates@,
            fetch::lines_of(siblings.candidates@),
        ),
{
    assert(item_views(repositories.items@).len() == repositories.items@.len());
    assert(item_views(branches.items@).len() == branches.items@.len());
    assert forall|i: int| 0 <= i < siblings.candidates@.len() implies (
    #[trigger] repositories.items@[i]).key@ == siblings.candidates@[i].workdir.shown_text() by {
        assert(item_views(repositories.items@)[i] == repositories.items@[i]@);
    }
    assert(branches.options@.preselect == texts(branches.options.preselect@));
    assert(repositories.options@.preselect == texts(repositories.options.preselect@));
}

/// A header says what is picked, and behind it what the key that decides does.
pub proof fn law_a_header_says_what_the_key_does(subject: &str, outcome: &str, header: String)
    requires
        call_ensures(selection_header, (subject, outcome), header),
    ensures
        header@ == subject@ + "  |  "@ + "Enter: "@ + outcome@,
{
}

} // verus!
