//! What is said and shown, over all commands.
//!
//! A list says what it is for. A pick that was not offered is named as it was picked, and a run
//! that failed is told by what it was run on.

use vstd::prelude::*;

use crate::commands::commit_menu::{self, ActionPlan, MenuAction};
use crate::commands::fetch::{FetchTarget, PruneMode};
use crate::commands::file_selection::FileCandidate;
use crate::commands::merge::{ConflictPrediction, MergeMode, MergePlan};
use crate::commands::pull::{CurrentTarget, Integration, PullMode, PullRun, PullStep};
use crate::commands::rebase::RebasePlan;
use crate::commands::restore::{RestorePlan, RestoreTarget};
use crate::commands::{
    add, branch, cherry_pick, commit, diff, fetch, fixup, in_progress, log, merge, pr, pull, rebase,
    reflog, restore,
};
use crate::error::Error;
use crate::finder::{item_views, FinderItem, Picker, Preview};
use crate::git::{
    is_full_hash, BranchDetail, BranchInfo, CommitInfo, FileChange, GitRun, PullTarget, PushTarget,
    ReflogEntry,
};
use crate::i18n::{Language, Messages};
use crate::selection::{keys_of, missing_keys};
use crate::text::{decimal, join, number_of, texts};

verus! {

/// Whether `unknown` is what was picked and not offered.
pub open spec fn is_unknown(
    unknown: Seq<Seq<char>>,
    keys: Seq<Seq<char>>,
    selected: Seq<Seq<char>>,
) -> bool {
    forall|key: Seq<char>| #[trigger]
        unknown.contains(key) <==> selected.contains(key) && !keys.contains(key)
}

proof fn lemma_unknown(keys: Seq<Seq<char>>, selected: Seq<Seq<char>>)
    ensures
        is_unknown(missing_keys(keys, selected), keys, selected),
{
    broadcast use vstd::seq_lib::group_filter_ensures;

    let absent = |key: Seq<char>| !keys.contains(key);
    let unknown = missing_keys(keys, selected);
    assert forall|key: Seq<char>| #[trigger] unknown.contains(key) implies selected.contains(key)
        && !keys.contains(key) by {
        let i = choose|i: int| 0 <= i < unknown.len() && unknown[i] == key;
        assert(absent(selected.filter(absent)[i]));
        selected.lemma_filter_contains_rev(absent, key);
    }
    assert forall|key: Seq<char>|
        selected.contains(key) && !keys.contains(key) implies #[trigger] unknown.contains(key) by {
        let i = choose|i: int| 0 <= i < selected.len() && selected[i] == key;
        assert(absent(selected[i]));
        assert(selected.filter(absent).contains(selected[i]));
    }
}

/// A branch that was not offered is named as it was picked, wherever one is picked.
pub proof fn law_an_unknown_branch_is_named(
    messages: Messages,
    branches: &[BranchInfo],
    selected: &str,
    switched: Result<GitRun, Error>,
    chosen: Result<String, Error>,
)
    requires
        !keys_of(branches@).contains(selected@),
        call_ensures(branch::run_on_selection, (messages, branches, selected), switched),
        call_ensures(diff::choose_branch, (messages, branches, selected), chosen),
    ensures
        switched matches Err(error) && error.says(
            messages.branch().selection_not_found_text(selected@),
        ),
        chosen matches Err(error) && error.says(
            messages.diff().branch_selection_not_found_text(selected@),
        ),
{
    keys_of(branches@).index_of_first_ensures(selected@);
}

/// A branch that cannot be merged or rebased onto is named as it was picked.
pub proof fn law_an_unknown_base_is_named(
    branches: &[BranchInfo],
    selected: &str,
    mode: MergeMode,
    count: usize,
    prediction: &ConflictPrediction,
    merged: Result<MergePlan, Error>,
    rebased: Result<RebasePlan, Error>,
)
    requires
        !keys_of(branches@).contains(selected@),
        call_ensures(
            merge::run_on_selection,
            (mode, branches, selected, count, prediction),
            merged,
        ),
        call_ensures(rebase::run_on_selection, (branches, selected, count), rebased),
    ensures
        merged matches Err(error) && error.says(
            "選択されたブランチ `"@ + selected@ + "` が候補に見つかりません"@,
        ),
        rebased matches Err(error) && error.says(
            "選択されたブランチ `"@ + selected@ + "` が候補に見つかりません"@,
        ),
{
    keys_of(branches@).index_of_first_ensures(selected@);
}

/// A commit that was not offered is named as it was picked, wherever one is picked.
pub proof fn law_an_unknown_commit_is_named<'a>(
    messages: Messages,
    commits: &'a [CommitInfo],
    selected: &str,
    decision: log::Decision,
    kind: fixup::FixupKind,
    has_parent: Option<bool>,
    logged: Result<log::Outcome, Error>,
    fixed: Result<fixup::FixupPlan, Error>,
    compared: Result<&'a CommitInfo, Error>,
)
    requires
        !keys_of(commits@).contains(selected@),
        call_ensures(log::run_on_selection, (messages, commits, selected, decision), logged),
        call_ensures(
            fixup::run_on_selection,
            (messages, kind, commits, selected, has_parent),
            fixed,
        ),
        call_ensures(diff::choose_commit, (messages, commits, selected), compared),
    ensures
        logged matches Err(error) && error.says(messages.log().selection_not_found_text(selected@)),
        fixed matches Err(error) && error.says(messages.fixup().selection_not_found_text(selected@)),
        compared matches Err(error) && error.says(
            messages.diff().commit_selection_not_found_text(selected@),
        ),
{
    keys_of(commits@).index_of_first_ensures(selected@);
}

/// A destination, a remote or an entry of the reflog that was not offered is named as it was
/// picked.
pub proof fn law_an_unknown_place_is_named<'a>(
    messages: Messages,
    selected: &str,
    targets: &[PushTarget],
    upstream: crate::commands::push::UpstreamUpdate,
    pushed: Result<GitRun, Error>,
    remotes: &Vec<String>,
    prune: PruneMode,
    fetched: Result<GitRun, Error>,
    entries: &[ReflogEntry],
    decision: &reflog::Decision<'a>,
    found: Result<reflog::Outcome, Error>,
)
    requires
        forall|i: int|
            0 <= i < targets@.len() ==> (#[trigger] targets@[i]).remote@ + "/"@ + targets@[i].branch@
                != selected@,
        call_ensures(
            crate::commands::push::run_on_selection,
            (messages, targets, selected, upstream),
            pushed,
        ),
        !texts(remotes@).contains(selected@),
        selected@ != "*all*"@,
        call_ensures(fetch::run_on_selection, (messages, remotes, selected, prune), fetched),
        forall|i: int|
            0 <= i < entries@.len() ==> (#[trigger] entries@[i]).selector_text() != selected@,
        call_ensures(reflog::run_on_selection, (messages, entries, selected, decision), found),
    ensures
        pushed matches Err(error) && error.says(messages.push().selection_not_found_text(selected@)),
        fetched matches Err(error) && error.says(
            messages.fetch().selection_not_found_text(selected@),
        ),
        found matches Err(error) && error.says(messages.reflog().selection_not_found_text(selected@)),
{
    let names = crate::commands::push::names(targets@);
    names.index_of_first_ensures(selected@);
    if names.contains(selected@) {
        let i = choose|i: int| 0 <= i < names.len() && names[i] == selected@;
        assert(names[i] == targets@[i].remote@ + "/"@ + targets@[i].branch@);
    }
    let places = reflog::selectors(entries@);
    places.index_of_first_ensures(selected@);
    if places.contains(selected@) {
        let i = choose|i: int| 0 <= i < places.len() && places[i] == selected@;
        assert(places[i] == entries@[i].selector_text());
    }
}

/// Of files that were picked, exactly those that were not offered are named.
pub proof fn law_unknown_files_are_named(
    messages: Messages,
    changes: &[FileChange],
    selected: &Vec<String>,
    message: Option<&str>,
    staged: Result<GitRun, Error>,
    committed: Result<commit::CommitPlan, Error>,
)
    requires
        call_ensures(add::run_on_selection, (messages, changes, selected), staged),
        call_ensures(commit::run_on_selection, (messages, message, changes, selected), committed),
    ensures
        staged matches Err(error) ==> exists|unknown: Seq<Seq<char>>| #[trigger]
            is_unknown(unknown, keys_of(changes@), texts(selected@)) && error.says(
                messages.file_selection().selection_not_found_text(join(unknown, ", "@)),
            ),
        committed matches Err(error) ==> exists|unknown: Seq<Seq<char>>| #[trigger]
            is_unknown(unknown, keys_of(changes@), texts(selected@)) && error.says(
                messages.file_selection().selection_not_found_text(join(unknown, ", "@)),
            ),
{
    lemma_unknown(keys_of(changes@), texts(selected@));
}

/// Of files to restore or to compare, exactly those that were not offered are named.
pub proof fn law_unknown_paths_are_named(
    messages: Messages,
    candidates: &[FileCandidate],
    target: RestoreTarget,
    source: Option<&str>,
    revision: Option<&str>,
    range: &diff::DiffRange,
    files: &Vec<String>,
    selected: &Vec<String>,
    restored: Result<RestorePlan, Error>,
    compared: Result<GitRun, Error>,
)
    requires
        call_ensures(
            restore::run_on_selection,
            (messages, candidates, target, source, revision, selected),
            restored,
        ),
        call_ensures(diff::run_on_selection, (messages, range, files, selected), compared),
    ensures
        restored matches Err(error) ==> exists|unknown: Seq<Seq<char>>| #[trigger]
            is_unknown(unknown, keys_of(candidates@), texts(selected@)) && error.says(
                messages.file_selection().selection_not_found_text(join(unknown, ", "@)),
            ),
        compared matches Err(error) ==> exists|unknown: Seq<Seq<char>>| #[trigger]
            is_unknown(unknown, texts(files@), texts(selected@)) && error.says(
                messages.file_selection().selection_not_found_text(join(unknown, ", "@)),
            ),
        compared matches Ok(run) ==> run.failure@ == messages.diff().diff_failed_text(
            range.description@,
        ),
{
    lemma_unknown(keys_of(candidates@), texts(selected@));
    lemma_unknown(texts(files@), texts(selected@));
}

/// Of commits to apply and branches to pull, exactly those that were not offered are named.
pub proof fn law_unknown_picks_are_named<'a>(
    messages: Messages,
    commits: &[CommitInfo],
    targets: &'a [PullTarget],
    selected: &Vec<String>,
    applied: Result<GitRun, Error>,
    pulled: Result<Vec<&'a PullTarget>, Error>,
)
    requires
        call_ensures(cherry_pick::run_on_selection, (messages, commits, selected), applied),
        call_ensures(pull::in_candidate_order, (messages, targets, selected), pulled),
    ensures
        applied matches Err(error) ==> exists|unknown: Seq<Seq<char>>| #[trigger]
            is_unknown(unknown, keys_of(commits@), texts(selected@)) && error.says(
                messages.cherry_pick().selection_not_found_text(join(unknown, ", "@)),
            ),
        pulled matches Err(error) ==> exists|unknown: Seq<Seq<char>>| #[trigger]
            is_unknown(unknown, keys_of(targets@), texts(selected@)) && error.says(
                messages.pull().selection_not_found_text(join(unknown, ", "@)),
            ),
        applied matches Ok(run) ==> run.failure@ == messages.cherry_pick().resolution_hint_text(),
{
    lemma_unknown(keys_of(commits@), texts(selected@));
    lemma_unknown(keys_of(targets@), texts(selected@));
}

/// A run that failed is told by the branch, the destination or the remote that it was run on.
pub proof fn law_a_failed_run_names_its_target(
    messages: Messages,
    branches: &[BranchInfo],
    selected: &str,
    switched: GitRun,
    targets: &[PushTarget],
    upstream: crate::commands::push::UpstreamUpdate,
    pushed: GitRun,
    name: String,
    prune: PruneMode,
    fetched: GitRun,
    fetched_all: GitRun,
)
    requires
        call_ensures(branch::run_on_selection, (messages, branches, selected), Ok(switched)),
        call_ensures(
            crate::commands::push::run_on_selection,
            (messages, targets, selected, upstream),
            Ok(pushed),
        ),
        call_ensures(
            fetch::run_on_target,
            (messages, &FetchTarget::Remote(name), prune),
            fetched,
        ),
        call_ensures(fetch::run_on_target, (messages, &FetchTarget::All, prune), fetched_all),
    ensures
        switched.failure@ == messages.common().switch_failed_text(texts(switched.args@).last()),
        pushed.failure@ == messages.push().push_failed_text(selected@),
        fetched.failure@ == messages.fetch().fetch_failed_text(
            messages.fetch().remote_description_text(name@),
        ),
        fetched_all.failure@ == messages.fetch().fetch_failed_text(
            messages.fetch().all_remotes_label_text(),
        ),
{
}

/// A merge or a rebase that failed names the branch that was picked.
pub proof fn law_a_failed_merge_names_its_branch(
    branches: &[BranchInfo],
    selected: &str,
    mode: MergeMode,
    count: usize,
    prediction: &ConflictPrediction,
    merged: MergePlan,
    rebased: RebasePlan,
)
    requires
        call_ensures(
            merge::run_on_selection,
            (mode, branches, selected, count, prediction),
            Ok(merged),
        ),
        call_ensures(rebase::run_on_selection, (branches, selected, count), Ok(rebased)),
    ensures
        merged.run.failure@ == "`"@ + selected@ + "` の merge に失敗しました"@,
        rebased.run.failure@ == "`"@ + selected@ + "` への rebase に失敗しました"@,
        rebased.target@ == "git "@ + join(texts(rebased.run.args@), " "@),
{
    let keys = keys_of(branches@);
    keys.index_of_first_ensures(selected@);
    if let Some(i) = keys.index_of_first(selected@) {
        assert(keys[i] == branches@[i].name@);
    }
}

/// What fails in the menu of a commit is told by the full hash of the commit, each action in its
/// own words.
pub proof fn law_a_failed_action_names_its_commit(
    messages: Messages,
    action: MenuAction,
    target: &commit_menu::Target<'_>,
    plan: ActionPlan,
)
    requires
        call_ensures(commit_menu::run_action, (messages, action, target), plan),
    ensures
        plan matches ActionPlan::Run(run) ==> run.failure@ == (match action {
            MenuAction::Show => messages.commit_menu().show_failed_text(target.id@),
            MenuAction::SwitchDetach => messages.commit_menu().switch_failed_text(target.id@),
            _ => messages.cherry_pick().resolution_hint_text(),
        }),
        plan matches ActionPlan::Confirm { header, target: shown, run } ==> run.failure@
            == messages.commit_menu().reset_failed_text(target.id@) && header@
            == messages.commit_menu().reset_confirmation_text() && shown@ == target.label@,
{
}

/// What follows the upstream of the current branch is told by the names of the two: what is up to
/// date, what is missing, and what failed.
pub proof fn law_an_integration_names_what_it_is_about(
    messages: Messages,
    target: &CurrentTarget,
    mode: PullMode,
    ahead: usize,
    behind: usize,
    known: Result<Integration, Error>,
    unknown: Result<Integration, Error>,
    fetched: GitRun,
)
    requires
        call_ensures(
            pull::integrate_current_branch,
            (messages, target, mode, Some((ahead, behind))),
            known,
        ),
        call_ensures(pull::integrate_current_branch, (messages, target, mode, None), unknown),
        call_ensures(pull::fetch_current, (messages, target), fetched),
    ensures
        unknown matches Err(error) && error.says(
            messages.pull().missing_tracking_ref_text(
                target.reference@,
                target.remote@,
                target.branch@,
            ),
        ),
        known matches Ok(Integration::UpToDate(text)) ==> messages.pull().up_to_date_text(
            target.branch@,
            target.reference@,
        ).is_prefix_of(text@),
        known matches Ok(Integration::Confirm { header, command, run }) ==> {
            &&& messages.pull().confirmation_text(
                target.reference@,
                behind,
                target.branch@,
            ).is_prefix_of(header@)
            &&& command@ == "git "@ + join(texts(run.args@), " "@)
            &&& run.failure@ == messages.pull().integration_failed_text(target.reference@)
        },
        fetched.failure@ == messages.pull().fetch_failed_text(target.remote@),
        texts(fetched.args@) == seq!["fetch"@, target.remote@],
{
    if let Ok(Integration::UpToDate(text)) = known {
        let line = messages.pull().up_to_date_text(target.branch@, target.reference@);
        assert(text@.take(line.len() as int) =~= line);
    }
    if let Ok(Integration::Confirm { header, .. }) = known {
        let line = messages.pull().confirmation_text(target.reference@, behind, target.branch@);
        assert(header@.take(line.len() as int) =~= line);
    }
}

/// A branch is skipped where its remote could not be fetched, and the two are told apart. Every
/// branch is announced by its place and its name.
pub proof fn law_a_skipped_branch_is_told_with_its_remote(
    messages: Messages,
    run: &PullRun<'_>,
    step: PullStep,
)
    requires
        run@.valid(),
        call_ensures(PullRun::next, (run, messages), step),
    ensures
        step matches PullStep::Skip { progress, reason } ==> {
            let target = run@.targets[run@.visited as int];
            &&& run@.failed_remotes.contains(target.remote@)
            &&& reason@ == (match messages.language {
                Language::Japanese => "リモート `"@ + target.remote@ + "` を取得できなかったため `"@
                    + target.branch@ + "` の取り込みを飛ばします"@,
                Language::English => "skipping `"@ + target.branch@ + "`: the remote `"@
                    + target.remote@ + "` could not be fetched"@,
            })
        },
{
}

/// A branch that was created at an entry of the reflog is told by its name and the full hash.
pub proof fn law_a_created_branch_is_told_with_its_commit<'a>(
    messages: Messages,
    entries: &[ReflogEntry],
    selected: &str,
    name: &'a str,
    outcome: reflog::Outcome,
)
    requires
        call_ensures(
            reflog::run_on_selection,
            (messages, entries, selected, &reflog::Decision::Restore(name)),
            Ok(outcome),
        ),
    ensures
        outcome matches reflog::Outcome::Branch { run, created } && {
            let id = texts(run.args@).last();
            &&& created@ == (match messages.language {
                Language::Japanese => "ブランチ `"@ + name@ + "` を "@ + id + " から作成しました"@,
                Language::English => "created the branch `"@ + name@ + "` at "@ + id,
            })
            &&& run.failure@ == messages.reflog().branch_creation_failed_text(name@)
        },
{
}

/// The menu of a pull request shows what the list showed: its description.
pub proof fn law_the_menu_shows_the_same_request(
    messages: Messages,
    candidate: &pr::PrCandidate,
    picker: Picker,
    display: &str,
    item: FinderItem,
    i: int,
)
    requires
        call_ensures(pr::menu, (messages, candidate), picker),
        call_ensures(pr::to_item, (messages, candidate, display), item),
        0 <= i < picker.items@.len(),
    ensures
        picker.items@[i]@.preview == item@.preview,
        picker.items@[i]@.panel == item@.panel,
        item@.preview == Preview::Text(candidate.body@),
{
    assert(item_views(picker.items@).len() == picker.items@.len());
    assert(item_views(picker.items@)[i] == picker.items@[i]@);
}

/// A column that holds no number counts nothing.
pub proof fn law_what_is_no_number_counts_nothing(field: &str, count: usize)
    requires
        call_ensures(pr::parse_count, (field,), count),
    ensures
        number_of(field@) is None ==> count == 0,
        number_of(field@) matches Some(number) ==> count == number,
{
}

/// The header of a list says what is picked in it and what the key does: of a branch, of a pull
/// request, of what is done with one, and of what is done with a commit.
pub proof fn law_a_list_says_what_it_is_for(
    messages: Messages,
    branches: &[(BranchInfo, Option<BranchDetail>)],
    branch_list: Picker,
    requests: &Vec<pr::PrCandidate>,
    checks: bool,
    request_list: Picker,
    request: &pr::PrCandidate,
    request_menu: Picker,
    target: &commit_menu::Target<'_>,
    actions: &[MenuAction],
    commit_actions: Picker,
)
    requires
        call_ensures(branch::picker, (messages, branches), branch_list),
        call_ensures(pr::picker, (messages, requests, checks), Ok(request_list)),
        call_ensures(pr::menu, (messages, request), request_menu),
        call_ensures(commit_menu::picker, (messages, target, actions), commit_actions),
    ensures
        branch_list.options@.header == Some(
            messages.branch().header_subject_text() + "  |  "@ + "Enter: "@
                + messages.branch().header_outcome_text(),
        ),
        request_list.options@.header == Some(
            messages.pr().header_subject_text() + "  |  "@ + "Enter: "@
                + messages.pr().header_outcome_text(),
        ),
        request_menu.options@.header == Some(
            messages.pr().action_header_subject_text(decimal(request.number as nat)) + "  |  "@
                + "Enter: "@ + messages.pr().action_header_outcome_text(),
        ),
        commit_actions.options@.header == Some(
            messages.commit_menu().subject_text(target.short_id@) + "  |  "@ + "Enter: "@
                + messages.commit_menu().outcome_text(),
        ),
{
}

/// The header of a list of files says what is done with them, and that of a comparison says between
/// which states.
pub proof fn law_a_list_of_files_says_what_it_is_for(
    messages: Messages,
    worktree: Option<&str>,
    changes: &[FileChange],
    to_commit: Picker,
    in_conflict: Result<Picker, Error>,
    branches: &[BranchInfo],
    commits: &[CommitInfo],
    header: &str,
    compared_branches: Picker,
    compared_commits: Picker,
)
    requires
        call_ensures(commit::picker, (messages, worktree, changes), Ok(to_commit)),
        call_ensures(in_progress::conflicts_picker, (messages, changes), in_conflict),
        call_ensures(diff::branch_picker, (branches, header), compared_branches),
        call_ensures(diff::commit_picker, (commits, header), compared_commits),
    ensures
        to_commit.options@.header == Some(messages.commit().header_text()),
        in_conflict matches Ok(list) ==> changes@.len() > 0 && list.options@.header == Some(
            messages.in_progress().conflicts_header_text(),
        ),
        in_conflict matches Err(error) ==> changes@.len() == 0 && error.says(
            messages.in_progress().no_conflicts_text(),
        ),
        compared_branches.options@.header == Some(header@),
        compared_commits.options@.header == Some(header@),
{
}

/// A commit of a kind is called by that kind: where nothing is staged for it, and where it cannot
/// be made.
pub proof fn law_a_kind_is_called_by_its_name(
    messages: Messages,
    squash: bool,
    kind: fixup::FixupKind,
    commits: &[CommitInfo],
    refused: Result<Picker, Error>,
    selected: &str,
    has_parent: Option<bool>,
    plan: fixup::FixupPlan,
)
    requires
        call_ensures(fixup::FixupKind::from_flag, (squash,), kind),
        call_ensures(fixup::picker, (messages, kind, 0, commits), refused),
        call_ensures(
            fixup::run_on_selection,
            (messages, kind, commits, selected, has_parent),
            Ok(plan),
        ),
    ensures
        ({
            let name = if squash {
                "squash"@
            } else {
                "fixup"@
            };
            &&& refused matches Err(error)
            &&& error.says(messages.fixup().staged_required_text(name))
            &&& plan.commit.failure@ == messages.fixup().commit_creation_failed_text(name)
        }),
{
}

/// Why no commit can be made for another is told apart: its hash is none, or it could not be read.
pub proof fn law_an_unreadable_commit_is_told(
    messages: Messages,
    commit: &CommitInfo,
    has_parent: Option<bool>,
    start: Result<fixup::RebaseStart, Error>,
)
    requires
        call_ensures(fixup::rebase_start, (messages, commit, has_parent), start),
    ensures
        !is_full_hash(commit.id@) ==> (start matches Err(error) && error.says(
            messages.common().commit_hash_parse_failed_text(commit.id@),
        )),
        is_full_hash(commit.id@) && has_parent is None ==> (start matches Err(error) && error.says(
            messages.common().commit_read_failed_text(commit.id@),
        )),
        is_full_hash(commit.id@) && has_parent is Some ==> start is Ok,
{
}

/// A list that cannot be shown says that there is nothing to pick from.
pub proof fn law_an_empty_list_is_told(
    messages: Messages,
    branches: &[BranchInfo],
    merged: Result<Picker, Error>,
    rebased: Result<Picker, Error>,
    targets: &[PushTarget],
    pushed: Result<Picker, Error>,
    requests: &Vec<pr::PrCandidate>,
    checks: bool,
    listed: Result<Picker, Error>,
)
    requires
        call_ensures(merge::picker, (branches,), merged),
        call_ensures(rebase::picker, (branches,), rebased),
        call_ensures(crate::commands::push::picker, (messages, targets), pushed),
        call_ensures(pr::picker, (messages, requests, checks), listed),
    ensures
        merged is Err <==> branches@.len() == 0,
        merged matches Err(error) ==> error.says(merge::NO_CANDIDATES_MESSAGE@),
        rebased is Err <==> branches@.len() == 0,
        rebased matches Err(error) ==> error.says(rebase::NO_CANDIDATES_MESSAGE@),
        pushed is Err <==> targets@.len() == 0,
        pushed matches Err(error) ==> error.says(messages.push().no_remotes_text()),
        listed is Err <==> requests@.len() == 0,
        listed matches Err(error) ==> error.says(messages.pr().no_candidates_text()),
{
}

/// What fails while files are staged or committed is told by the command.
pub proof fn law_a_failed_commit_is_told_by_its_command(
    messages: Messages,
    message: Option<&str>,
    changes: &[FileChange],
    selected: &Vec<String>,
    staged: GitRun,
    plan: commit::CommitPlan,
)
    requires
        call_ensures(add::run_on_selection, (messages, changes, selected), Ok(staged)),
        call_ensures(commit::run_on_selection, (messages, message, changes, selected), Ok(plan)),
    ensures
        staged.failure@ == messages.common().command_run_failed_text("git add"@),
        plan.commit.failure@ == messages.common().command_run_failed_text("git commit"@),
        plan.stage matches Some(stage) ==> stage.failure@
            == messages.commit().untracked_stage_failed_text(),
        plan.hint is Some <==> message is None,
{
}

/// A line that is reported is the message and the end of the line.
pub proof fn law_a_report_is_one_line(
    messages: Messages,
    range: &diff::DiffRange,
    same: String,
    same_line: String,
    target: &FetchTarget,
    fixed: String,
    fixed_line: String,
    branch: &PullTarget,
    pulled: String,
    pulled_line: String,
)
    requires
        call_ensures(diff::no_diff_message, (messages, range), same),
        call_ensures(diff::report_no_diff, (messages, range), same_line),
        call_ensures(fetch::fixed_target_message, (messages, target), fixed),
        call_ensures(fetch::report_target, (messages, target), fixed_line),
        call_ensures(pull::fixed_target_message, (messages, branch), pulled),
        call_ensures(pull::report_target, (messages, branch), pulled_line),
    ensures
        same@ == messages.diff().no_diff_text(range.description@),
        same_line@ == same@ + "\n"@,
        target matches FetchTarget::Remote(name) ==> fixed@ == messages.fetch().fixed_target_text(
            messages.fetch().remote_description_text(name@),
        ),
        target is All ==> fixed@ == messages.fetch().fixed_target_text(
            messages.fetch().all_remotes_label_text(),
        ),
        fixed_line@ == fixed@ + "\n"@,
        pulled@ == messages.pull().fixed_target_text(branch.branch@),
        pulled_line@ == pulled@ + "\n"@,
{
}

/// A target is announced by its place among all of them, counted from one, and its name.
pub proof fn law_a_target_is_announced_by_place_and_name(
    index: usize,
    total: usize,
    repository: &crate::git::SiblingRepository,
    fetched: String,
    branch: &PullTarget,
    pulled: String,
)
    requires
        index < usize::MAX,
        call_ensures(fetch::progress_line, (index, total, repository), fetched),
        call_ensures(pull::progress_line, (index, total, branch), pulled),
    ensures
        fetched@ == "["@ + decimal((index + 1) as nat) + "/"@ + decimal(total as nat) + "] "@
            + repository.name@,
        pulled@ == "["@ + decimal((index + 1) as nat) + "/"@ + decimal(total as nat) + "] "@
            + branch.branch@,
{
}

/// What could not be counted or listed is named.
pub proof fn law_what_could_not_be_read_is_named(
    branch: &str,
    merged: String,
    rebased: String,
    listed: String,
)
    requires
        call_ensures(merge::count_failed, (branch,), merged),
        call_ensures(rebase::count_failed, (branch,), rebased),
        call_ensures(restore::files_read_failed, (branch,), listed),
    ensures
        merged@ == "`"@ + branch@ + "` から取り込まれるコミット数の取得に失敗しました"@,
        rebased@ == "`"@ + branch@ + "` の上に replay されるコミット数の取得に失敗しました"@,
        listed@ == "`"@ + branch@ + "` のファイル一覧の取得に失敗しました"@,
{
}

/// A run over several targets failed if and only if any target did, and is told to be no
/// fast-forward if and only if any was refused as one.
pub proof fn law_a_run_failed_where_a_target_did(
    pulled: &pull::PullSummary,
    pull_failed: bool,
    refused: bool,
    fetched: &fetch::phases::FetchSummary,
    fetch_failed: bool,
)
    requires
        call_ensures(pull::PullSummary::has_failure, (pulled,), pull_failed),
        call_ensures(pull::PullSummary::has_fast_forward_failure, (pulled,), refused),
        call_ensures(fetch::phases::FetchSummary::has_failure, (fetched,), fetch_failed),
    ensures
        pull_failed <==> pulled.failed@.len() != 0,
        refused <==> pulled.not_fast_forwarded != 0,
        fetch_failed <==> fetched.failed@.len() != 0,
{
}

/// A branch and a commit to compare are shown by their own names and previewed by what leads to
/// them.
pub proof fn law_what_is_compared_is_shown_by_its_name(
    branch: &BranchInfo,
    line: String,
    args: Vec<String>,
    commit: &CommitInfo,
    commit_line: String,
)
    requires
        call_ensures(diff::branch_display_line, (branch,), line),
        call_ensures(diff::branch_preview_args, (branch,), args),
        call_ensures(diff::commit_display_line, (commit,), commit_line),
    ensures
        line@ == branch.name@,
        texts(args@)[0] == "log"@,
        texts(args@)[texts(args@).len() - 2] == branch.name@,
        texts(args@).last() == "--"@,
        commit_line@ == commit.short_id@ + " "@ + commit.time@ + " "@ + commit.summary@ + " ("@
            + commit.author@ + ")"@,
{
}

} // verus!
