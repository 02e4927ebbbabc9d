//! `gz rebase`: rebase onto a picked branch.

use vstd::prelude::*;

use crate::commands::command_display;
use crate::commands::merge::{find, not_found_text};
use crate::error::Error;
use crate::finder::{
    item_views, items_of, plain, Candidate, FinderItem, FinderOptions, ListOptions, Picker, Preview,
    PreviewSource, SelectionMode,
};
use crate::git::{BranchInfo, GitRun};
use crate::selection::keys_of;
use crate::text::{concat2, concat3, concat5, decimal, decimal_text, join, owned_all, texts};

verus! {

broadcast use crate::text::lemma_texts_push;

/// What is replayed, on a branch or not.
pub const CURRENT_REVISION: &'static str = "HEAD";

/// How many commits a preview shows.
pub const PREVIEW_COMMIT_COUNT: &'static str = "50";

/// There is no other branch.
pub const NO_CANDIDATES_MESSAGE: &'static str =
    "rebase の base になるブランチがありません。現在のブランチ以外のローカルブランチ・リモート追跡ブランチが必要です";

/// The history is rewritten.
pub const HISTORY_REWRITE_NOTE: &'static str =
    "rebase は replay したコミットを作り直すため、コミットハッシュが変わります（push 済みのコミットを含む場合は特に注意してください）";

/// The commits that a rebase replays.
pub open spec fn range_of(branch: Seq<char>) -> Seq<char> {
    branch + ".."@ + CURRENT_REVISION@
}

/// The arguments that show the commits that a rebase replays.
pub open spec fn log_arguments(branch: Seq<char>) -> Seq<Seq<char>> {
    seq![
        "log"@,
        "--color=always"@,
        "--oneline"@,
        "--decorate"@,
        "-n"@,
        PREVIEW_COMMIT_COUNT@,
        range_of(branch),
        "--"@,
    ]
}

/// A branch in the list: its name and nothing more.
pub open spec fn candidate_of(branch: BranchInfo) -> Candidate {
    plain(branch.name@, branch.name@, Preview::Git(log_arguments(branch.name@)))
}

/// Builds the candidate list. There being no other branch is said before anything is picked.
pub fn picker(candidates: &[BranchInfo]) -> (picker: Result<Picker, Error>)
    ensures
        match picker {
            Ok(picker) => {
                &&& candidates@.len() > 0
                &&& item_views(picker.items@) == candidates@.map_values(
                    |branch: BranchInfo| candidate_of(branch),
                )
                &&& picker.options@ == (ListOptions {
                    mode: SelectionMode::Single,
                    header: None,
                    preselect: Seq::empty(),
                })
            },
            Err(error) => candidates@.len() == 0 && error.says(NO_CANDIDATES_MESSAGE@),
        },
{
    if candidates.len() == 0 {
        return Err(Error::Explained(NO_CANDIDATES_MESSAGE.to_owned()));
    }
    let items = items_of(candidates, to_item);
    assert(item_views(items@) =~= candidates@.map_values(|branch: BranchInfo| candidate_of(branch)));
    Ok(Picker { items, options: FinderOptions::new(SelectionMode::Single) })
}

/// What is said where the commits that a rebase replays cannot be counted.
pub fn count_failed(branch: &str) -> (text: String)
    ensures
        text@ == "`"@ + branch@ + "` の上に replay されるコミット数の取得に失敗しました"@,
{
    concat3("`", branch, "` の上に replay されるコミット数の取得に失敗しました")
}

/// What a rebase shows before it asks for consent, and what it then runs.
#[derive(Debug, PartialEq, Eq)]
pub struct RebasePlan {
    pub header: String,
    pub target: String,
    pub run: GitRun,
}

/// Whether a plan rebases onto a branch, which replays `count` commits.
pub open spec fn rebases(plan: RebasePlan, branch: Seq<char>, count: usize) -> bool {
    &&& plan.header@ == header_of(branch, count)
    &&& plan.target@ == "git "@ + join(seq!["rebase"@, branch], " "@)
    &&& plan.run.is(seq!["rebase"@, branch], "`"@ + branch + "` への rebase に失敗しました"@)
}

/// Plans the rebase onto the picked branch. A name that was not offered is an error: nothing
/// protects the name of a branch among the arguments of git, so no other name reaches it.
pub fn run_on_selection(candidates: &[BranchInfo], selected: &str, count: usize) -> (plan: Result<
    RebasePlan,
    Error,
>)
    ensures
        match keys_of(candidates@).index_of_first(selected@) {
            Some(i) => plan matches Ok(plan) && rebases(plan, candidates@[i].name@, count),
            None => plan matches Err(error) && error.says(not_found_text(selected@)),
        },
{
    match find(candidates, selected) {
        Ok(branch) => Ok(plan(branch.name.as_str(), count)),
        Err(error) => Err(error),
    }
}

/// Plans the rebase onto a branch, which replays `count` commits.
fn plan(branch: &str, count: usize) -> (plan: RebasePlan)
    ensures
        rebases(plan, branch@, count),
{
    let args = rebase_args(branch);
    RebasePlan {
        header: confirmation_header(branch, count),
        target: command_display(&args),
        run: GitRun { args, failure: concat3("`", branch, "` への rebase に失敗しました") },
    }
}

/// The commits that a rebase replays.
pub fn replay_range(branch: &str) -> (range: String)
    ensures
        range@ == range_of(branch@),
{
    concat3(branch, "..", CURRENT_REVISION)
}

/// The arguments that show the commits that a rebase replays.
pub fn preview_args(branch: &BranchInfo) -> (args: Vec<String>)
    ensures
        texts(args@) == log_arguments(branch.name@),
{
    let range = replay_range(branch.name.as_str());
    let args = owned_all(
        &[
            "log",
            "--color=always",
            "--oneline",
            "--decorate",
            "-n",
            PREVIEW_COMMIT_COUNT,
            range.as_str(),
            "--",
        ],
    );
    assert(texts(args@) =~= log_arguments(branch.name@));
    args
}

/// A branch as the list shows it.
pub fn to_item(branch: &BranchInfo) -> (item: FinderItem)
    ensures
        item@ == candidate_of(*branch),
{
    FinderItem::new(
        branch.name.clone(),
        branch.name.clone(),
        PreviewSource::Git(preview_args(branch)),
    )
}

/// The arguments of a rebase.
pub fn rebase_args(branch: &str) -> (args: Vec<String>)
    ensures
        texts(args@) == seq!["rebase"@, branch@],
{
    let args = owned_all(&["rebase", branch]);
    assert(texts(args@) =~= seq!["rebase"@, branch@]);
    args
}

/// What is asked: the base, the number of commits, and that the history is rewritten.
pub open spec fn header_of(branch: Seq<char>, count: usize) -> Seq<char> {
    "`"@ + branch + "` の上に "@ + decimal(count as nat) + " 件のコミットを replay します\n"@
        + HISTORY_REWRITE_NOTE@
}

/// Writes what is asked.
pub fn confirmation_header(branch: &str, count: usize) -> (header: String)
    ensures
        header@ == header_of(branch@, count),
{
    let start = concat5(
        "`",
        branch,
        "` の上に ",
        decimal_text(count).as_str(),
        " 件のコミットを replay します\n",
    );
    concat2(start.as_str(), HISTORY_REWRITE_NOTE)
}

/// What a rebase replays is the reverse of what a merge brings in.
pub proof fn law_replay_is_the_reverse_of_merge(branch: Seq<char>)
    ensures
        range_of(branch) == branch + ".."@ + CURRENT_REVISION@,
        crate::commands::merge::range_of(branch) == CURRENT_REVISION@ + ".."@ + branch,
{
}

/// What a rebase replays is counted and shown from the branch to `HEAD`: the commits that `HEAD`
/// has and the branch has not.
pub proof fn law_a_rebase_replays_what_the_branch_lacks(
    branch: &BranchInfo,
    name: &str,
    range: String,
    shown: Vec<String>,
)
    requires
        name@ == branch.name@,
        call_ensures(replay_range, (name,), range),
        call_ensures(preview_args, (branch,), shown),
    ensures
        range@ == branch.name@ + ".."@ + "HEAD"@,
        texts(shown@)[texts(shown@).len() - 2] == range@,
        texts(shown@)[0] == "log"@,
        texts(shown@).last() == "--"@,
{
}

/// The picked branch is the one that is rebased onto, and the command in the question is the one
/// that runs.
pub proof fn law_the_picked_branch_is_rebased_onto(
    candidates: &[BranchInfo],
    selected: &str,
    count: usize,
    plan: RebasePlan,
)
    requires
        call_ensures(run_on_selection, (candidates, selected, count), Ok(plan)),
    ensures
        keys_of(candidates@).contains(selected@),
        texts(plan.run.args@) == seq!["rebase"@, selected@],
        plan.target@ == "git "@ + join(texts(plan.run.args@), " "@),
        ("`"@ + selected@).is_prefix_of(plan.header@),
{
    let keys = keys_of(candidates@);
    keys.index_of_first_ensures(selected@);
    let i = keys.index_of_first(selected@).unwrap();
    assert(keys[i] == candidates@[i].name@);
}

/// The question says onto what, and how many commits are replayed, and a branch is found by its
/// name.
pub proof fn law_the_question_counts_what_is_replayed(
    branch: &BranchInfo,
    name: &str,
    count: usize,
    header: String,
    item: FinderItem,
)
    requires
        name@ == branch.name@,
        call_ensures(confirmation_header, (name, count), header),
        call_ensures(to_item, (branch,), item),
    ensures
        ("`"@ + name@ + "` の上に "@ + decimal(count as nat)
            + " 件のコミットを replay します\n"@).is_prefix_of(header@),
        item.key@ == name@,
        item.display@ == name@,
        item@.preview matches Preview::Git(args) && args[args.len() - 2] == name@ + ".."@ + "HEAD"@,
{
    assert(item@.key == item.key@);
}

} // verus!
