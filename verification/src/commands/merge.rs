//! `gz merge`: merge a picked branch.

use vstd::prelude::*;

use crate::commands::command_display;
use crate::error::Error;
use crate::finder::{
    item_views, items_of, plain, Candidate, FinderItem, FinderOptions, ListOptions, Picker, Preview,
    PreviewSource, SelectionMode,
};
use crate::git::{BranchInfo, GitRun};
use crate::selection::{find_by_key, keys_of};
use crate::text::{
    concat3, copied, decimal, decimal_text, join, keeps_utf8, lemma_split_first,
    lemma_split_recorded, lossy_text, owned_all, read_lossy, record_end, recorded, split, texts,
};

verus! {

broadcast use crate::text::lemma_texts_push;

/// Where the merge goes to, on a branch or not.
pub const CURRENT_REVISION: &'static str = "HEAD";

/// How many commits a preview shows.
pub const PREVIEW_COMMIT_COUNT: &'static str = "50";

/// There is no other branch.
pub const NO_CANDIDATES_MESSAGE: &'static str =
    "merge 対象になるブランチがありません。現在のブランチ以外のローカルブランチ・リモート追跡ブランチが必要です";

/// Nothing could be predicted.
pub const PREDICTION_UNAVAILABLE_NOTE: &'static str =
    "コンフリクト予測: 省略しました（`git merge-tree --write-tree` を実行できませんでした。予測には Git 2.38 以降が必要です）";

/// No conflict is predicted.
pub const PREDICTION_CLEAN_NOTE: &'static str =
    "コンフリクト予測: コンフリクトなく merge できる見込みです";

/// A conflict is predicted, in no known file.
pub const PREDICTION_UNNAMED_NOTE: &'static str =
    "コンフリクト予測: コンフリクトが発生する見込みです（対象のファイル名は取得できませんでした）";

/// Two ways to merge at once.
pub const CONFLICTING_MODES_MESSAGE: &'static str =
    "`--no-ff` / `--squash` / `--ff-only` は同時に指定できません";

/// How to merge.
#[derive(Debug, Clone, Copy, PartialEq, Eq, Structural)]
pub enum MergeMode {
    /// Fast-forward where possible.
    Default,
    /// With a merge commit in any case.
    NoFf,
    /// Without a commit.
    Squash,
    /// Only where a fast-forward is possible.
    FfOnly,
}

impl MergeMode {
    /// Reads the flags. At most one of them may be set.
    pub fn from_flags(no_ff: bool, squash: bool, ff_only: bool) -> (mode: Result<Self, Error>)
        ensures
            match (no_ff, squash, ff_only) {
                (false, false, false) => mode == Ok::<Self, Error>(MergeMode::Default),
                (true, false, false) => mode == Ok::<Self, Error>(MergeMode::NoFf),
                (false, true, false) => mode == Ok::<Self, Error>(MergeMode::Squash),
                (false, false, true) => mode == Ok::<Self, Error>(MergeMode::FfOnly),
                _ => mode matches Err(error) && error.says(CONFLICTING_MODES_MESSAGE@),
            },
    {
        match (no_ff, squash, ff_only) {
            (false, false, false) => Ok(MergeMode::Default),
            (true, false, false) => Ok(MergeMode::NoFf),
            (false, true, false) => Ok(MergeMode::Squash),
            (false, false, true) => Ok(MergeMode::FfOnly),
            _ => Err(Error::Explained(CONFLICTING_MODES_MESSAGE.to_owned())),
        }
    }

    /// The option of `git merge`, where there is one.
    pub open spec fn option_text(self) -> Option<Seq<char>> {
        match self {
            MergeMode::Default => None,
            MergeMode::NoFf => Some("--no-ff"@),
            MergeMode::Squash => Some("--squash"@),
            MergeMode::FfOnly => Some("--ff-only"@),
        }
    }

    pub fn option(self) -> (option: Option<&'static str>)
        ensures
            crate::text::text_of(option) == self.option_text(),
    {
        match self {
            MergeMode::Default => None,
            MergeMode::NoFf => Some("--no-ff"),
            MergeMode::Squash => Some("--squash"),
            MergeMode::FfOnly => Some("--ff-only"),
        }
    }
}

/// What is predicted of conflicts.
#[derive(Debug, PartialEq, Eq)]
pub enum ConflictPrediction {
    Clean,
    /// The files that conflict, in the order of git.
    Conflicted(Vec<String>),
    /// Nothing is known. The merge can go on all the same.
    Unavailable,
}

/// The contents of a [`ConflictPrediction`].
pub enum Prediction {
    Clean,
    Conflicted(Seq<Seq<char>>),
    Unavailable,
}

impl View for ConflictPrediction {
    type V = Prediction;

    open spec fn view(&self) -> Prediction {
        match self {
            ConflictPrediction::Clean => Prediction::Clean,
            ConflictPrediction::Conflicted(paths) => Prediction::Conflicted(texts(paths@)),
            ConflictPrediction::Unavailable => Prediction::Unavailable,
        }
    }
}

impl Prediction {
    /// The files that conflict, as far as known.
    pub open spec fn files(self) -> Seq<Seq<char>> {
        match self {
            Prediction::Conflicted(paths) => paths,
            _ => Seq::empty(),
        }
    }

    /// What is said of it.
    pub open spec fn note(self) -> Seq<char> {
        match self {
            Prediction::Clean => PREDICTION_CLEAN_NOTE@,
            Prediction::Conflicted(paths) => if paths.len() == 0 {
                PREDICTION_UNNAMED_NOTE@
            } else {
                "コンフリクト予測: 次の "@ + decimal(paths.len())
                    + " 件のファイルで発生する見込みです"@
            },
            Prediction::Unavailable => PREDICTION_UNAVAILABLE_NOTE@,
        }
    }
}

impl ConflictPrediction {
    /// The files that conflict, as far as known.
    pub fn conflicted_files(&self) -> (files: Vec<String>)
        ensures
            texts(files@) == self@.files(),
    {
        match self {
            ConflictPrediction::Conflicted(paths) => copied(paths),
            _ => {
                let files: Vec<String> = Vec::new();
                assert(texts(files@) =~= Seq::empty());
                files
            },
        }
    }
}

/// The commits that a merge brings in.
pub open spec fn range_of(branch: Seq<char>) -> Seq<char> {
    CURRENT_REVISION@ + ".."@ + branch
}

/// The arguments that show the commits that a merge brings in.
pub open spec fn log_arguments(branch: Seq<char>) -> Seq<Seq<char>> {
    seq![
        "log"@,
        "--color=always"@,
        "--oneline"@,
        "--decorate"@,
        "-n"@,
        PREVIEW_COMMIT_COUNT@,
        range_of(branch),
        "--"@,
    ]
}

/// A branch in the list: its name and nothing more.
pub open spec fn candidate_of(branch: BranchInfo) -> Candidate {
    plain(branch.name@, branch.name@, Preview::Git(log_arguments(branch.name@)))
}

/// Builds the candidate list. There being no other branch is said before anything is picked.
pub fn picker(candidates: &[BranchInfo]) -> (picker: Result<Picker, Error>)
    ensures
        match picker {
            Ok(picker) => {
                &&& candidates@.len() > 0
                &&& item_views(picker.items@) == candidates@.map_values(
                    |branch: BranchInfo| candidate_of(branch),
                )
                &&& picker.options@ == (ListOptions {
                    mode: SelectionMode::Single,
                    header: None,
                    preselect: Seq::empty(),
                })
            },
            Err(error) => candidates@.len() == 0 && error.says(NO_CANDIDATES_MESSAGE@),
        },
{
    if candidates.len() == 0 {
        return Err(Error::Explained(NO_CANDIDATES_MESSAGE.to_owned()));
    }
    let items = items_of(candidates, to_item);
    assert(item_views(items@) =~= candidates@.map_values(|branch: BranchInfo| candidate_of(branch)));
    Ok(Picker { items, options: FinderOptions::new(SelectionMode::Single) })
}

/// What is said of a branch that was not offered.
pub open spec fn not_found_text(selected: Seq<char>) -> Seq<char> {
    "選択されたブランチ `"@ + selected + "` が候補に見つかりません"@
}

/// Finds the picked branch. A name that was not offered is an error.
pub fn find<'a>(candidates: &'a [BranchInfo], selected: &str) -> (branch: Result<
    &'a BranchInfo,
    Error,
>)
    ensures
        match keys_of(candidates@).index_of_first(selected@) {
            Some(i) => branch matches Ok(branch) && *branch == candidates@[i],
            None => branch matches Err(error) && error.says(not_found_text(selected@)),
        },
{
    proof {
        keys_of(candidates@).index_of_first_ensures(selected@);
    }
    match find_by_key(candidates, selected) {
        Some(branch) => Ok(branch),
        None => Err(
            Error::Explained(
                concat3("選択されたブランチ `", selected, "` が候補に見つかりません"),
            ),
        ),
    }
}

/// What is said where the commits that a merge brings in cannot be counted.
pub fn count_failed(branch: &str) -> (text: String)
    ensures
        text@ == "`"@ + branch@ + "` から取り込まれるコミット数の取得に失敗しました"@,
{
    concat3("`", branch, "` から取り込まれるコミット数の取得に失敗しました")
}

/// What a merge shows before it asks for consent, and what it then runs.
#[derive(Debug, PartialEq, Eq)]
pub struct MergePlan {
    pub header: String,
    pub targets: Vec<String>,
    pub run: GitRun,
}

/// Whether a plan merges a branch that brings in `count` commits.
pub open spec fn merges(
    plan: MergePlan,
    mode: MergeMode,
    branch: Seq<char>,
    count: usize,
    prediction: Prediction,
) -> bool {
    &&& plan.header@ == header_of(branch, count, merge_arguments(mode, branch), prediction)
    &&& texts(plan.targets@) == prediction.files()
    &&& plan.run.is(merge_arguments(mode, branch), "`"@ + branch + "` の merge に失敗しました"@)
}

/// Plans the merge of the picked branch. A name that was not offered is an error: nothing
/// protects the name of a branch among the arguments of git, so no other name reaches it.
pub fn run_on_selection(
    mode: MergeMode,
    candidates: &[BranchInfo],
    selected: &str,
    count: usize,
    prediction: &ConflictPrediction,
) -> (plan: Result<MergePlan, Error>)
    ensures
        match keys_of(candidates@).index_of_first(selected@) {
            Some(i) => plan matches Ok(plan) && merges(
                plan,
                mode,
                candidates@[i].name@,
                count,
                prediction@,
            ),
            None => plan matches Err(error) && error.says(not_found_text(selected@)),
        },
{
    match find(candidates, selected) {
        Ok(branch) => Ok(plan(mode, branch.name.as_str(), count, prediction)),
        Err(error) => Err(error),
    }
}

/// Plans the merge of a branch.
fn plan(mode: MergeMode, branch: &str, count: usize, prediction: &ConflictPrediction) -> (plan:
    MergePlan)
    ensures
        merges(plan, mode, branch@, count, prediction@),
{
    let args = merge_args(mode, branch);
    MergePlan {
        header: confirmation_header(branch, count, &args, prediction),
        targets: prediction.conflicted_files(),
        run: GitRun { args, failure: concat3("`", branch, "` の merge に失敗しました") },
    }
}

/// The commits that a merge brings in.
pub fn merge_range(branch: &str) -> (range: String)
    ensures
        range@ == range_of(branch@),
{
    concat3(CURRENT_REVISION, "..", branch)
}

/// The arguments that show the commits that a merge brings in.
pub fn preview_args(branch: &BranchInfo) -> (args: Vec<String>)
    ensures
        texts(args@) == log_arguments(branch.name@),
{
    let range = merge_range(branch.name.as_str());
    let args = owned_all(
        &[
            "log",
            "--color=always",
            "--oneline",
            "--decorate",
            "-n",
            PREVIEW_COMMIT_COUNT,
            range.as_str(),
            "--",
        ],
    );
    assert(texts(args@) =~= log_arguments(branch.name@));
    args
}

/// A branch as the list shows it.
pub fn to_item(branch: &BranchInfo) -> (item: FinderItem)
    ensures
        item@ == candidate_of(*branch),
{
    FinderItem::new(
        branch.name.clone(),
        branch.name.clone(),
        PreviewSource::Git(preview_args(branch)),
    )
}

/// The arguments of a merge: the option stands before the branch.
pub open spec fn merge_arguments(mode: MergeMode, branch: Seq<char>) -> Seq<Seq<char>> {
    match mode.option_text() {
        Some(option) => seq!["merge"@, option, branch],
        None => seq!["merge"@, branch],
    }
}

/// Writes the arguments of a merge.
pub fn merge_args(mode: MergeMode, branch: &str) -> (args: Vec<String>)
    ensures
        texts(args@) == merge_arguments(mode, branch@),
{
    let mut args: Vec<String> = Vec::new();
    args.push("merge".to_owned());
    if let Some(option) = mode.option() {
        args.push(option.to_owned());
    }
    args.push(branch.to_owned());
    assert(texts(args@) =~= merge_arguments(mode, branch@));
    args
}

/// The arguments of a merge that touches neither the work tree nor the index.
pub fn merge_tree_args(branch: &str) -> (args: Vec<String>)
    ensures
        texts(args@) == seq![
            "merge-tree"@,
            "--write-tree"@,
            "--name-only"@,
            "-z"@,
            CURRENT_REVISION@,
            branch@,
        ],
{
    let args = owned_all(
        &["merge-tree", "--write-tree", "--name-only", "-z", CURRENT_REVISION, branch],
    );
    assert(texts(args@) =~= seq![
        "merge-tree"@,
        "--write-tree"@,
        "--name-only"@,
        "-z"@,
        CURRENT_REVISION@,
        branch@,
    ]);
    args
}

/// What a dry run predicts: nothing where it could not be run, did not end with a known
/// code or wrote what is not understood.
pub open spec fn predicted(captured: Option<(i32, Seq<u8>)>) -> Prediction {
    match captured {
        None => Prediction::Unavailable,
        Some((code, output)) => if code == 0 {
            Prediction::Clean
        } else if code == 1 {
            match conflicts_in(output) {
                Some(paths) => Prediction::Conflicted(paths),
                None => Prediction::Unavailable,
            }
        } else {
            Prediction::Unavailable
        },
    }
}

/// Reads the exit code and the output of a dry run.
pub fn predict_conflicts(captured: Option<(i32, &[u8])>) -> (prediction: ConflictPrediction)
    ensures
        prediction@ == predicted(
            match captured {
                Some((code, output)) => Some((code, output@)),
                None => None,
            },
        ),
{
    match captured {
        None => ConflictPrediction::Unavailable,
        Some((code, output)) => if code == 0 {
            ConflictPrediction::Clean
        } else if code == 1 {
            match parse_conflicted_files(output) {
                Some(paths) => ConflictPrediction::Conflicted(paths),
                None => ConflictPrediction::Unavailable,
            }
        } else {
            ConflictPrediction::Unavailable
        },
    }
}

/// The records up to the first empty one.
pub open spec fn until_empty(records: Seq<Seq<u8>>) -> Seq<Seq<u8>>
    decreases records.len(),
{
    if records.len() == 0 || records[0].len() == 0 {
        Seq::empty()
    } else {
        seq![records[0]] + until_empty(records.drop_first())
    }
}

/// The files that the output of a dry run names: its records end in zero bytes, the first
/// one is the tree and has to be there, and files follow up to an empty record.
pub open spec fn conflicts_in(output: Seq<u8>) -> Option<Seq<Seq<char>>> {
    let records = split(output, 0u8);
    if records[0].len() == 0 {
        None
    } else {
        Some(
            until_empty(records.drop_first()).map_values(|record: Seq<u8>| lossy_text(record)),
        )
    }
}

/// Reads the files that the output of a dry run names.
pub fn parse_conflicted_files(output: &[u8]) -> (files: Option<Vec<String>>)
    ensures
        match files {
            Some(files) => conflicts_in(output@) == Some(texts(files@)),
            None => conflicts_in(output@) is None,
        },
        conflicts_in(output@) is Some ==> forall|i: int|
            0 <= i < until_empty(split(output@, 0u8).drop_first()).len() ==> keeps_utf8(
                #[trigger] until_empty(split(output@, 0u8).drop_first())[i],
            ),
{
    let ghost records = split(output@, 0u8);
    let first: usize = record_end(output, 0);
    proof {
        assert(output@.skip(0) =~= output@);
        assert(records[0].len() == first);
    }
    if first == 0 {
        return None;
    }
    let mut files: Vec<String> = Vec::new();
    let ghost named = until_empty(records.drop_first());
    let ghost mut done: Seq<Seq<u8>> = Seq::empty();
    if first == output.len() {
        proof {
            assert(records.drop_first() =~= Seq::empty());
            assert(texts(files@) =~= until_empty(records.drop_first()).map_values(
                |record: Seq<u8>| lossy_text(record),
            ));
        }
        return Some(files);
    }
    let mut start: usize = first + 1;
    let ghost wanted = until_empty(records.drop_first()).map_values(
        |record: Seq<u8>| lossy_text(record),
    );
    proof {
        assert(records.drop_first() =~= split(output@.skip(start as int), 0u8));
        assert(texts(files@) + until_empty(split(output@.skip(start as int), 0u8)).map_values(
            |record: Seq<u8>| lossy_text(record),
        ) =~= wanted);
        assert(done + until_empty(split(output@.skip(start as int), 0u8)) =~= named);
    }
    loop
        invariant_except_break
            start <= output@.len(),
            texts(files@) + until_empty(split(output@.skip(start as int), 0u8)).map_values(
                |record: Seq<u8>| lossy_text(record),
            ) == wanted,
            done + until_empty(split(output@.skip(start as int), 0u8)) == named,
            forall|k: int| 0 <= k < done.len() ==> keeps_utf8(#[trigger] done[k]),
        ensures
            texts(files@) == wanted,
            done == named,
            forall|k: int| 0 <= k < done.len() ==> keeps_utf8(#[trigger] done[k]),
        decreases output@.len() - start,
    {
        let end: usize = record_end(output, start);
        let ghost rest = output@.skip(start as int);
        let ghost lossy = |record: Seq<u8>| lossy_text(record);
        if end == start {
            proof {
                assert(split(rest, 0u8)[0].len() == 0);
                assert(until_empty(split(rest, 0u8)).map_values(lossy) =~= Seq::empty());
                assert(texts(files@) =~= wanted);
                assert(done =~= named);
            }
            break;
        }
        let record: &[u8] = vstd::slice::slice_subrange(output, start, end);
        let ghost before = texts(files@);
        files.push(read_lossy(record));
        let ghost earlier = done;
        proof {
            assert(split(rest, 0u8)[0] =~= record@);
            done = done.push(record@);
        }
        if end == output.len() {
            proof {
                assert(split(rest, 0u8).drop_first() =~= Seq::empty());
                assert(until_empty(split(rest, 0u8).drop_first()) =~= Seq::empty());
                assert(until_empty(split(rest, 0u8)) =~= seq![record@]);
                assert(done =~= earlier + until_empty(split(rest, 0u8)));
                assert(texts(files@) =~= before + until_empty(split(rest, 0u8)).map_values(lossy));
            }
            break;
        }
        start = end + 1;
        proof {
            let after = output@.skip(start as int);
            assert(split(rest, 0u8).drop_first() =~= split(after, 0u8)) by {
                assert(rest.skip(record@.len() as int + 1) =~= after);
            }
            assert(texts(files@) + until_empty(split(after, 0u8)).map_values(lossy) =~= before
                + until_empty(split(rest, 0u8)).map_values(lossy));
            assert(done + until_empty(split(after, 0u8)) =~= earlier + until_empty(
                split(rest, 0u8),
            ));
        }
    }
    Some(files)
}

/// What is asked: the branch, the number of commits, the command and what is predicted.
pub open spec fn header_of(
    branch: Seq<char>,
    count: usize,
    args: Seq<Seq<char>>,
    prediction: Prediction,
) -> Seq<char> {
    "`"@ + branch + "` を merge します（取り込まれるコミット: "@ + decimal(count as nat)
        + " 件）\n実行するコマンド: "@ + ("git "@ + join(args, " "@)) + "\n"@ + prediction.note()
}

/// Writes what is asked. The command is written from what is run.
pub fn confirmation_header(
    branch: &str,
    count: usize,
    args: &Vec<String>,
    prediction: &ConflictPrediction,
) -> (header: String)
    ensures
        header@ == header_of(branch@, count, texts(args@), prediction@),
{
    let mut header = concat3("`", branch, "` を merge します（取り込まれるコミット: ");
    header.append(decimal_text(count).as_str());
    header.append(" 件）\n実行するコマンド: ");
    header.append(command_display(args).as_str());
    header.append("\n");
    header.append(prediction_note(prediction).as_str());
    header
}

/// Says what is predicted. A conflict without files is still said to be one.
pub fn prediction_note(prediction: &ConflictPrediction) -> (note: String)
    ensures
        note@ == prediction@.note(),
{
    match prediction {
        ConflictPrediction::Clean => PREDICTION_CLEAN_NOTE.to_owned(),
        ConflictPrediction::Conflicted(paths) => {
            assert(texts(paths@).len() == paths@.len());
            if paths.len() == 0 {
                PREDICTION_UNNAMED_NOTE.to_owned()
            } else {
                concat3(
                    "コンフリクト予測: 次の ",
                    decimal_text(paths.len()).as_str(),
                    " 件のファイルで発生する見込みです",
                )
            }
        },
        ConflictPrediction::Unavailable => PREDICTION_UNAVAILABLE_NOTE.to_owned(),
    }
}

proof fn lemma_until_empty(files: Seq<Seq<u8>>, rest: Seq<Seq<u8>>)
    requires
        forall|i: int| 0 <= i < files.len() ==> (#[trigger] files[i]).len() > 0,
        rest.len() > 0,
        rest[0].len() == 0,
    ensures
        until_empty(files + rest) == files,
    decreases files.len(),
{
    let all = files + rest;
    if files.len() == 0 {
        assert(all[0] == rest[0]);
        assert(until_empty(all) =~= files);
    } else {
        let others = files.drop_first();
        assert forall|i: int| 0 <= i < others.len() implies (#[trigger] others[i]).len() > 0 by {
            assert(others[i] == files[i + 1]);
        }
        lemma_until_empty(others, rest);
        assert(all[0] == files[0]);
        assert(all.drop_first() =~= others + rest);
        assert(seq![files[0]] + others =~= files);
    }
}

/// The files of a dry run are read as they were written, and nothing that the messages after
/// them say is taken for a file.
pub proof fn law_messages_are_no_files(tree: Seq<u8>, files: Seq<Seq<u8>>, messages: Seq<u8>)
    requires
        tree.len() > 0,
        !tree.contains(0u8),
        forall|i: int|
            0 <= i < files.len() ==> (#[trigger] files[i]).len() > 0 && !files[i].contains(0u8),
    ensures
        conflicts_in(recorded(seq![tree] + files) + seq![0u8] + messages) == Some(
            files.map_values(|file: Seq<u8>| lossy_text(file)),
        ),
{
    let records = seq![tree] + files;
    let nothing = Seq::<u8>::empty();
    let rest = seq![0u8] + messages;
    assert forall|i: int| 0 <= i < records.len() implies !(#[trigger] records[i]).contains(
        0u8,
    ) by {
        if i > 0 {
            assert(records[i] == files[i - 1]);
        }
    }
    lemma_split_recorded(records, rest);
    lemma_split_first(nothing, messages, 0u8);
    assert(nothing + seq![0u8] + messages =~= rest);
    let output = recorded(records) + seq![0u8] + messages;
    assert(output =~= recorded(records) + rest);
    let pieces = records + split(rest, 0u8);
    assert(pieces[0] == tree);
    assert(pieces.drop_first() =~= files + split(rest, 0u8));
    lemma_until_empty(files, split(rest, 0u8));
}

/// A conflict is predicted if and only if git says that there is one and names the files; where
/// it says that there is none, none is predicted; anything else predicts nothing.
pub proof fn law_a_prediction_follows_the_exit_code(
    code: i32,
    output: &[u8],
    prediction: ConflictPrediction,
    unknown: ConflictPrediction,
)
    requires
        call_ensures(predict_conflicts, (Some((code, output)),), prediction),
        call_ensures(predict_conflicts, (None,), unknown),
    ensures
        code == 0 <==> prediction is Clean,
        prediction is Conflicted ==> code == 1,
        code != 0 && code != 1 ==> prediction is Unavailable,
        code == 1 && output@.len() > 0 && output@[0] != 0 ==> prediction is Conflicted,
        unknown is Unavailable,
{
    let records = split(output@, 0u8);
    output@.index_of_first_ensures(0u8);
    if code == 1 && output@.len() > 0 && output@[0] != 0 {
        match output@.index_of_first(0u8) {
            None => {
                assert(records[0] == output@);
            },
            Some(at) => {
                assert(at > 0);
                assert(records[0] =~= output@.take(at));
            },
        }
        assert(records[0].len() > 0);
    }
}

/// The dry run touches nothing: it writes a tree and no work tree, and merges the branch into
/// `HEAD` as the merge would.
pub proof fn law_the_dry_run_touches_nothing(branch: &str, args: Vec<String>)
    requires
        call_ensures(merge_tree_args, (branch,), args),
    ensures
        texts(args@)[0] == "merge-tree"@,
        texts(args@)[1] == "--write-tree"@,
        texts(args@).contains("-z"@),
        texts(args@)[texts(args@).len() - 2] == "HEAD"@,
        texts(args@).last() == branch@,
{
    assert(texts(args@)[3] == "-z"@);
}

/// What a merge brings in is counted and shown from `HEAD` to the branch: the commits that the
/// branch has and `HEAD` has not.
pub proof fn law_a_merge_brings_in_what_head_lacks(
    branch: &BranchInfo,
    name: &str,
    range: String,
    shown: Vec<String>,
)
    requires
        name@ == branch.name@,
        call_ensures(merge_range, (name,), range),
        call_ensures(preview_args, (branch,), shown),
    ensures
        range@ == "HEAD"@ + ".."@ + branch.name@,
        texts(shown@)[texts(shown@).len() - 2] == range@,
        texts(shown@)[0] == "log"@,
        texts(shown@).last() == "--"@,
{
}

/// The picked branch is the one that is merged, and the question is about it: it names the branch
/// first, and lists just the files that are predicted to conflict.
pub proof fn law_the_picked_branch_is_merged(
    mode: MergeMode,
    candidates: &[BranchInfo],
    selected: &str,
    count: usize,
    prediction: &ConflictPrediction,
    plan: MergePlan,
)
    requires
        call_ensures(run_on_selection, (mode, candidates, selected, count, prediction), Ok(plan)),
    ensures
        keys_of(candidates@).contains(selected@),
        texts(plan.run.args@)[0] == "merge"@,
        texts(plan.run.args@).last() == selected@,
        ("`"@ + selected@).is_prefix_of(plan.header@),
        prediction matches ConflictPrediction::Conflicted(files) ==> texts(plan.targets@) == texts(
            files@,
        ),
        !(prediction is Conflicted) ==> plan.targets@.len() == 0,
{
    let keys = keys_of(candidates@);
    keys.index_of_first_ensures(selected@);
    let i = keys.index_of_first(selected@).unwrap();
    assert(keys[i] == candidates@[i].name@);
    assert(texts(plan.targets@).len() == plan.targets@.len());
}

/// The question says how many commits come in, and the command that runs.
pub proof fn law_the_question_counts_what_comes_in(
    branch: &str,
    count: usize,
    args: &Vec<String>,
    prediction: &ConflictPrediction,
    header: String,
)
    requires
        call_ensures(confirmation_header, (branch, count, args, prediction), header),
    ensures
        ("`"@ + branch@ + "` を merge します（取り込まれるコミット: "@ + decimal(count as nat)
            + " 件）\n実行するコマンド: "@ + ("git "@ + join(texts(args@), " "@))).is_prefix_of(
            header@,
        ),
{
}

/// What is predicted is said: that there is a conflict if and only if one is predicted, with the
/// number of files where they are named.
pub proof fn law_a_prediction_is_told(prediction: &ConflictPrediction, note: String)
    requires
        call_ensures(prediction_note, (prediction,), note),
    ensures
        prediction is Clean ==> note@ == PREDICTION_CLEAN_NOTE@,
        prediction is Unavailable ==> note@ == PREDICTION_UNAVAILABLE_NOTE@,
        prediction matches ConflictPrediction::Conflicted(files) ==> {
            &&& files@.len() == 0 ==> note@ == PREDICTION_UNNAMED_NOTE@
            &&& files@.len() > 0 ==> note@ == "コンフリクト予測: 次の "@ + decimal(files@.len())
                + " 件のファイルで発生する見込みです"@
        },
{
    if let ConflictPrediction::Conflicted(files) = prediction {
        assert(texts(files@).len() == files@.len());
    }
}

/// A branch is found by its name.
pub proof fn law_a_branch_is_found_by_its_name(branch: &BranchInfo, item: FinderItem)
    requires
        call_ensures(to_item, (branch,), item),
    ensures
        item.key@ == branch.name@,
        item.display@ == branch.name@,
        item@.preview matches Preview::Git(args) && args[args.len() - 2] == "HEAD"@ + ".."@
            + branch.name@,
{
    assert(item@.key == item.key@);
}

} // verus!
