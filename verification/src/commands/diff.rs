//! `gz diff`: show the difference of picked files between picked states.

use vstd::prelude::*;

use crate::commands::commit_text;
use crate::commands::file_selection::{
    all_paths, first_occurrences, path_lists, resolve, target_paths, FileCandidate,
};
use crate::error::Error;
use crate::finder::{
    headed, item_views, items_of, plain, Candidate, FinderItem, FinderOptions, Picker, Preview,
    PreviewSource, SelectionMode,
};
use crate::git::{
    pathspec, pathspec_text, pathspec_texts, push_pathspecs, BranchInfo, CommitInfo, GitRun,
    Upstream,
};
use crate::i18n::Messages;
use crate::selection::{find_by_key, keys_of, missing_keys, picked, values};
use crate::text::{concat2, concat3, copied, join, owned_all, texts};

verus! {

broadcast use crate::text::lemma_texts_push;

/// The current position.
pub const HEAD_REVISION: &'static str = "HEAD";

/// The option for what is staged.
pub const STAGED_OPTION: &'static str = "--staged";

/// The option that keeps colours where the output is captured.
pub const COLOR_OPTION: &'static str = "--color=always";

/// How many commits a preview shows.
pub const PREVIEW_COMMIT_COUNT: &'static str = "50";

/// What is compared.
#[derive(Debug, Clone, Copy, PartialEq, Eq, Structural)]
pub enum DiffMode {
    /// The index and the work tree, as `git diff` does by itself.
    Unstaged,
    /// `HEAD` and the index.
    Staged,
    /// `HEAD` and the work tree.
    Head,
    /// `HEAD` and the upstream.
    Upstream,
    /// Two picked branches.
    BranchToBranch,
    /// Two picked commits.
    CommitToCommit,
}

impl DiffMode {
    /// Reads the flags. At most one of them may be set.
    pub fn from_flags(
        messages: Messages,
        staged: bool,
        head: bool,
        upstream: bool,
        branch: bool,
        commit: bool,
    ) -> (mode: Result<Self, Error>)
        ensures
            match (staged, head, upstream, branch, commit) {
                (false, false, false, false, false) => mode == Ok::<Self, Error>(
                    DiffMode::Unstaged,
                ),
                (true, false, false, false, false) => mode == Ok::<Self, Error>(DiffMode::Staged),
                (false, true, false, false, false) => mode == Ok::<Self, Error>(DiffMode::Head),
                (false, false, true, false, false) => mode == Ok::<Self, Error>(
                    DiffMode::Upstream,
                ),
                (false, false, false, true, false) => mode == Ok::<Self, Error>(
                    DiffMode::BranchToBranch,
                ),
                (false, false, false, false, true) => mode == Ok::<Self, Error>(
                    DiffMode::CommitToCommit,
                ),
                _ => mode matches Err(error) && error.says(
                    messages.diff().conflicting_modes_text(),
                ),
            },
    {
        match (staged, head, upstream, branch, commit) {
            (false, false, false, false, false) => Ok(DiffMode::Unstaged),
            (true, false, false, false, false) => Ok(DiffMode::Staged),
            (false, true, false, false, false) => Ok(DiffMode::Head),
            (false, false, true, false, false) => Ok(DiffMode::Upstream),
            (false, false, false, true, false) => Ok(DiffMode::BranchToBranch),
            (false, false, false, false, true) => Ok(DiffMode::CommitToCommit),
            _ => Err(Error::Explained(messages.diff().conflicting_modes().to_owned())),
        }
    }
}

/// Two states to compare: what `git diff` gets for them, and how they are called.
#[derive(Debug, PartialEq, Eq)]
pub struct DiffRange {
    pub arguments: Vec<String>,
    pub description: String,
}

impl DiffRange {
    /// Whether this is the range of the given arguments and description.
    pub open spec fn is(self, arguments: Seq<Seq<char>>, description: Seq<char>) -> bool {
        texts(self.arguments@) == arguments && self.description@ == description
    }

    pub fn unstaged(messages: Messages) -> (range: Self)
        ensures
            range.is(Seq::empty(), messages.diff().unstaged_range_text()),
    {
        let arguments: Vec<String> = Vec::new();
        assert(texts(arguments@) =~= Seq::empty());
        DiffRange { arguments, description: messages.diff().unstaged_range().to_owned() }
    }

    pub fn staged(messages: Messages) -> (range: Self)
        ensures
            range.is(seq![STAGED_OPTION@], messages.diff().staged_range_text()),
    {
        let arguments = owned_all(&[STAGED_OPTION]);
        assert(texts(arguments@) =~= seq![STAGED_OPTION@]);
        DiffRange { arguments, description: messages.diff().staged_range().to_owned() }
    }

    pub fn head(messages: Messages) -> (range: Self)
        ensures
            range.is(seq![HEAD_REVISION@], messages.diff().head_range_text()),
    {
        let arguments = owned_all(&[HEAD_REVISION]);
        assert(texts(arguments@) =~= seq![HEAD_REVISION@]);
        DiffRange { arguments, description: messages.diff().head_range().to_owned() }
    }

    /// Two revisions.
    pub fn revisions(base: &str, target: &str) -> (range: Self)
        ensures
            range.is(seq![base@, target@], base@ + " → "@ + target@),
    {
        DiffRange::labelled_revisions(base, base, target, target)
    }

    /// Two revisions that are called otherwise than git is told. They are two arguments: an
    /// expression of two dots has a meaning of its own.
    pub fn labelled_revisions(
        base: &str,
        base_label: &str,
        target: &str,
        target_label: &str,
    ) -> (range: Self)
        ensures
            range.is(seq![base@, target@], base_label@ + " → "@ + target_label@),
    {
        let arguments = owned_all(&[base, target]);
        assert(texts(arguments@) =~= seq![base@, target@]);
        DiffRange { arguments, description: concat3(base_label, " → ", target_label) }
    }
}

/// What is still needed to settle the range.
#[derive(Debug, PartialEq, Eq)]
pub enum RangeStep {
    /// Nothing.
    Settled(DiffRange),
    /// The upstream.
    Upstream,
    /// Two branches.
    Branches,
    /// Two commits.
    Commits,
}

/// Settles the range of a mode, or says what is still needed.
pub fn resolve_range(messages: Messages, mode: DiffMode) -> (step: RangeStep)
    ensures
        match mode {
            DiffMode::Unstaged => step matches RangeStep::Settled(range) && range.is(
                Seq::empty(),
                messages.diff().unstaged_range_text(),
            ),
            DiffMode::Staged => step matches RangeStep::Settled(range) && range.is(
                seq![STAGED_OPTION@],
                messages.diff().staged_range_text(),
            ),
            DiffMode::Head => step matches RangeStep::Settled(range) && range.is(
                seq![HEAD_REVISION@],
                messages.diff().head_range_text(),
            ),
            DiffMode::Upstream => step is Upstream,
            DiffMode::BranchToBranch => step is Branches,
            DiffMode::CommitToCommit => step is Commits,
        },
{
    match mode {
        DiffMode::Unstaged => RangeStep::Settled(DiffRange::unstaged(messages)),
        DiffMode::Staged => RangeStep::Settled(DiffRange::staged(messages)),
        DiffMode::Head => RangeStep::Settled(DiffRange::head(messages)),
        DiffMode::Upstream => RangeStep::Upstream,
        DiffMode::BranchToBranch => RangeStep::Branches,
        DiffMode::CommitToCommit => RangeStep::Commits,
    }
}

/// Why there is no upstream to compare with.
pub open spec fn upstream_problem(
    messages: Messages,
    branch: Option<Seq<char>>,
    upstream: Option<Upstream>,
) -> Option<Seq<char>> {
    match (branch, upstream) {
        (None, _) => Some(messages.common().detached_head_without_upstream_text()),
        (Some(branch), None) => Some(messages.common().upstream_not_configured_text(branch)),
        (Some(branch), Some(upstream)) => match upstream.tracking_text() {
            None => Some(
                messages.diff().tracking_ref_unavailable_text(
                    branch,
                    upstream.remote@,
                    upstream.merge_ref@,
                ),
            ),
            Some(_) => None,
        },
    }
}

/// The range from `HEAD` to the upstream: its local reference, which needs no network.
pub fn upstream_range(messages: Messages, branch: Option<&str>, upstream: Option<&Upstream>) -> (range:
    Result<DiffRange, Error>)
    ensures
        ({
            let known = match upstream {
                Some(upstream) => Some(*upstream),
                None => None,
            };
            match upstream_problem(messages, crate::text::text_of(branch), known) {
                Some(problem) => range matches Err(error) && error.says(problem),
                None => range matches Ok(range) && range.is(
                    seq![HEAD_REVISION@, known->0.tracking_text()->0],
                    HEAD_REVISION@ + " → "@ + known->0.tracking_text()->0,
                ),
            }
        }),
{
    let branch = match branch {
        Some(branch) => branch,
        None => {
            return Err(
                Error::Explained(messages.common().detached_head_without_upstream().to_owned()),
            );
        },
    };
    let upstream = match upstream {
        Some(upstream) => upstream,
        None => {
            return Err(Error::Explained(messages.common().upstream_not_configured(branch)));
        },
    };
    match upstream.tracking_ref() {
        Some(reference) => Ok(DiffRange::revisions(HEAD_REVISION, reference.as_str())),
        None => Err(
            Error::Explained(
                messages.diff().tracking_ref_unavailable(
                    branch,
                    upstream.remote.as_str(),
                    upstream.merge_ref.as_str(),
                ),
            ),
        ),
    }
}

/// The arguments that show the log of a branch.
pub open spec fn log_arguments(name: Seq<char>) -> Seq<Seq<char>> {
    seq![
        "log"@,
        COLOR_OPTION@,
        "--oneline"@,
        "--decorate"@,
        "-n"@,
        PREVIEW_COMMIT_COUNT@,
        name,
        "--"@,
    ]
}

/// A branch in the list.
pub open spec fn branch_candidate(branch: BranchInfo) -> Candidate {
    plain(branch.name@, branch.name@, Preview::Git(log_arguments(branch.name@)))
}

/// A commit in the list.
pub open spec fn commit_candidate(commit: CommitInfo) -> Candidate {
    plain(
        commit_text(commit.short_id@, commit.time@, commit.summary@, commit.author@),
        commit.id@,
        Preview::Git(seq!["show"@, COLOR_OPTION@, commit.id@, "--"@]),
    )
}

/// Builds the list of branches, under one of the two headers.
pub fn branch_picker(candidates: &[BranchInfo], header: &str) -> (picker: Picker)
    ensures
        item_views(picker.items@) == candidates@.map_values(
            |branch: BranchInfo| branch_candidate(branch),
        ),
        picker.options@ == headed(SelectionMode::Single, header@),
{
    let items = items_of(candidates, branch_item);
    assert(item_views(items@) =~= candidates@.map_values(|branch: BranchInfo| branch_candidate(branch)));
    Picker {
        items,
        options: FinderOptions::new(SelectionMode::Single).with_header(header.to_owned()),
    }
}

/// Builds the list of commits, under one of the two headers.
pub fn commit_picker(candidates: &[CommitInfo], header: &str) -> (picker: Picker)
    ensures
        item_views(picker.items@) == candidates@.map_values(
            |commit: CommitInfo| commit_candidate(commit),
        ),
        picker.options@ == headed(SelectionMode::Single, header@),
{
    let items = items_of(candidates, commit_item);
    assert(item_views(items@) =~= candidates@.map_values(|commit: CommitInfo| commit_candidate(commit)));
    Picker {
        items,
        options: FinderOptions::new(SelectionMode::Single).with_header(header.to_owned()),
    }
}

/// Finds a picked branch. A name that was not offered is an error: a revision cannot be
/// protected by a separator.
pub fn choose_branch(messages: Messages, candidates: &[BranchInfo], selected: &str) -> (name: Result<
    String,
    Error,
>)
    ensures
        if keys_of(candidates@).contains(selected@) {
            name matches Ok(name) && name@ == selected@
        } else {
            name matches Err(error) && error.says(
                messages.diff().branch_selection_not_found_text(selected@),
            )
        },
{
    proof {
        keys_of(candidates@).index_of_first_ensures(selected@);
    }
    match find_by_key(candidates, selected) {
        Some(branch) => Ok(branch.name.clone()),
        None => Err(Error::Explained(messages.diff().branch_selection_not_found(selected))),
    }
}

/// Finds a picked commit. A hash that was not offered is an error.
pub fn choose_commit<'a>(messages: Messages, candidates: &'a [CommitInfo], selected: &str) -> (commit:
    Result<&'a CommitInfo, Error>)
    ensures
        match keys_of(candidates@).index_of_first(selected@) {
            Some(i) => commit matches Ok(commit) && *commit == candidates@[i],
            None => commit matches Err(error) && error.says(
                messages.diff().commit_selection_not_found_text(selected@),
            ),
        },
{
    proof {
        keys_of(candidates@).index_of_first_ensures(selected@);
    }
    match find_by_key(candidates, selected) {
        Some(commit) => Ok(commit),
        None => Err(Error::Explained(messages.diff().commit_selection_not_found(selected))),
    }
}

/// The range between two picked branches. A name that was not offered is an error, the first
/// one before the second, so that only names of the list reach git.
pub fn branch_range(messages: Messages, candidates: &[BranchInfo], base: &str, target: &str) -> (range:
    Result<DiffRange, Error>)
    ensures
        if !keys_of(candidates@).contains(base@) {
            range matches Err(error) && error.says(
                messages.diff().branch_selection_not_found_text(base@),
            )
        } else if !keys_of(candidates@).contains(target@) {
            range matches Err(error) && error.says(
                messages.diff().branch_selection_not_found_text(target@),
            )
        } else {
            range matches Ok(range) && range.is(seq![base@, target@], base@ + " → "@ + target@)
        },
{
    let base = match choose_branch(messages, candidates, base) {
        Ok(name) => name,
        Err(error) => {
            return Err(error);
        },
    };
    match choose_branch(messages, candidates, target) {
        Ok(target) => Ok(DiffRange::revisions(base.as_str(), target.as_str())),
        Err(error) => Err(error),
    }
}

/// The range between two picked commits: git gets the full hashes, the header the short. A
/// hash that was not offered is an error, the first one before the second.
pub fn commit_range(messages: Messages, candidates: &[CommitInfo], base: &str, target: &str) -> (range:
    Result<DiffRange, Error>)
    ensures
        match (
            keys_of(candidates@).index_of_first(base@),
            keys_of(candidates@).index_of_first(target@),
        ) {
            (None, _) => range matches Err(error) && error.says(
                messages.diff().commit_selection_not_found_text(base@),
            ),
            (Some(_), None) => range matches Err(error) && error.says(
                messages.diff().commit_selection_not_found_text(target@),
            ),
            (Some(i), Some(j)) => range matches Ok(range) && range.is(
                seq![candidates@[i].id@, candidates@[j].id@],
                candidates@[i].short_id@ + " → "@ + candidates@[j].short_id@,
            ),
        },
{
    let base = match choose_commit(messages, candidates, base) {
        Ok(commit) => commit,
        Err(error) => {
            return Err(error);
        },
    };
    match choose_commit(messages, candidates, target) {
        Ok(target) => Ok(
            DiffRange::labelled_revisions(
                base.id.as_str(),
                base.short_id.as_str(),
                target.id.as_str(),
                target.short_id.as_str(),
            ),
        ),
        Err(error) => Err(error),
    }
}

/// A branch as the list shows it: its name.
pub fn branch_display_line(branch: &BranchInfo) -> (line: String)
    ensures
        line@ == branch.name@,
{
    branch.name.clone()
}

/// The arguments that show the log of a branch.
pub fn branch_preview_args(branch: &BranchInfo) -> (args: Vec<String>)
    ensures
        texts(args@) == log_arguments(branch.name@),
{
    let args = owned_all(
        &[
            "log",
            COLOR_OPTION,
            "--oneline",
            "--decorate",
            "-n",
            PREVIEW_COMMIT_COUNT,
            branch.name.as_str(),
            "--",
        ],
    );
    assert(texts(args@) =~= log_arguments(branch.name@));
    args
}

/// A branch as a candidate.
pub fn branch_item(branch: &BranchInfo) -> (item: FinderItem)
    ensures
        item@ == branch_candidate(*branch),
{
    FinderItem::new(
        branch_display_line(branch),
        branch.name.clone(),
        PreviewSource::Git(branch_preview_args(branch)),
    )
}

/// Writes the line of a commit.
pub fn commit_display_line(commit: &CommitInfo) -> (line: String)
    ensures
        line@ == commit_text(commit.short_id@, commit.time@, commit.summary@, commit.author@),
{
    crate::commands::commit_line(commit)
}

/// The arguments that show a commit.
pub fn commit_preview_args(commit: &CommitInfo) -> (args: Vec<String>)
    ensures
        texts(args@) == seq!["show"@, COLOR_OPTION@, commit.id@, "--"@],
{
    let args = owned_all(&["show", COLOR_OPTION, commit.id.as_str(), "--"]);
    assert(texts(args@) =~= seq!["show"@, COLOR_OPTION@, commit.id@, "--"@]);
    args
}

/// A commit as a candidate.
pub fn commit_item(commit: &CommitInfo) -> (item: FinderItem)
    ensures
        item@ == commit_candidate(*commit),
{
    FinderItem::new(
        commit_display_line(commit),
        commit.id.clone(),
        PreviewSource::Git(commit_preview_args(commit)),
    )
}

/// The arguments that show the difference of one file.
pub open spec fn file_arguments(range: Seq<Seq<char>>, path: Seq<char>) -> Seq<Seq<char>> {
    seq!["diff"@, COLOR_OPTION@] + range + seq!["--"@, pathspec_text(path)]
}

/// The arguments that show the difference of files.
pub open spec fn diff_arguments(range: Seq<Seq<char>>, paths: Seq<Seq<char>>) -> Seq<Seq<char>> {
    seq!["diff"@] + range + seq!["--"@] + pathspec_texts(paths)
}

/// Writes the arguments that show the difference of one file.
pub fn file_preview_args(range: &DiffRange, path: &str) -> (args: Vec<String>)
    ensures
        texts(args@) == file_arguments(texts(range.arguments@), path@),
{
    let mut args = owned_all(&["diff", COLOR_OPTION]);
    assert(texts(args@) =~= seq!["diff"@, COLOR_OPTION@]);
    let mut rest = copied(&range.arguments);
    let ghost copies = rest@;
    args.append(&mut rest);
    assert(texts(args@) =~= seq!["diff"@, COLOR_OPTION@] + texts(copies));
    args.push("--".to_owned());
    args.push(pathspec(path));
    assert(texts(args@) =~= file_arguments(texts(copies), path@));
    args
}

/// A changed file as the list shows it.
pub fn to_item(range: &DiffRange, candidate: &FileCandidate) -> (item: FinderItem)
    ensures
        item@ == plain(
            candidate.display@,
            candidate.key@,
            Preview::Git(file_arguments(texts(range.arguments@), candidate.key@)),
        ),
{
    FinderItem::new(
        candidate.display.clone(),
        candidate.key.clone(),
        PreviewSource::Git(file_preview_args(range, candidate.key.as_str())),
    )
}

/// Writes the arguments that show the difference of files.
pub fn diff_args(range: &DiffRange, paths: &Vec<String>) -> (args: Vec<String>)
    ensures
        texts(args@) == diff_arguments(texts(range.arguments@), texts(paths@)),
{
    let mut args: Vec<String> = Vec::new();
    args.push("diff".to_owned());
    let mut rest = copied(&range.arguments);
    let ghost copies = rest@;
    args.append(&mut rest);
    args.push("--".to_owned());
    assert(texts(args@) =~= seq!["diff"@] + texts(copies) + seq!["--"@]);
    push_pathspecs(&mut args, paths);
    args
}

/// What follows once the changed files are known.
#[derive(Debug, PartialEq, Eq)]
pub enum FilesStep {
    /// Nothing differs. That is no error, and is said.
    NoDiff(String),
    /// Files are picked.
    Pick(Picker),
}

/// Builds the list of changed files, or says that nothing differs.
pub fn files_step(messages: Messages, range: &DiffRange, files: &Vec<String>) -> (step: FilesStep)
    ensures
        match step {
            FilesStep::NoDiff(line) => files@.len() == 0 && line@
                == messages.diff().no_diff_text(range.description@) + "\n"@,
            FilesStep::Pick(picker) => {
                &&& files@.len() > 0
                &&& item_views(picker.items@) == texts(files@).map_values(
                    |path: Seq<char>|
                        plain(
                            path,
                            path,
                            Preview::Git(file_arguments(texts(range.arguments@), path)),
                        ),
                )
                &&& picker.options@ == headed(SelectionMode::Multi, range.description@)
            },
        },
{
    if files.len() == 0 {
        return FilesStep::NoDiff(report_no_diff(messages, range));
    }
    let ghost all = texts(files@).map_values(
        |path: Seq<char>|
            plain(path, path, Preview::Git(file_arguments(texts(range.arguments@), path))),
    );
    let item = |path: &String| -> (item: FinderItem)
        ensures
            item@ == plain(
                path@,
                path@,
                Preview::Git(file_arguments(texts(range.arguments@), path@)),
            ),
        { to_item(range, &FileCandidate::from_path(path.as_str())) };
    let items = items_of(files.as_slice(), item);
    assert(item_views(items@) =~= all);
    let options = FinderOptions::new(SelectionMode::Multi).with_header(range.description.clone());
    FilesStep::Pick(Picker { items, options })
}

/// The run that shows the picked files, in the order of git. A picked path that was not
/// offered is an error.
pub fn run_on_selection(
    messages: Messages,
    range: &DiffRange,
    files: &Vec<String>,
    selected: &Vec<String>,
) -> (run: Result<GitRun, Error>)
    ensures
        match run {
            Ok(run) => {
                &&& missing_keys(texts(files@), texts(selected@)).len() == 0
                &&& run.is(
                    diff_arguments(
                        texts(range.arguments@),
                        first_occurrences(
                            texts(files@).filter(
                                |path: Seq<char>| texts(selected@).contains(path),
                            ),
                        ),
                    ),
                    messages.diff().diff_failed_text(range.description@),
                )
            },
            Err(error) => {
                &&& missing_keys(texts(files@), texts(selected@)).len() > 0
                &&& error.says(
                    messages.file_selection().selection_not_found_text(
                        join(missing_keys(texts(files@), texts(selected@)), ", "@),
                    ),
                )
            },
        },
{
    let mut candidates: Vec<FileCandidate> = Vec::new();
    let mut i: usize = 0;
    while i < files.len()
        invariant
            i <= files@.len(),
            candidates@.len() == i,
            forall|k: int|
                0 <= k < i ==> (#[trigger] candidates@[k]).key@ == files@[k]@ && texts(
                    candidates@[k].paths@,
                ) == seq![files@[k]@],
        decreases files@.len() - i,
    {
        candidates.push(FileCandidate::from_path(files[i].as_str()));
        i += 1;
    }
    assert(keys_of(candidates@) =~= texts(files@));
    match resolve(messages, candidates.as_slice(), selected) {
        Ok(list) => {
            let paths = target_paths(list.as_slice());
            proof {
                lemma_picked_paths(candidates@, texts(selected@));
                assert(values(list@) == picked(candidates@, texts(selected@)));
            }
            Ok(
                GitRun {
                    args: diff_args(range, &paths),
                    failure: messages.diff().diff_failed(range.description.as_str()),
                },
            )
        },
        Err(error) => Err(error),
    }
}

/// Candidates that stand for their keys: the paths of the picked ones are their keys.
proof fn lemma_picked_paths(candidates: Seq<FileCandidate>, selected: Seq<Seq<char>>)
    requires
        forall|k: int|
            0 <= k < candidates.len() ==> texts((#[trigger] candidates[k]).paths@)
                == seq![candidates[k].key@],
    ensures
        all_paths(
            path_lists(picked(candidates, selected)),
        ) == keys_of(candidates).filter(|path: Seq<char>| selected.contains(path)),
    decreases candidates.len(),
{
    reveal(Seq::filter);
    let wanted = |path: Seq<char>| selected.contains(path);
    if candidates.len() > 0 {
        let before = candidates.drop_last();
        let last = candidates.last();
        lemma_picked_paths(before, selected);
        assert(keys_of(candidates).drop_last() =~= keys_of(before));
        let lists = path_lists(picked(candidates, selected));
        let shorter = path_lists(picked(before, selected));
        if selected.contains(last.key@) {
            assert(picked(candidates, selected) =~= picked(before, selected).push(last));
            assert(lists.drop_last() =~= shorter);
            assert(lists.last() == seq![last.key@]);
            assert(all_paths(lists) =~= all_paths(shorter).push(last.key@));
        } else {
            assert(picked(candidates, selected) =~= picked(before, selected));
        }
    } else {
        assert(picked(candidates, selected) =~= Seq::empty());
        assert(path_lists(picked(candidates, selected))
            =~= Seq::empty());
        assert(keys_of(candidates).filter(wanted) =~= Seq::empty());
    }
}

/// Says that nothing differs.
pub fn no_diff_message(messages: Messages, range: &DiffRange) -> (line: String)
    ensures
        line@ == messages.diff().no_diff_text(range.description@),
{
    messages.diff().no_diff(range.description.as_str())
}

/// Says that nothing differs, on a line of its own.
pub fn report_no_diff(messages: Messages, range: &DiffRange) -> (line: String)
    ensures
        line@ == messages.diff().no_diff_text(range.description@) + "\n"@,
{
    concat2(no_diff_message(messages, range).as_str(), "\n")
}

/// A comparison goes from what was picked first to what was picked second: turned round, it is
/// the other way round, for git and in the header alike.
pub proof fn law_a_comparison_has_a_direction(
    messages: Messages,
    candidates: &[BranchInfo],
    base: &str,
    target: &str,
    forth: DiffRange,
    back: DiffRange,
)
    requires
        call_ensures(branch_range, (messages, candidates, base, target), Ok(forth)),
        call_ensures(branch_range, (messages, candidates, target, base), Ok(back)),
    ensures
        texts(forth.arguments@).len() == 2,
        texts(forth.arguments@)[0] == base@,
        texts(forth.arguments@)[1] == target@,
        texts(back.arguments@) == texts(forth.arguments@).reverse(),
        base@.is_prefix_of(forth.description@),
        target@.is_prefix_of(back.description@),
{
    assert(seq![target@, base@] =~= seq![base@, target@].reverse());
}

/// Two commits are compared by their full hashes, which are their keys, from the first to the
/// second; the header shows the short ones in the same order.
pub proof fn law_commits_are_compared_by_their_full_hashes(
    messages: Messages,
    candidates: &[CommitInfo],
    base: &str,
    target: &str,
    range: DiffRange,
)
    requires
        call_ensures(commit_range, (messages, candidates, base, target), Ok(range)),
    ensures
        texts(range.arguments@) == seq![base@, target@],
        exists|i: int, j: int|
            {
                &&& 0 <= i < candidates@.len()
                &&& 0 <= j < candidates@.len()
                &&& (#[trigger] candidates@[i]).id@ == base@
                &&& (#[trigger] candidates@[j]).id@ == target@
                &&& range.description@ == candidates@[i].short_id@ + " → "@
                    + candidates@[j].short_id@
            },
{
    let keys = keys_of(candidates@);
    keys.index_of_first_ensures(base@);
    keys.index_of_first_ensures(target@);
    let i = keys.index_of_first(base@).unwrap();
    let j = keys.index_of_first(target@).unwrap();
    assert(keys[i] == candidates@[i].id@);
    assert(keys[j] == candidates@[j].id@);
}

/// The upstream is compared by the local reference of the branch that is followed: whatever the
/// remote and the branch are called, git gets `HEAD` and then that reference.
pub proof fn law_the_upstream_is_compared_by_its_reference(
    messages: Messages,
    branch: &str,
    upstream: &Upstream,
    followed: Seq<char>,
    range: Result<DiffRange, Error>,
)
    requires
        upstream.merge_ref@ == "refs/heads/"@ + followed,
        call_ensures(upstream_range, (messages, Some(branch), Some(upstream)), range),
    ensures
        range matches Ok(range) && texts(range.arguments@) == seq![
            "HEAD"@,
            "refs/remotes/"@ + upstream.remote@ + "/"@ + followed,
        ],
{
    let prefix = "refs/heads/"@;
    assert(prefix.is_prefix_of(upstream.merge_ref@));
    assert(upstream.merge_ref@.skip(prefix.len() as int) =~= followed);
}

/// Without a branch, or without an upstream, there is nothing to compare with.
pub proof fn law_no_upstream_is_no_comparison(
    messages: Messages,
    branch: Option<&str>,
    upstream: Option<&Upstream>,
    range: Result<DiffRange, Error>,
)
    requires
        branch is None || upstream is None,
        call_ensures(upstream_range, (messages, branch, upstream), range),
    ensures
        range is Err,
{
}

/// Git gets `diff`, the two states, the separator and then the paths; the preview of one file
/// asks for the same, and for colours.
pub proof fn law_the_states_stand_before_the_paths(
    range: &DiffRange,
    paths: &Vec<String>,
    path: &str,
    run: Vec<String>,
    shown: Vec<String>,
)
    requires
        call_ensures(diff_args, (range, paths), run),
        call_ensures(file_preview_args, (range, path), shown),
    ensures
        texts(run@).len() == range.arguments@.len() + paths@.len() + 2,
        texts(run@)[0] == "diff"@,
        texts(run@).subrange(1, 1 + range.arguments@.len() as int) == texts(range.arguments@),
        texts(run@)[1 + range.arguments@.len() as int] == "--"@,
        texts(shown@).len() == range.arguments@.len() + 4,
        texts(shown@)[0] == "diff"@,
        texts(shown@)[1] == "--color=always"@,
        texts(shown@).subrange(2, 2 + range.arguments@.len() as int) == texts(range.arguments@),
        texts(shown@)[2 + range.arguments@.len() as int] == "--"@,
        texts(shown@).last() == ":(top,literal)"@ + path@,
{
    assert(texts(range.arguments@).len() == range.arguments@.len());
    assert(pathspec_texts(texts(paths@)).len() == paths@.len());
    assert(texts(run@).subrange(1, 1 + range.arguments@.len() as int) =~= texts(range.arguments@));
    assert(texts(shown@).subrange(2, 2 + range.arguments@.len() as int) =~= texts(range.arguments@));
}

/// A list is shown if and only if there is a difference, and it then holds every file that
/// differs, by its path.
pub proof fn law_every_file_that_differs_is_offered(
    messages: Messages,
    range: &DiffRange,
    files: &Vec<String>,
    step: FilesStep,
)
    requires
        call_ensures(files_step, (messages, range, files), step),
    ensures
        step is NoDiff <==> files@.len() == 0,
        step matches FilesStep::Pick(picker) ==> picker.items@.len() == files@.len() && forall|i: int|
            0 <= i < files@.len() ==> (#[trigger] picker.items@[i]).key@ == files@[i]@,
{
    if let FilesStep::Pick(picker) = step {
        assert(item_views(picker.items@).len() == picker.items@.len());
        assert forall|i: int| 0 <= i < files@.len() implies (#[trigger] picker.items@[i]).key@
            == files@[i]@ by {
            assert(item_views(picker.items@)[i] == picker.items@[i]@);
            assert(texts(files@)[i] == files@[i]@);
        }
    }
}

/// The picked files are compared, and no others: behind the separator git gets exactly their
/// paths, and a path that was not offered is refused.
pub proof fn law_exactly_what_was_picked_is_compared(
    messages: Messages,
    range: &DiffRange,
    files: &Vec<String>,
    selected: &Vec<String>,
    run: Result<GitRun, Error>,
    path: Seq<char>,
)
    requires
        call_ensures(run_on_selection, (messages, range, files, selected), run),
    ensures
        run is Err <==> exists|key: Seq<char>|
            texts(selected@).contains(key) && !texts(files@).contains(key),
        run matches Ok(run) ==> {
            let paths = texts(run.args@).skip(2 + range.arguments@.len() as int);
            &&& texts(run.args@).len() >= 2 + range.arguments@.len()
            &&& texts(files@).contains(path) && texts(selected@).contains(path)
                ==> paths.contains(":(top,literal)"@ + path)
            &&& paths.len() <= files@.len()
        },
{
    broadcast use vstd::seq_lib::group_filter_ensures;

    crate::selection::law_selection_is_refused_for_unknown_keys(texts(files@), texts(selected@));
    if let Ok(run) = run {
        let wanted = |path: Seq<char>| texts(selected@).contains(path);
        let kept = texts(files@).filter(wanted);
        let once = first_occurrences(kept);
        assert(texts(range.arguments@).len() == range.arguments@.len());
        let paths = texts(run.args@).skip(2 + range.arguments@.len() as int);
        assert(paths =~= pathspec_texts(once));
        crate::commands::file_selection::law_each_path_once(kept);
        lemma_first_occurrences_len(kept);
        assert(texts(files@).len() == files@.len());
        assert(kept.len() <= texts(files@).len());
        if texts(files@).contains(path) && texts(selected@).contains(path) {
            let i = choose|i: int| 0 <= i < texts(files@).len() && texts(files@)[i] == path;
            assert(wanted(texts(files@)[i]));
            assert(kept.contains(texts(files@)[i]));
            assert(once.contains(path));
            let k = choose|k: int| 0 <= k < once.len() && once[k] == path;
            assert(paths[k] == ":(top,literal)"@ + path);
        }
    }
}

proof fn lemma_first_occurrences_len(items: Seq<Seq<char>>)
    ensures
        first_occurrences(items).len() <= items.len(),
    decreases items.len(),
{
    if items.len() > 0 {
        lemma_first_occurrences_len(items.drop_last());
    }
}

/// A branch is found by its name and a commit by its full hash, and the preview is about that.
pub proof fn law_previews_are_about_their_own(
    branch: &BranchInfo,
    commit: &CommitInfo,
    branch_shown: FinderItem,
    commit_shown: FinderItem,
)
    requires
        call_ensures(branch_item, (branch,), branch_shown),
        call_ensures(commit_item, (commit,), commit_shown),
    ensures
        branch_shown.key@ == branch.name@,
        branch_shown.display@ == branch.name@,
        branch_shown@.preview matches Preview::Git(args) && args[0] == "log"@ && args[args.len() - 2]
            == branch.name@ && args.last() == "--"@,
        commit_shown.key@ == commit.id@,
        commit_shown@.preview matches Preview::Git(args) && args[0] == "show"@ && args[args.len()
            - 2] == commit.id@ && args.last() == "--"@,
{
    assert(branch_shown@.key == branch_shown.key@);
    assert(commit_shown@.key == commit_shown.key@);
}

/// Why there is nothing to compare with is told by what is missing: a branch, an upstream, or a
/// reference for it.
pub proof fn law_what_is_missing_is_told(
    messages: Messages,
    branch: &str,
    upstream: &Upstream,
    detached: Result<DiffRange, Error>,
    unset: Result<DiffRange, Error>,
    unfollowed: Result<DiffRange, Error>,
)
    requires
        !"refs/heads/"@.is_prefix_of(upstream.merge_ref@),
        call_ensures(upstream_range, (messages, None, Some(upstream)), detached),
        call_ensures(upstream_range, (messages, Some(branch), None), unset),
        call_ensures(upstream_range, (messages, Some(branch), Some(upstream)), unfollowed),
    ensures
        detached matches Err(error) && error.says(
            messages.common().detached_head_without_upstream_text(),
        ),
        unset matches Err(error) && error.says(
            messages.common().upstream_not_configured_text(branch@),
        ),
        unfollowed matches Err(error) && error.says(
            messages.diff().tracking_ref_unavailable_text(
                branch@,
                upstream.remote@,
                upstream.merge_ref@,
            ),
        ),
{
}

/// A file is found by its path, and its preview shows the difference of that file between the two
/// states.
pub proof fn law_a_preview_shows_its_own_file(
    range: &DiffRange,
    candidate: &FileCandidate,
    item: FinderItem,
)
    requires
        call_ensures(to_item, (range, candidate), item),
    ensures
        item.key@ == candidate.key@,
        item@.preview == Preview::Git(
            seq!["diff"@, "--color=always"@] + texts(range.arguments@) + seq![
                "--"@,
                ":(top,literal)"@ + candidate.key@,
            ],
        ),
{
    assert(item@.key == item.key@);
}

} // verus!
