//! `gz restore`: restore or unstage picked files.

use vstd::prelude::*;

use crate::commands::file_selection::{
    all_paths, first_occurrences, path_lists, resolve, target_paths, FileCandidate, RenameOrigin,
};
use crate::error::Error;
use crate::finder::{
    item_views, items_of, plain, Candidate, FinderItem, FinderOptions, ListOptions, Picker, Preview,
    PreviewSource, SelectionMode,
};
use crate::git::{pathspec_texts, push_pathspecs, ChangeScope, FileChange, GitRun};
use crate::i18n::Messages;
use crate::selection::{keys_of, missing_keys, picked, values};
use crate::text::{concat3, concat5, decimal, decimal_text, join, text_of, texts};

verus! {

broadcast use crate::text::lemma_texts_push;

/// What `git restore` writes to.
#[derive(Debug, Clone, Copy, PartialEq, Eq, Structural)]
pub enum RestoreTarget {
    /// The work tree. What is not committed is lost, so consent is asked for.
    Worktree,
    /// The index only.
    Index,
}

/// `git restore` failed.
pub const RESTORE_FAILED_MESSAGE: &'static str = "git restore の実行に失敗しました";

impl RestoreTarget {
    pub fn from_flag(staged: bool) -> (target: Self)
        ensures
            target == (if staged {
                RestoreTarget::Index
            } else {
                RestoreTarget::Worktree
            }),
    {
        if staged {
            RestoreTarget::Index
        } else {
            RestoreTarget::Worktree
        }
    }

    /// Which changes are offered.
    pub fn change_scope(self) -> (scope: ChangeScope)
        ensures
            scope == (match self {
                RestoreTarget::Worktree => ChangeScope::Worktree,
                RestoreTarget::Index => ChangeScope::Staged,
            }),
    {
        match self {
            RestoreTarget::Worktree => ChangeScope::Worktree,
            RestoreTarget::Index => ChangeScope::Staged,
        }
    }

    /// Whether the old path of a rename is a target too: unstaging undoes the rename itself.
    pub open spec fn origin(self) -> RenameOrigin {
        match self {
            RestoreTarget::Index => RenameOrigin::Include,
            RestoreTarget::Worktree => RenameOrigin::Exclude,
        }
    }

    pub fn rename_origin(self) -> (origin: RenameOrigin)
        ensures
            origin == self.origin(),
    {
        match self {
            RestoreTarget::Index => RenameOrigin::Include,
            RestoreTarget::Worktree => RenameOrigin::Exclude,
        }
    }
}

/// The contents of a [`FileCandidate`].
pub struct FileEntry {
    pub display: Seq<char>,
    pub key: Seq<char>,
    pub paths: Seq<Seq<char>>,
}

/// The contents of several candidates.
pub open spec fn entry_views(candidates: Seq<FileCandidate>) -> Seq<FileEntry> {
    candidates.map_values(
        |candidate: FileCandidate|
            FileEntry {
                display: candidate.display@,
                key: candidate.key@,
                paths: texts(candidate.paths@),
            },
    )
}

/// The candidates among changes.
pub fn change_candidates(target: RestoreTarget, changes: &[FileChange]) -> (candidates: Vec<
    FileCandidate,
>)
    ensures
        entry_views(candidates@) == changes@.map_values(
            |change: FileChange|
                FileEntry {
                    display: crate::commands::file_selection::change_line(change),
                    key: change.path@,
                    paths: crate::commands::file_selection::change_paths(change, target.origin()),
                },
        ),
{
    let ghost all = changes@.map_values(
        |change: FileChange|
            FileEntry {
                display: crate::commands::file_selection::change_line(change),
                key: change.path@,
                paths: crate::commands::file_selection::change_paths(change, target.origin()),
            },
    );
    let mut candidates: Vec<FileCandidate> = Vec::new();
    let mut i: usize = 0;
    assert(entry_views(candidates@) =~= all.take(0));
    while i < changes.len()
        invariant
            i <= changes@.len(),
            all == changes@.map_values(
                |change: FileChange|
                    FileEntry {
                        display: crate::commands::file_selection::change_line(change),
                        key: change.path@,
                        paths: crate::commands::file_selection::change_paths(
                            change,
                            target.origin(),
                        ),
                    },
            ),
            entry_views(candidates@) == all.take(i as int),
        decreases changes@.len() - i,
    {
        let ghost before = candidates@;
        let candidate = FileCandidate::from_change(&changes[i], target.rename_origin());
        candidates.push(candidate);
        proof {
            assert(entry_views(candidates@) =~= entry_views(before).push(all[i as int]));
        }
        i += 1;
        assert(entry_views(candidates@) =~= all.take(i as int));
    }
    assert(all.take(i as int) =~= all);
    candidates
}

/// The candidates among the files of a revision: all of them, changed or not.
pub fn revision_candidates(paths: &Vec<String>) -> (candidates: Vec<FileCandidate>)
    ensures
        entry_views(candidates@) == texts(paths@).map_values(
            |path: Seq<char>| FileEntry { display: path, key: path, paths: seq![path] },
        ),
{
    let ghost all = texts(paths@).map_values(
        |path: Seq<char>| FileEntry { display: path, key: path, paths: seq![path] },
    );
    let mut candidates: Vec<FileCandidate> = Vec::new();
    let mut i: usize = 0;
    assert(entry_views(candidates@) =~= all.take(0));
    while i < paths.len()
        invariant
            i <= paths@.len(),
            all == texts(paths@).map_values(
                |path: Seq<char>| FileEntry { display: path, key: path, paths: seq![path] },
            ),
            entry_views(candidates@) == all.take(i as int),
        decreases paths@.len() - i,
    {
        let ghost before = candidates@;
        let candidate = FileCandidate::from_path(paths[i].as_str());
        candidates.push(candidate);
        proof {
            assert(entry_views(candidates@) =~= entry_views(before).push(all[i as int]));
        }
        i += 1;
        assert(entry_views(candidates@) =~= all.take(i as int));
    }
    assert(all.take(i as int) =~= all);
    candidates
}

/// The arguments that show what a restore changes.
pub open spec fn diff_arguments(
    target: RestoreTarget,
    revision: Option<Seq<char>>,
    paths: Seq<Seq<char>>,
) -> Seq<Seq<char>> {
    seq!["diff"@, "--color=always"@] + (match target {
        RestoreTarget::Index => seq!["--staged"@],
        RestoreTarget::Worktree => Seq::empty(),
    }) + (match revision {
        Some(revision) => seq![revision],
        None => Seq::empty(),
    }) + seq!["--"@] + pathspec_texts(paths)
}

/// The arguments of a restore.
pub open spec fn restore_arguments(
    target: RestoreTarget,
    revision: Option<Seq<char>>,
    paths: Seq<Seq<char>>,
) -> Seq<Seq<char>> {
    seq!["restore"@] + (match target {
        RestoreTarget::Index => seq!["--staged"@],
        RestoreTarget::Worktree => Seq::empty(),
    }) + (match revision {
        Some(revision) => seq!["--source"@, revision],
        None => Seq::empty(),
    }) + seq!["--"@] + pathspec_texts(paths)
}

/// A candidate in the list.
pub open spec fn candidate_of(
    candidate: FileCandidate,
    target: RestoreTarget,
    revision: Option<Seq<char>>,
) -> Candidate {
    plain(
        candidate.display@,
        candidate.key@,
        Preview::Git(diff_arguments(target, revision, texts(candidate.paths@))),
    )
}

/// Builds the candidate list. The revision is the resolved hash.
pub fn picker(candidates: &[FileCandidate], target: RestoreTarget, revision: Option<&str>) -> (picker:
    Picker)
    ensures
        item_views(picker.items@) == candidates@.map_values(
            |candidate: FileCandidate| candidate_of(candidate, target, text_of(revision)),
        ),
        picker.options@ == (ListOptions {
            mode: SelectionMode::Multi,
            header: None,
            preselect: Seq::empty(),
        }),
{
    let ghost all = candidates@.map_values(
        |candidate: FileCandidate| candidate_of(candidate, target, text_of(revision)),
    );
    let item = |candidate: &FileCandidate| -> (item: FinderItem)
        ensures
            item@ == candidate_of(*candidate, target, text_of(revision)),
        { to_item(candidate, target, revision) };
    let items = items_of(candidates, item);
    assert(item_views(items@) =~= all);
    Picker { items, options: FinderOptions::new(SelectionMode::Multi) }
}

/// What a restore asks, where it asks, and what it runs.
#[derive(Debug, PartialEq, Eq)]
pub struct RestorePlan {
    /// The header and the files at stake.
    pub confirmation: Option<(String, Vec<String>)>,
    pub run: GitRun,
}

/// Whether a plan restores the given candidates. Consent is asked for if and only if the
/// work tree is written to; the question names the revision as it was given.
pub open spec fn restores(
    plan: RestorePlan,
    target: RestoreTarget,
    source: Option<Seq<char>>,
    revision: Option<Seq<char>>,
    chosen: Seq<FileCandidate>,
) -> bool {
    &&& match (target, plan.confirmation) {
        (RestoreTarget::Worktree, Some((header, files))) => header@ == header_of(
            chosen.len(),
            source,
        ) && texts(files@) == keys_of(chosen),
        (RestoreTarget::Index, None) => true,
        _ => false,
    }
    &&& plan.run.is(
        restore_arguments(
            target,
            revision,
            first_occurrences(all_paths(path_lists(chosen))),
        ),
        RESTORE_FAILED_MESSAGE@,
    )
}

/// Plans the restore of what was picked. A picked path that was not offered is an error.
pub fn run_on_selection(
    messages: Messages,
    candidates: &[FileCandidate],
    target: RestoreTarget,
    source: Option<&str>,
    revision: Option<&str>,
    selected: &Vec<String>,
) -> (plan: Result<RestorePlan, Error>)
    ensures
        match plan {
            Ok(plan) => {
                &&& missing_keys(keys_of(candidates@), texts(selected@)).len() == 0
                &&& restores(
                    plan,
                    target,
                    text_of(source),
                    text_of(revision),
                    picked(candidates@, texts(selected@)),
                )
            },
            Err(error) => {
                &&& missing_keys(keys_of(candidates@), texts(selected@)).len() > 0
                &&& error.says(
                    messages.file_selection().selection_not_found_text(
                        join(missing_keys(keys_of(candidates@), texts(selected@)), ", "@),
                    ),
                )
            },
        },
{
    let list = match resolve(messages, candidates, selected) {
        Ok(list) => list,
        Err(error) => {
            return Err(error);
        },
    };
    let ghost chosen = values(list@);
    let confirmation = match target {
        RestoreTarget::Worktree => {
            let mut files: Vec<String> = Vec::new();
            let mut i: usize = 0;
            while i < list.len()
                invariant
                    i <= list@.len(),
                    chosen == values(list@),
                    texts(files@) == keys_of(chosen).take(i as int),
                decreases list@.len() - i,
            {
                files.push(list[i].key.clone());
                i += 1;
                assert(texts(files@) =~= keys_of(chosen).take(i as int));
            }
            assert(keys_of(chosen).take(i as int) =~= keys_of(chosen));
            Some((confirmation_header(list.len(), source), files))
        },
        RestoreTarget::Index => None,
    };
    let paths = target_paths(list.as_slice());
    let run = GitRun {
        args: restore_args(target, revision, &paths),
        failure: RESTORE_FAILED_MESSAGE.to_owned(),
    };
    Ok(RestorePlan { confirmation, run })
}

/// A candidate as the list shows it.
pub fn to_item(candidate: &FileCandidate, target: RestoreTarget, revision: Option<&str>) -> (item:
    FinderItem)
    ensures
        item@ == candidate_of(*candidate, target, text_of(revision)),
{
    FinderItem::new(
        candidate.display.clone(),
        candidate.key.clone(),
        PreviewSource::Git(preview_args(target, revision, &candidate.paths)),
    )
}

/// Writes the arguments that show what a restore changes.
pub fn preview_args(target: RestoreTarget, revision: Option<&str>, paths: &Vec<String>) -> (args: Vec<
    String,
>)
    ensures
        texts(args@) == diff_arguments(target, text_of(revision), texts(paths@)),
{
    let mut args: Vec<String> = Vec::new();
    args.push("diff".to_owned());
    args.push("--color=always".to_owned());
    if let RestoreTarget::Index = target {
        args.push("--staged".to_owned());
    }
    if let Some(revision) = revision {
        args.push(revision.to_owned());
    }
    args.push("--".to_owned());
    push_pathspecs(&mut args, paths);
    assert(texts(args@) =~= diff_arguments(target, text_of(revision), texts(paths@)));
    args
}

/// Writes the arguments of a restore.
pub fn restore_args(target: RestoreTarget, revision: Option<&str>, paths: &Vec<String>) -> (args: Vec<
    String,
>)
    ensures
        texts(args@) == restore_arguments(target, text_of(revision), texts(paths@)),
{
    let mut args: Vec<String> = Vec::new();
    args.push("restore".to_owned());
    if let RestoreTarget::Index = target {
        args.push("--staged".to_owned());
    }
    if let Some(revision) = revision {
        args.push("--source".to_owned());
        args.push(revision.to_owned());
    }
    args.push("--".to_owned());
    push_pathspecs(&mut args, paths);
    assert(texts(args@) =~= restore_arguments(target, text_of(revision), texts(paths@)));
    args
}

/// What is said where the files of a revision cannot be read.
pub fn files_read_failed(revision: &str) -> (text: String)
    ensures
        text@ == "`"@ + revision@ + "` のファイル一覧の取得に失敗しました"@,
{
    concat3("`", revision, "` のファイル一覧の取得に失敗しました")
}

/// What is asked: how many files lose their changes, and to what.
pub open spec fn header_of(count: nat, revision: Option<Seq<char>>) -> Seq<char> {
    match revision {
        Some(revision) => "以下 "@ + decimal(count) + " 件のファイルを `"@ + revision
            + "` の内容で上書きします（作業ツリーの変更は失われます）:"@,
        None => "以下 "@ + decimal(count)
            + " 件のファイルの変更を破棄します（元に戻せません）:"@,
    }
}

/// Writes what is asked.
pub fn confirmation_header(count: usize, revision: Option<&str>) -> (header: String)
    ensures
        header@ == header_of(count as nat, text_of(revision)),
{
    match revision {
        Some(revision) => concat5(
            "以下 ",
            decimal_text(count).as_str(),
            " 件のファイルを `",
            revision,
            "` の内容で上書きします（作業ツリーの変更は失われます）:",
        ),
        None => concat3(
            "以下 ",
            decimal_text(count).as_str(),
            " 件のファイルの変更を破棄します（元に戻せません）:",
        ),
    }
}

/// Consent is asked for if and only if the work tree is written to, and then every file that was
/// picked is named. Git gets the resolved revision, and never what was typed for it.
pub proof fn law_consent_guards_the_work_tree(
    messages: Messages,
    candidates: &[FileCandidate],
    target: RestoreTarget,
    source: Option<&str>,
    revision: Option<&str>,
    selected: &Vec<String>,
    plan: RestorePlan,
)
    requires
        call_ensures(
            run_on_selection,
            (messages, candidates, target, source, revision, selected),
            Ok(plan),
        ),
    ensures
        plan.confirmation is Some <==> target == RestoreTarget::Worktree,
        plan.confirmation matches Some((_, files)) ==> texts(files@) == keys_of(
            picked(candidates@, texts(selected@)),
        ),
        texts(plan.run.args@)[0] == "restore"@,
        texts(plan.run.args@)[1] == "--staged"@ ==> target == RestoreTarget::Index,
        target == RestoreTarget::Index ==> texts(plan.run.args@)[1] == "--staged"@,
        revision matches Some(id) ==> ({
            let at: int = if target == RestoreTarget::Index {
                2
            } else {
                1
            };
            texts(plan.run.args@)[at] == "--source"@ && texts(plan.run.args@)[at + 1] == id@
        }),
        revision is None && target == RestoreTarget::Worktree ==> texts(plan.run.args@)[1] == "--"@,
{
    reveal_strlit("--staged");
    reveal_strlit("--source");
    reveal_strlit("--");
    assert("--staged"@.len() == 8 && "--staged"@[3] == 't');
    assert("--source"@.len() == 8 && "--source"@[3] == 'o');
    assert("--"@.len() == 2);
}

/// What can be restored is what was changed there: to the index belong the changes of the index,
/// and to the work tree those of files that git knows.
pub proof fn law_what_is_offered_is_what_changed_there(
    target: RestoreTarget,
    scope: ChangeScope,
    change: &FileChange,
    covered: bool,
)
    requires
        call_ensures(RestoreTarget::change_scope, (target,), scope),
        call_ensures(ChangeScope::covers, (scope, change), covered),
    ensures
        target == RestoreTarget::Index ==> (covered <==> change.index_status != ' '
            && change.index_status != '?'),
        target == RestoreTarget::Worktree ==> (covered <==> change.worktree_status != ' '
            && change.worktree_status != '?'),
{
}

/// To take a rename out of the index both of its paths are restored, and in the work tree the new
/// one only: the old one is not there.
pub proof fn law_unstaging_undoes_a_rename(
    target: RestoreTarget,
    origin: RenameOrigin,
    change: &FileChange,
    candidate: FileCandidate,
    from: String,
)
    requires
        change.original_path == Some(from),
        from@ != change.path@,
        call_ensures(RestoreTarget::rename_origin, (target,), origin),
        call_ensures(FileCandidate::from_change, (change, origin), candidate),
    ensures
        texts(candidate.paths@).contains(change.path@),
        texts(candidate.paths@).contains(from@) <==> target == RestoreTarget::Index,
{
    assert(texts(candidate.paths@)[0] == change.path@);
    if target == RestoreTarget::Index {
        assert(texts(candidate.paths@)[1] == from@);
    }
}

/// The preview shows the difference that the restore takes back: of the same paths, against the
/// same revision, and of the index if and only if that is what is restored.
pub proof fn law_the_preview_shows_what_is_taken_back(
    target: RestoreTarget,
    revision: Option<&str>,
    paths: &Vec<String>,
    shown: Vec<String>,
    run: Vec<String>,
)
    requires
        call_ensures(preview_args, (target, revision, paths), shown),
        call_ensures(restore_args, (target, revision, paths), run),
    ensures
        texts(shown@)[0] == "diff"@,
        texts(shown@)[2] == "--staged"@ && target == RestoreTarget::Index || texts(shown@)[2]
            == texts(run@)[if revision is Some {
            2int
        } else {
            1
        }] && target == RestoreTarget::Worktree,
        texts(shown@).skip(texts(shown@).len() - paths@.len()) == texts(run@).skip(
            texts(run@).len() - paths@.len(),
        ),
{
    assert(pathspec_texts(texts(paths@)).len() == paths@.len());
    let shown_tail = texts(shown@).skip(texts(shown@).len() - paths@.len());
    let run_tail = texts(run@).skip(texts(run@).len() - paths@.len());
    assert(shown_tail =~= pathspec_texts(texts(paths@)));
    assert(run_tail =~= pathspec_texts(texts(paths@)));
}

/// The question says how many files are at stake, and to what they go back: to the revision as it
/// was typed, where one was.
pub proof fn law_the_question_counts_what_is_lost(
    count: usize,
    revision: Option<&str>,
    header: String,
)
    requires
        call_ensures(confirmation_header, (count, revision), header),
    ensures
        ("以下 "@ + decimal(count as nat) + " 件のファイル"@).is_prefix_of(header@),
        revision matches Some(text) ==> header@ == "以下 "@ + decimal(count as nat)
            + " 件のファイルを `"@ + text@
            + "` の内容で上書きします（作業ツリーの変更は失われます）:"@,
{
    reveal_strlit(" 件のファイル");
    reveal_strlit(" 件のファイルを `");
    reveal_strlit(" 件のファイルの変更を破棄します（元に戻せません）:");
    let start = "以下 "@ + decimal(count as nat) + " 件のファイル"@;
    assert(start.is_prefix_of(header@)) by {
        assert(header@.take(start.len() as int) =~= start);
    }
}

/// Every change is offered by the path at which it is now, and every file of a revision by its
/// path, in order.
pub proof fn law_every_file_is_offered(
    target: RestoreTarget,
    changes: &[FileChange],
    changed: Vec<FileCandidate>,
    paths: &Vec<String>,
    stored: Vec<FileCandidate>,
)
    requires
        call_ensures(change_candidates, (target, changes), changed),
        call_ensures(revision_candidates, (paths,), stored),
    ensures
        changed@.len() == changes@.len(),
        forall|i: int|
            0 <= i < changes@.len() ==> (#[trigger] changed@[i]).key@ == changes@[i].path@,
        stored@.len() == paths@.len(),
        forall|i: int| 0 <= i < paths@.len() ==> (#[trigger] stored@[i]).key@ == paths@[i]@,
{
    assert(entry_views(changed@).len() == changed@.len());
    assert(entry_views(stored@).len() == stored@.len());
    assert forall|i: int| 0 <= i < changes@.len() implies (#[trigger] changed@[i]).key@
        == changes@[i].path@ by {
        assert(entry_views(changed@)[i].key == changed@[i].key@);
    }
    assert forall|i: int| 0 <= i < paths@.len() implies (#[trigger] stored@[i]).key@ == paths@[i]@ by {
        assert(entry_views(stored@)[i].key == stored@[i].key@);
        assert(texts(paths@)[i] == paths@[i]@);
    }
}

/// The question names the revision as it was given, whatever it resolves to, and lists one file
/// for each candidate that was picked.
pub proof fn law_the_question_names_what_was_given(
    messages: Messages,
    candidates: &[FileCandidate],
    source: Option<&str>,
    revision: Option<&str>,
    selected: &Vec<String>,
    plan: RestorePlan,
)
    requires
        call_ensures(
            run_on_selection,
            (messages, candidates, RestoreTarget::Worktree, source, revision, selected),
            Ok(plan),
        ),
    ensures
        plan.confirmation matches Some((header, files)) && (match source {
            Some(given) => header@ == "以下 "@ + decimal(files@.len()) + " 件のファイルを `"@ + given@
                + "` の内容で上書きします（作業ツリーの変更は失われます）:"@,
            None => header@ == "以下 "@ + decimal(files@.len())
                + " 件のファイルの変更を破棄します（元に戻せません）:"@,
        }),
{
    if let Some((header, files)) = plan.confirmation {
        assert(texts(files@).len() == files@.len());
    }
}

} // verus!
