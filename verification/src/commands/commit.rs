//! `gz commit`: commit picked files, and nothing else.

use vstd::prelude::*;

use crate::commands::add::{
    add_arguments, collect_paths, lemma_pathspecs_of, paths_of, pathspecs_of,
};
use crate::commands::file_selection::{
    change_line, change_paths, resolve_changes, FileCandidate, RenameOrigin,
};
use crate::commands::{worktree_file, worktree_file_text};
use crate::error::Error;
use crate::finder::{
    plain, stops_at, try_items_of, FinderItem, FinderOptions, ListOptions, Picker, Preview, PreviewSource,
    SelectionMode,
};
use crate::git::{pathspec_text, pathspec_texts, push_pathspecs, FileChange, GitRun};
use crate::i18n::Messages;
use crate::selection::{
    keys_of, lemma_filter_empty, lemma_filter_step, missing_keys, picked, values, Keyed,
};
use crate::text::{join, owned_all, text_of, texts};

verus! {

broadcast use crate::text::lemma_texts_push;

/// The command that a failure is reported for.
pub const COMMIT_COMMAND: &'static str = "git commit";

/// What the preview of a changed file shows: the file itself where git does not know it,
/// else the difference of `paths` from `HEAD`, which is what a commit of them records.
pub open spec fn source_of(
    worktree: Option<Seq<char>>,
    change: FileChange,
    paths: Seq<Seq<char>>,
) -> Option<Preview> {
    if change.untracked() {
        match worktree {
            Some(root) => Some(Preview::File(worktree_file_text(root, change.path@))),
            None => None,
        }
    } else {
        Some(Preview::Git(diff_arguments(paths)))
    }
}

/// What the preview of a changed file shows in the list: a rename by both of its paths.
pub open spec fn preview_of(worktree: Option<Seq<char>>, change: FileChange) -> Option<Preview> {
    source_of(worktree, change, change_paths(change, RenameOrigin::Include))
}

/// The arguments that show the difference of paths from `HEAD`.
pub open spec fn diff_arguments(paths: Seq<Seq<char>>) -> Seq<Seq<char>> {
    seq!["diff"@, "--color=always"@, "HEAD"@, "--"@] + pathspec_texts(paths)
}

/// The lines of the changes that are staged, in order.
pub open spec fn staged_lines(changes: Seq<FileChange>) -> Seq<Seq<char>> {
    changes.filter(|change: FileChange| change.staged()).map_values(
        |change: FileChange| change_line(change),
    )
}

/// Builds the candidate list. Staged files are picked from the start. A new file cannot be
/// shown without a work tree.
pub fn picker(messages: Messages, worktree: Option<&str>, changes: &[FileChange]) -> (picker: Result<
    Picker,
    Error,
>)
    ensures
        match picker {
            Ok(picker) => {
                &&& picker.items@.len() == changes@.len()
                &&& forall|i: int|
                    #![trigger picker.items@[i]]
                    #![trigger changes@[i]]
                    0 <= i < changes@.len() ==> {
                        &&& preview_of(text_of(worktree), changes@[i]) is Some
                        &&& picker.items@[i]@ == plain(
                            change_line(changes@[i]),
                            changes@[i].path@,
                            preview_of(text_of(worktree), changes@[i])->0,
                        )
                    }
                &&& picker.options@ == (ListOptions {
                    mode: SelectionMode::Multi,
                    header: Some(messages.commit().header_text()),
                    preselect: staged_lines(changes@),
                })
            },
            Err(error) => {
                &&& error is NoWorktree
                &&& exists|i: int|
                    0 <= i < changes@.len() && preview_of(
                        text_of(worktree),
                        #[trigger] changes@[i],
                    ) is None
            },
        },
{
    let item = |change: &FileChange| -> (item: Result<FinderItem, Error>)
        ensures
            match preview_of(text_of(worktree), *change) {
                Some(preview) => item matches Ok(item) && item@ == plain(
                    change_line(*change),
                    change.path@,
                    preview,
                ),
                None => item matches Err(error) && error is NoWorktree,
            },
        { to_item(worktree, change, &to_candidate(change)) };
    let items = match try_items_of(changes, item) {
        Ok(items) => items,
        Err(error) => {
            proof {
                let shown = choose|shown: Seq<FinderItem>| #[trigger]
                    stops_at(changes@, item, shown, error);
                assert(preview_of(text_of(worktree), changes@[shown.len() as int]) is None);
            }
            return Err(error);
        },
    };
    assert forall|i: int| 0 <= i < changes@.len() implies {
        &&& preview_of(text_of(worktree), #[trigger] changes@[i]) is Some
        &&& items@[i]@ == plain(
            change_line(changes@[i]),
            changes@[i].path@,
            preview_of(text_of(worktree), changes@[i])->0,
        )
    } by {
        assert(call_ensures(item, (&changes@[i],), Ok(items@[i])));
    }
    let options = FinderOptions::new(SelectionMode::Multi).with_header(
        messages.commit().header().to_owned(),
    ).with_preselect(preselected(changes));
    Ok(Picker { items, options })
}

/// What a commit of picked files runs: first what stages new files, where there are any,
/// then the commit, and a hint for when the commit fails.
#[derive(Debug, PartialEq, Eq)]
pub struct CommitPlan {
    pub stage: Option<GitRun>,
    pub commit: GitRun,
    pub hint: Option<&'static str>,
}

/// The paths of the changes that git does not know, in order.
pub open spec fn new_paths(changes: Seq<FileChange>) -> Seq<Seq<char>> {
    changes.filter(|change: FileChange| change.untracked()).map_values(
        |change: FileChange| change.path@,
    )
}

/// The arguments that commit paths.
pub open spec fn commit_arguments(
    message: Option<Seq<char>>,
    paths: Seq<Seq<char>>,
) -> Seq<Seq<char>> {
    (match message {
        Some(message) => seq!["commit"@, "--message"@, message, "--"@],
        None => seq!["commit"@, "--"@],
    }) + pathspec_texts(paths)
}

/// Whether a plan commits the given changes: new files are staged first, since a commit of
/// paths takes none that git does not know; renames are committed by both paths.
pub open spec fn commits(
    plan: CommitPlan,
    messages: Messages,
    message: Option<Seq<char>>,
    changes: Seq<FileChange>,
) -> bool {
    &&& match plan.stage {
        Some(stage) => new_paths(changes).len() > 0 && stage.is(
            add_arguments(new_paths(changes)),
            messages.commit().untracked_stage_failed_text(),
        ),
        None => new_paths(changes).len() == 0,
    }
    &&& plan.commit.is(
        commit_arguments(message, paths_of(changes, RenameOrigin::Include)),
        messages.common().command_run_failed_text(COMMIT_COMMAND@),
    )
    &&& text_of(plan.hint) == hint_of(messages, message)
}

/// The plan that commits what was picked. A picked path that was not offered is an error.
pub fn run_on_selection(
    messages: Messages,
    message: Option<&str>,
    changes: &[FileChange],
    selected: &Vec<String>,
) -> (plan: Result<CommitPlan, Error>)
    ensures
        match plan {
            Ok(plan) => {
                &&& missing_keys(keys_of(changes@), texts(selected@)).len() == 0
                &&& commits(plan, messages, text_of(message), picked(changes@, texts(selected@)))
            },
            Err(error) => {
                &&& missing_keys(keys_of(changes@), texts(selected@)).len() > 0
                &&& error.says(
                    messages.file_selection().selection_not_found_text(
                        join(missing_keys(keys_of(changes@), texts(selected@)), ", "@),
                    ),
                )
            },
        },
{
    match resolve_changes(messages, changes, selected) {
        Ok(list) => Ok(run_on_changes(messages, message, list.as_slice())),
        Err(error) => Err(error),
    }
}

/// The plan that commits changes.
pub fn run_on_changes(messages: Messages, message: Option<&str>, selected: &[&FileChange]) -> (plan:
    CommitPlan)
    ensures
        commits(plan, messages, text_of(message), values(selected@)),
{
    let untracked = untracked_paths(selected);
    assert(texts(untracked@).len() == untracked@.len());
    let stage = if untracked.len() > 0 {
        Some(
            GitRun {
                args: add_args(&untracked),
                failure: messages.commit().untracked_stage_failed().to_owned(),
            },
        )
    } else {
        None
    };
    let paths = collect_paths(selected, RenameOrigin::Include);
    let commit = GitRun {
        args: commit_args(message, &paths),
        failure: messages.common().command_run_failed(COMMIT_COMMAND),
    };
    CommitPlan { stage, commit, hint: failure_hint(messages, message) }
}

/// The hint for a failed commit: about the editor, where one was started.
pub open spec fn hint_of(messages: Messages, message: Option<Seq<char>>) -> Option<Seq<char>> {
    match message {
        Some(_) => None,
        None => Some(messages.commit().editor_hint_text()),
    }
}

/// Picks the hint for a failed commit.
pub fn failure_hint(messages: Messages, message: Option<&str>) -> (hint: Option<&'static str>)
    ensures
        text_of(hint) == hint_of(messages, text_of(message)),
{
    match message {
        Some(_) => None,
        None => Some(messages.commit().editor_hint()),
    }
}

/// A changed file as a candidate. A rename is targeted by both paths: by the new one alone,
/// the removal of the old one would stay behind.
pub fn to_candidate(change: &FileChange) -> (candidate: FileCandidate)
    ensures
        candidate.display@ == change_line(*change),
        candidate.key@ == change.path@,
        texts(candidate.paths@) == change_paths(*change, RenameOrigin::Include),
{
    FileCandidate::from_change(change, RenameOrigin::Include)
}

/// Collects the lines of the changes that are staged.
pub fn preselected(changes: &[FileChange]) -> (lines: Vec<String>)
    ensures
        texts(lines@) == staged_lines(changes@),
{
    let ghost staged = |change: FileChange| change.staged();
    let ghost line = |change: FileChange| change_line(change);
    let mut lines: Vec<String> = Vec::new();
    let mut i: usize = 0;
    proof {
        lemma_filter_empty(changes@, staged);
        assert(texts(lines@) =~= changes@.take(0).filter(staged).map_values(line));
    }
    while i < changes.len()
        invariant
            i <= changes@.len(),
            staged == (|change: FileChange| change.staged()),
            line == (|change: FileChange| change_line(change)),
            texts(lines@) == changes@.take(i as int).filter(staged).map_values(line),
        decreases changes@.len() - i,
    {
        proof {
            lemma_filter_step(changes@, staged, i as int);
        }
        if changes[i].has_staged_change() {
            let candidate = to_candidate(&changes[i]);
            lines.push(candidate.display);
        }
        i += 1;
        assert(texts(lines@) =~= changes@.take(i as int).filter(staged).map_values(line));
    }
    assert(changes@.take(i as int) =~= changes@);
    lines
}

/// Collects the paths of the changes that git does not know.
pub fn untracked_paths(selected: &[&FileChange]) -> (paths: Vec<String>)
    ensures
        texts(paths@) == new_paths(values(selected@)),
{
    let ghost all = values(selected@);
    let ghost unknown = |change: FileChange| change.untracked();
    let ghost path = |change: FileChange| change.path@;
    let mut paths: Vec<String> = Vec::new();
    let mut i: usize = 0;
    proof {
        lemma_filter_empty(all, unknown);
        assert(texts(paths@) =~= all.take(0).filter(unknown).map_values(path));
    }
    while i < selected.len()
        invariant
            i <= selected@.len(),
            all == values(selected@),
            unknown == (|change: FileChange| change.untracked()),
            path == (|change: FileChange| change.path@),
            texts(paths@) == all.take(i as int).filter(unknown).map_values(path),
        decreases selected@.len() - i,
    {
        proof {
            lemma_filter_step(all, unknown, i as int);
        }
        if selected[i].is_untracked() {
            paths.push(selected[i].path.clone());
        }
        i += 1;
        assert(texts(paths@) =~= all.take(i as int).filter(unknown).map_values(path));
    }
    assert(all.take(i as int) =~= all);
    paths
}

/// A candidate as the list shows it.
pub fn to_item(worktree: Option<&str>, change: &FileChange, candidate: &FileCandidate) -> (item:
    Result<FinderItem, Error>)
    ensures
        match source_of(text_of(worktree), *change, texts(candidate.paths@)) {
            Some(preview) => item matches Ok(item) && item@ == plain(
                candidate.display@,
                candidate.key@,
                preview,
            ),
            None => item matches Err(error) && error is NoWorktree,
        },
{
    match preview(worktree, change, candidate) {
        Ok(source) => Ok(
            FinderItem::new(candidate.display.clone(), candidate.key.clone(), source),
        ),
        Err(error) => Err(error),
    }
}

/// Decides what the preview of a changed file shows.
pub fn preview(worktree: Option<&str>, change: &FileChange, candidate: &FileCandidate) -> (source:
    Result<PreviewSource, Error>)
    ensures
        match source_of(text_of(worktree), *change, texts(candidate.paths@)) {
            Some(preview) => source matches Ok(source) && source@ == preview,
            None => source matches Err(error) && error is NoWorktree,
        },
{
    if change.is_untracked() {
        return match worktree {
            Some(root) => Ok(PreviewSource::File(worktree_file(root, change.path.as_str()))),
            None => Err(Error::NoWorktree),
        };
    }
    Ok(PreviewSource::Git(preview_args(&candidate.paths)))
}

/// The arguments that show the difference of paths from `HEAD`.
pub fn preview_args(paths: &Vec<String>) -> (args: Vec<String>)
    ensures
        texts(args@) == diff_arguments(texts(paths@)),
{
    let mut args = owned_all(&["diff", "--color=always", "HEAD", "--"]);
    assert(texts(args@) =~= seq!["diff"@, "--color=always"@, "HEAD"@, "--"@]);
    push_pathspecs(&mut args, paths);
    args
}

/// The arguments that stage paths.
pub fn add_args(paths: &Vec<String>) -> (args: Vec<String>)
    ensures
        texts(args@) == add_arguments(texts(paths@)),
{
    crate::commands::add::add_args(paths)
}

/// The arguments that commit paths.
pub fn commit_args(message: Option<&str>, paths: &Vec<String>) -> (args: Vec<String>)
    ensures
        texts(args@) == commit_arguments(text_of(message), texts(paths@)),
{
    let mut args: Vec<String> = Vec::new();
    args.push("commit".to_owned());
    if let Some(message) = message {
        args.push("--message".to_owned());
        args.push(message.to_owned());
    }
    args.push("--".to_owned());
    push_pathspecs(&mut args, paths);
    assert(texts(args@) =~= commit_arguments(text_of(message), texts(paths@)));
    args
}

/// A commit takes what was picked, and nothing else: behind the separator git gets exactly the
/// paths of the picked changes, those that a file came from among them.
pub proof fn law_exactly_what_was_picked_is_committed(
    messages: Messages,
    message: Option<&str>,
    selected: &[&FileChange],
    plan: CommitPlan,
    word: Seq<char>,
)
    requires
        call_ensures(run_on_changes, (messages, message, selected), plan),
    ensures
        ({
            let args = texts(plan.commit.args@);
            let behind: int = if message is Some {
                4
            } else {
                2
            };
            &&& args.len() >= behind
            &&& args[0] == "commit"@
            &&& args[behind - 1] == "--"@
            &&& message matches Some(text) ==> args[1] == "--message"@ && args[2] == text@
            &&& args.skip(behind).contains(word) <==> exists|i: int|
                0 <= i < selected@.len() && pathspecs_of(
                    *(#[trigger] selected@[i]),
                    RenameOrigin::Include,
                    word,
                )
        }),
        forall|i: int|
            0 <= i < selected@.len() ==> {
                let change = #[trigger] selected@[i];
                &&& texts(plan.commit.args@).contains(":(top,literal)"@ + change.path@)
                &&& change.original_path matches Some(from) ==> texts(plan.commit.args@).contains(
                    ":(top,literal)"@ + from@,
                )
            },
{
    let changes = values(selected@);
    let args = texts(plan.commit.args@);
    let behind: int = if message is Some {
        4
    } else {
        2
    };
    let words = pathspec_texts(paths_of(changes, RenameOrigin::Include));
    assert(args.skip(behind) =~= words);
    lemma_pathspecs_of(changes, RenameOrigin::Include, word);
    if words.contains(word) {
        let i = choose|i: int|
            0 <= i < changes.len() && pathspecs_of(#[trigger] changes[i], RenameOrigin::Include, word);
        assert(*selected@[i] == changes[i]);
    }
    if exists|i: int|
        0 <= i < selected@.len() && pathspecs_of(
            *(#[trigger] selected@[i]),
            RenameOrigin::Include,
            word,
        ) {
        let i = choose|i: int|
            0 <= i < selected@.len() && pathspecs_of(
                *(#[trigger] selected@[i]),
                RenameOrigin::Include,
                word,
            );
        assert(changes[i] == *selected@[i]);
    }
    assert forall|i: int| 0 <= i < selected@.len() implies {
        let change = #[trigger] selected@[i];
        &&& args.contains(":(top,literal)"@ + change.path@)
        &&& change.original_path matches Some(from) ==> args.contains(":(top,literal)"@ + from@)
    } by {
        let change = changes[i];
        assert(change == *selected@[i]);
        let paths = change_paths(change, RenameOrigin::Include);
        assert(paths[0] == change.path@);
        assert(paths.contains(change.path@));
        lemma_committed(changes, i, change.path@, args, behind);
        if let Some(from) = change.original_path {
            assert(paths[1] == from@);
            assert(paths.contains(from@));
            lemma_committed(changes, i, from@, args, behind);
        }
    }
}

proof fn lemma_committed(
    changes: Seq<FileChange>,
    i: int,
    path: Seq<char>,
    args: Seq<Seq<char>>,
    behind: int,
)
    requires
        0 <= i < changes.len(),
        0 <= behind <= args.len(),
        change_paths(changes[i], RenameOrigin::Include).contains(path),
        args.skip(behind) == pathspec_texts(paths_of(changes, RenameOrigin::Include)),
    ensures
        args.contains(":(top,literal)"@ + path),
{
    let word = ":(top,literal)"@ + path;
    assert(word == pathspec_text(path));
    assert(pathspecs_of(changes[i], RenameOrigin::Include, word));
    lemma_pathspecs_of(changes, RenameOrigin::Include, word);
    let words = args.skip(behind);
    let k = choose|k: int| 0 <= k < words.len() && words[k] == word;
    assert(args[behind + k] == word);
}

/// New files are staged before the commit, and there is such a run if and only if a file that git
/// does not know was picked. An editor is spoken of where no message was given.
pub proof fn law_new_files_are_staged_first(
    messages: Messages,
    message: Option<&str>,
    selected: &[&FileChange],
    plan: CommitPlan,
)
    requires
        call_ensures(run_on_changes, (messages, message, selected), plan),
    ensures
        plan.stage is Some <==> exists|i: int|
            0 <= i < selected@.len() && (#[trigger] selected@[i]).index_status == '?'
                && selected@[i].worktree_status == '?',
        plan.stage matches Some(stage) ==> texts(stage.args@)[0] == "add"@ && texts(stage.args@)[1]
            == "--"@ && stage.args@.len() > 2,
        plan.hint is Some <==> message is None,
{
    broadcast use vstd::seq_lib::group_filter_ensures;

    let changes = values(selected@);
    let unknown = |change: FileChange| change.untracked();
    assert(new_paths(changes).len() == changes.filter(unknown).len());
    if plan.stage is Some {
        let change = changes.filter(unknown)[0];
        assert(unknown(change));
        assert(changes.filter(unknown).contains(change));
        changes.lemma_filter_contains_rev(unknown, change);
        let i = choose|i: int| 0 <= i < changes.len() && changes[i] == change;
        assert(*selected@[i] == change);
        assert(pathspec_texts(new_paths(changes)).len() == new_paths(changes).len());
        assert(texts(plan.stage->0.args@).len() == plan.stage->0.args@.len());
    }
    if exists|i: int|
        0 <= i < selected@.len() && (#[trigger] selected@[i]).index_status == '?'
            && selected@[i].worktree_status == '?' {
        let i = choose|i: int|
            0 <= i < selected@.len() && (#[trigger] selected@[i]).index_status == '?'
                && selected@[i].worktree_status == '?';
        assert(changes[i] == *selected@[i]);
        assert(unknown(changes[i]));
        assert(changes.filter(unknown).contains(changes[i]));
    }
}

/// What is picked from the start is what is staged, and nothing else: a line is picked if and
/// only if it is that of a change of the index.
pub proof fn law_staged_files_are_picked_from_the_start(
    changes: &[FileChange],
    lines: Vec<String>,
    i: int,
)
    requires
        0 <= i < changes@.len(),
        call_ensures(preselected, (changes,), lines),
    ensures
        changes@[i].index_status != ' ' && changes@[i].index_status != '?' ==> texts(
            lines@,
        ).contains(change_line(changes@[i])),
        forall|line: Seq<char>| #[trigger]
            texts(lines@).contains(line) ==> exists|k: int|
                0 <= k < changes@.len() && change_line(#[trigger] changes@[k]) == line
                    && changes@[k].index_status != ' ' && changes@[k].index_status != '?',
{
    broadcast use vstd::seq_lib::group_filter_ensures;

    let staged = |change: FileChange| change.staged();
    let kept = changes@.filter(staged);
    if changes@[i].index_status != ' ' && changes@[i].index_status != '?' {
        assert(staged(changes@[i]));
        assert(kept.contains(changes@[i]));
        let k = choose|k: int| 0 <= k < kept.len() && kept[k] == changes@[i];
        assert(staged_lines(changes@)[k] == change_line(changes@[i]));
    }
    assert forall|line: Seq<char>| #[trigger] texts(lines@).contains(line) implies exists|k: int|
        0 <= k < changes@.len() && change_line(#[trigger] changes@[k]) == line
            && changes@[k].index_status != ' ' && changes@[k].index_status != '?' by {
        let j = choose|j: int| 0 <= j < texts(lines@).len() && texts(lines@)[j] == line;
        let change = kept[j];
        assert(staged(change));
        assert(kept.contains(change));
        changes@.lemma_filter_contains_rev(staged, change);
        let k = choose|k: int| 0 <= k < changes@.len() && changes@[k] == change;
        assert(change_line(changes@[k]) == line);
    }
}

/// The preview shows what a commit of the paths would record: their difference from `HEAD`,
/// whether it is staged or not; a file that git does not know is shown as it is.
pub proof fn law_a_preview_shows_what_a_commit_records(
    worktree: Option<&str>,
    change: &FileChange,
    candidate: &FileCandidate,
    source: Result<PreviewSource, Error>,
)
    requires
        call_ensures(preview, (worktree, change, candidate), source),
    ensures
        change.index_status == '?' && change.worktree_status == '?' ==> (source is Ok <==> worktree is Some)
            && (source matches Ok(source) ==> source@ is File),
        !(change.index_status == '?' && change.worktree_status == '?') ==> (source matches Ok(source)
            && source@ matches Preview::Git(args) && {
            &&& args.len() == 4 + candidate.paths@.len()
            &&& args[0] == "diff"@
            &&& args[1] == "--color=always"@
            &&& args[2] == "HEAD"@
            &&& args[3] == "--"@
            &&& forall|i: int|
                0 <= i < candidate.paths@.len() ==> args[4 + i] == ":(top,literal)"@ + (
                #[trigger] candidate.paths@[i])@
        }),
{
    let specs = pathspec_texts(texts(candidate.paths@));
    assert(specs.len() == candidate.paths@.len());
    if !change.untracked() {
        let args = diff_arguments(texts(candidate.paths@));
        assert forall|i: int| 0 <= i < candidate.paths@.len() implies args[4 + i]
            == ":(top,literal)"@ + (#[trigger] candidate.paths@[i])@ by {
            assert(specs[i] == args[4 + i]);
            assert(texts(candidate.paths@)[i] == candidate.paths@[i]@);
        }
    }
}

/// Of all that was offered, what was picked is committed, and a path that was not offered commits
/// nothing.
pub proof fn law_what_was_picked_is_committed(
    messages: Messages,
    message: Option<&str>,
    changes: &[FileChange],
    selected: &Vec<String>,
    plan: Result<CommitPlan, Error>,
    path: Seq<char>,
)
    requires
        call_ensures(run_on_selection, (messages, message, changes, selected), plan),
    ensures
        plan is Err <==> exists|key: Seq<char>|
            texts(selected@).contains(key) && !keys_of(changes@).contains(key),
        plan matches Ok(plan) ==> (texts(selected@).contains(path) ==> texts(
            plan.commit.args@,
        ).contains(":(top,literal)"@ + path)),
        plan matches Ok(plan) ==> (changes@.len() > 0 && selected@.len() == 0 ==> texts(
            plan.commit.args@,
        ).last() == "--"@),
{
    crate::selection::law_selection_is_refused_for_unknown_keys(
        keys_of(changes@),
        texts(selected@),
    );
    if let Ok(plan) = plan {
        let chosen = picked(changes@, texts(selected@));
        let args = texts(plan.commit.args@);
        let words = pathspec_texts(paths_of(chosen, RenameOrigin::Include));
        crate::commands::add::lemma_picked_paths(
            changes@,
            texts(selected@),
            RenameOrigin::Include,
            path,
        );
        let behind: int = if message is Some {
            4
        } else {
            2
        };
        assert(args.skip(behind) =~= words);
        if texts(selected@).contains(path) {
            let k = choose|k: int| 0 <= k < words.len() && words[k] == ":(top,literal)"@ + path;
            assert(args[behind + k] == ":(top,literal)"@ + path);
        }
        if selected@.len() == 0 {
            lemma_nothing_picked(changes@, texts(selected@));
            assert(words.len() == 0);
            assert(args.last() == args[behind - 1]);
        }
    }
}

proof fn lemma_nothing_picked(changes: Seq<FileChange>, selected: Seq<Seq<char>>)
    requires
        selected.len() == 0,
    ensures
        picked(changes, selected).len() == 0,
        pathspec_texts(paths_of(picked(changes, selected), RenameOrigin::Include)).len() == 0,
{
    broadcast use vstd::seq_lib::group_filter_ensures;

    let chosen = picked(changes, selected);
    let pred = |change: FileChange| selected.contains(change.key_text());
    if chosen.len() > 0 {
        assert(pred(changes.filter(pred)[0]));
    }
    let lists = chosen.map_values(
        |change: FileChange| change_paths(change, RenameOrigin::Include),
    );
    assert(lists.len() == 0);
    assert(crate::commands::file_selection::all_paths(lists) =~= Seq::empty());
}

/// What is staged before a commit is exactly the new files that were picked.
pub proof fn law_exactly_the_new_files_are_staged(
    selected: &[&FileChange],
    paths: Vec<String>,
    path: Seq<char>,
)
    requires
        call_ensures(untracked_paths, (selected,), paths),
    ensures
        texts(paths@).contains(path) <==> exists|i: int|
            0 <= i < selected@.len() && (#[trigger] selected@[i]).path@ == path
                && selected@[i].index_status == '?' && selected@[i].worktree_status == '?',
{
    broadcast use vstd::seq_lib::group_filter_ensures;

    let changes = values(selected@);
    let unknown = |change: FileChange| change.untracked();
    let kept = changes.filter(unknown);
    if texts(paths@).contains(path) {
        let k = choose|k: int| 0 <= k < texts(paths@).len() && texts(paths@)[k] == path;
        let change = kept[k];
        assert(unknown(change));
        assert(kept.contains(change));
        changes.lemma_filter_contains_rev(unknown, change);
        let i = choose|i: int| 0 <= i < changes.len() && changes[i] == change;
        assert(*selected@[i] == change);
    }
    if exists|i: int|
        0 <= i < selected@.len() && (#[trigger] selected@[i]).path@ == path
            && selected@[i].index_status == '?' && selected@[i].worktree_status == '?' {
        let i = choose|i: int|
            0 <= i < selected@.len() && (#[trigger] selected@[i]).path@ == path
                && selected@[i].index_status == '?' && selected@[i].worktree_status == '?';
        assert(changes[i] == *selected@[i]);
        assert(unknown(changes[i]));
        assert(kept.contains(changes[i]));
        let k = choose|k: int| 0 <= k < kept.len() && kept[k] == changes[i];
        assert(new_paths(changes)[k] == path);
    }
}

} // verus!
