//! `gz add`: stage picked files.

use vstd::prelude::*;

use crate::commands::file_selection::{
    all_paths, change_line, change_paths, first_occurrences, law_each_path_once, lemma_all_paths,
    resolve_changes, target_paths, FileCandidate, RenameOrigin,
};
use crate::commands::{worktree_file, worktree_file_text};
use crate::error::Error;
use crate::finder::{
    item_views, plain, stops_at, try_items_of, FinderItem, FinderOptions, ListOptions, Picker, Preview,
    PreviewSource, SelectionMode,
};
use crate::git::{pathspec, pathspec_text, pathspec_texts, push_pathspecs, FileChange, GitRun};
use crate::i18n::Messages;
use crate::selection::{keys_of, missing_keys, picked, values, Keyed};
use crate::text::{join, owned_all, text_of, texts};

verus! {

broadcast use crate::text::lemma_texts_push;

/// The command that a failure is reported for.
pub const ADD_COMMAND: &'static str = "git add";

/// What the preview of a changed file shows: the file itself where git does not know it,
/// else what staging would record.
pub open spec fn preview_of(worktree: Option<Seq<char>>, change: FileChange) -> Option<Preview> {
    if change.untracked() {
        match worktree {
            Some(root) => Some(Preview::File(worktree_file_text(root, change.path@))),
            None => None,
        }
    } else {
        Some(
            Preview::Git(
                seq!["diff"@, "--color=always"@, "--"@, pathspec_text(change.path@)],
            ),
        )
    }
}

/// Builds the candidate list. A new file cannot be shown without a work tree.
pub fn picker(worktree: Option<&str>, changes: &[FileChange]) -> (picker: Result<Picker, Error>)
    ensures
        match picker {
            Ok(picker) => {
                &&& item_views(picker.items@).len() == changes@.len()
                &&& forall|i: int|
                    #![trigger picker.items@[i]]
                    #![trigger changes@[i]]
                    0 <= i < changes@.len() ==> {
                        &&& preview_of(text_of(worktree), changes@[i]) is Some
                        &&& picker.items@[i]@ == plain(
                            change_line(changes@[i]),
                            changes@[i].path@,
                            preview_of(text_of(worktree), changes@[i])->0,
                        )
                    }
                &&& picker.options@ == (ListOptions {
                    mode: SelectionMode::Multi,
                    header: None,
                    preselect: Seq::empty(),
                })
            },
            Err(error) => {
                &&& error is NoWorktree
                &&& exists|i: int|
                    0 <= i < changes@.len() && preview_of(
                        text_of(worktree),
                        #[trigger] changes@[i],
                    ) is None
            },
        },
{
    let item = |change: &FileChange| -> (item: Result<FinderItem, Error>)
        ensures
            match preview_of(text_of(worktree), *change) {
                Some(preview) => item matches Ok(item) && item@ == plain(
                    change_line(*change),
                    change.path@,
                    preview,
                ),
                None => item matches Err(error) && error is NoWorktree,
            },
        { to_item(worktree, change, &to_candidate(change)) };
    let items = match try_items_of(changes, item) {
        Ok(items) => items,
        Err(error) => {
            proof {
                let shown = choose|shown: Seq<FinderItem>| #[trigger]
                    stops_at(changes@, item, shown, error);
                assert(preview_of(text_of(worktree), changes@[shown.len() as int]) is None);
            }
            return Err(error);
        },
    };
    assert forall|i: int| 0 <= i < changes@.len() implies {
        &&& preview_of(text_of(worktree), #[trigger] changes@[i]) is Some
        &&& items@[i]@ == plain(
            change_line(changes@[i]),
            changes@[i].path@,
            preview_of(text_of(worktree), changes@[i])->0,
        )
    } by {
        assert(call_ensures(item, (&changes@[i],), Ok(items@[i])));
    }
    Ok(Picker { items, options: FinderOptions::new(SelectionMode::Multi) })
}

/// The run that stages what was picked. A picked path that was not offered is an error.
pub fn run_on_selection(
    messages: Messages,
    changes: &[FileChange],
    selected: &Vec<String>,
) -> (run: Result<GitRun, Error>)
    ensures
        match run {
            Ok(run) => {
                &&& missing_keys(keys_of(changes@), texts(selected@)).len() == 0
                &&& stages(run, messages, picked(changes@, texts(selected@)))
            },
            Err(error) => {
                &&& missing_keys(keys_of(changes@), texts(selected@)).len() > 0
                &&& error.says(
                    messages.file_selection().selection_not_found_text(
                        join(missing_keys(keys_of(changes@), texts(selected@)), ", "@),
                    ),
                )
            },
        },
{
    match resolve_changes(messages, changes, selected) {
        Ok(list) => Ok(run_on_changes(messages, list.as_slice())),
        Err(error) => Err(error),
    }
}

/// The paths of several changes, each of them once.
pub open spec fn paths_of(changes: Seq<FileChange>, origin: RenameOrigin) -> Seq<Seq<char>> {
    first_occurrences(
        all_paths(changes.map_values(|change: FileChange| change_paths(change, origin))),
    )
}

/// The arguments that stage paths.
pub open spec fn add_arguments(paths: Seq<Seq<char>>) -> Seq<Seq<char>> {
    seq!["add"@, "--"@] + pathspec_texts(paths)
}

/// Whether a run stages the given changes, by their new paths.
pub open spec fn stages(run: GitRun, messages: Messages, changes: Seq<FileChange>) -> bool {
    run.is(
        add_arguments(paths_of(changes, RenameOrigin::Exclude)),
        messages.common().command_run_failed_text(ADD_COMMAND@),
    )
}

/// Collects the paths of changes, each of them once.
pub fn collect_paths(changes: &[&FileChange], origin: RenameOrigin) -> (paths: Vec<String>)
    ensures
        texts(paths@) == paths_of(values(changes@), origin),
{
    let mut candidates: Vec<FileCandidate> = Vec::new();
    let mut i: usize = 0;
    while i < changes.len()
        invariant
            i <= changes@.len(),
            candidates@.len() == i,
            forall|k: int|
                0 <= k < i ==> texts((#[trigger] candidates@[k]).paths@) == change_paths(
                    *changes@[k],
                    origin,
                ),
        decreases changes@.len() - i,
    {
        candidates.push(FileCandidate::from_change(changes[i], origin));
        i += 1;
    }
    let mut refs: Vec<&FileCandidate> = Vec::new();
    let mut j: usize = 0;
    while j < candidates.len()
        invariant
            j <= candidates@.len(),
            refs@.len() == j,
            forall|k: int| 0 <= k < j ==> *(#[trigger] refs@[k]) == candidates@[k],
        decreases candidates@.len() - j,
    {
        refs.push(&candidates[j]);
        j += 1;
    }
    proof {
        assert(crate::commands::file_selection::path_lists(values(refs@)) =~= values(
            changes@,
        ).map_values(|change: FileChange| change_paths(change, origin)));
    }
    target_paths(refs.as_slice())
}

/// The run that stages changes.
pub fn run_on_changes(messages: Messages, selected: &[&FileChange]) -> (run: GitRun)
    ensures
        stages(run, messages, values(selected@)),
{
    let paths = collect_paths(selected, RenameOrigin::Exclude);
    GitRun {
        args: add_args(&paths),
        failure: messages.common().command_run_failed(ADD_COMMAND),
    }
}

/// A changed file as a candidate, targeted by its new path only.
pub fn to_candidate(change: &FileChange) -> (candidate: FileCandidate)
    ensures
        candidate.display@ == change_line(*change),
        candidate.key@ == change.path@,
        texts(candidate.paths@) == seq![change.path@],
{
    FileCandidate::from_change(change, RenameOrigin::Exclude)
}

/// A candidate as the list shows it.
pub fn to_item(worktree: Option<&str>, change: &FileChange, candidate: &FileCandidate) -> (item:
    Result<FinderItem, Error>)
    ensures
        match item {
            Ok(item) => {
                &&& preview_of(text_of(worktree), *change) is Some
                &&& item@ == plain(
                    candidate.display@,
                    candidate.key@,
                    preview_of(text_of(worktree), *change)->0,
                )
            },
            Err(error) => error is NoWorktree && preview_of(text_of(worktree), *change) is None,
        },
{
    match preview(worktree, change) {
        Ok(source) => Ok(
            FinderItem::new(candidate.display.clone(), candidate.key.clone(), source),
        ),
        Err(error) => Err(error),
    }
}

/// Decides what the preview of a changed file shows.
pub fn preview(worktree: Option<&str>, change: &FileChange) -> (source: Result<
    PreviewSource,
    Error,
>)
    ensures
        match source {
            Ok(source) => preview_of(text_of(worktree), *change) == Some(source@),
            Err(error) => error is NoWorktree && preview_of(text_of(worktree), *change) is None,
        },
{
    if change.is_untracked() {
        return match worktree {
            Some(root) => Ok(PreviewSource::File(worktree_file(root, change.path.as_str()))),
            None => Err(Error::NoWorktree),
        };
    }
    Ok(PreviewSource::Git(preview_args(change.path.as_str())))
}

/// The arguments that show what staging a file would record.
pub fn preview_args(path: &str) -> (args: Vec<String>)
    ensures
        texts(args@) == seq!["diff"@, "--color=always"@, "--"@, pathspec_text(path@)],
{
    let mut args = owned_all(&["diff", "--color=always", "--"]);
    args.push(pathspec(path));
    assert(texts(args@) =~= seq!["diff"@, "--color=always"@, "--"@, pathspec_text(path@)]);
    args
}

/// The arguments that stage paths.
pub fn add_args(paths: &Vec<String>) -> (args: Vec<String>)
    ensures
        texts(args@) == add_arguments(texts(paths@)),
{
    let mut args = owned_all(&["add", "--"]);
    assert(texts(args@) =~= seq!["add"@, "--"@]);
    push_pathspecs(&mut args, paths);
    args
}

/// What is picked is staged, and nothing else: git gets `add`, the separator, and then exactly
/// the new paths of the picked changes.
pub proof fn law_exactly_what_was_picked_is_staged(
    messages: Messages,
    selected: &[&FileChange],
    run: GitRun,
    word: Seq<char>,
)
    requires
        call_ensures(run_on_changes, (messages, selected), run),
    ensures
        texts(run.args@).len() >= 2,
        texts(run.args@)[0] == "add"@,
        texts(run.args@)[1] == "--"@,
        texts(run.args@).skip(2).contains(word) <==> exists|i: int|
            0 <= i < selected@.len() && word == ":(top,literal)"@ + (#[trigger] selected@[i]).path@,
{
    let changes = values(selected@);
    let paths = paths_of(changes, RenameOrigin::Exclude);
    assert(texts(run.args@).skip(2) =~= pathspec_texts(paths));
    lemma_pathspecs_of(changes, RenameOrigin::Exclude, word);
    if texts(run.args@).skip(2).contains(word) {
        let i = choose|i: int|
            0 <= i < changes.len() && pathspecs_of(#[trigger] changes[i], RenameOrigin::Exclude, word);
        assert(changes[i] == *selected@[i]);
        let path = choose|path: Seq<char>| #[trigger]
            change_paths(changes[i], RenameOrigin::Exclude).contains(path) && word
                == pathspec_text(path);
        assert(path == selected@[i].path@);
    }
    if exists|i: int|
        0 <= i < selected@.len() && word == ":(top,literal)"@ + (#[trigger] selected@[i]).path@ {
        let i = choose|i: int|
            0 <= i < selected@.len() && word == ":(top,literal)"@ + (#[trigger] selected@[i]).path@;
        assert(changes[i] == *selected@[i]);
        assert(change_paths(changes[i], RenameOrigin::Exclude)[0] == selected@[i].path@);
        assert(change_paths(changes[i], RenameOrigin::Exclude).contains(selected@[i].path@));
        assert(pathspecs_of(changes[i], RenameOrigin::Exclude, word));
    }
}

/// Whether a word is how git takes one of the paths of a change.
pub open spec fn pathspecs_of(change: FileChange, origin: RenameOrigin, word: Seq<char>) -> bool {
    exists|path: Seq<char>| #[trigger]
        change_paths(change, origin).contains(path) && word == pathspec_text(path)
}

/// The words that git gets for changes are those of the paths of any of them.
pub proof fn lemma_pathspecs_of(changes: Seq<FileChange>, origin: RenameOrigin, word: Seq<char>)
    ensures
        pathspec_texts(paths_of(changes, origin)).contains(word) <==> exists|i: int|
            0 <= i < changes.len() && pathspecs_of(#[trigger] changes[i], origin, word),
{
    let lists = changes.map_values(|change: FileChange| change_paths(change, origin));
    let paths = paths_of(changes, origin);
    let words = pathspec_texts(paths);
    law_each_path_once(all_paths(lists));
    if words.contains(word) {
        let k = choose|k: int| 0 <= k < words.len() && words[k] == word;
        let path = paths[k];
        assert(paths.contains(path));
        assert(all_paths(lists).contains(path));
        lemma_all_paths(lists, path);
        let i = choose|i: int| 0 <= i < lists.len() && (#[trigger] lists[i]).contains(path);
        assert(change_paths(changes[i], origin).contains(path));
        assert(pathspecs_of(changes[i], origin, word));
    }
    if exists|i: int| 0 <= i < changes.len() && pathspecs_of(#[trigger] changes[i], origin, word) {
        let i = choose|i: int|
            0 <= i < changes.len() && pathspecs_of(#[trigger] changes[i], origin, word);
        let path = choose|path: Seq<char>| #[trigger]
            change_paths(changes[i], origin).contains(path) && word == pathspec_text(path);
        assert(lists[i].contains(path));
        lemma_all_paths(lists, path);
        assert(paths.contains(path));
        let k = choose|k: int| 0 <= k < paths.len() && paths[k] == path;
        assert(words[k] == word);
    }
}

/// A file that git does not know is shown as it is, and any other by what staging it would
/// record: the difference of its path, without one that is staged already.
pub proof fn law_a_preview_shows_what_staging_records(
    worktree: Option<&str>,
    change: &FileChange,
    source: Result<PreviewSource, Error>,
)
    requires
        call_ensures(preview, (worktree, change), source),
    ensures
        change.index_status == '?' && change.worktree_status == '?' ==> (source is Ok <==> worktree is Some)
            && (source matches Ok(source) ==> source@ is File),
        !(change.index_status == '?' && change.worktree_status == '?') ==> (source matches Ok(source)
            && source@ == Preview::Git(
            seq!["diff"@, "--color=always"@, "--"@, ":(top,literal)"@ + change.path@],
        )),
{
}

/// Of all that was offered, exactly what was picked is staged: a change whose path was picked is,
/// and one whose path was not picked is not. A path that was not offered stages nothing.
pub proof fn law_what_was_not_picked_is_not_staged(
    messages: Messages,
    changes: &[FileChange],
    selected: &Vec<String>,
    run: Result<GitRun, Error>,
    path: Seq<char>,
)
    requires
        call_ensures(run_on_selection, (messages, changes, selected), run),
    ensures
        run is Err <==> exists|key: Seq<char>|
            texts(selected@).contains(key) && !keys_of(changes@).contains(key),
        run matches Ok(run) ==> (texts(run.args@).skip(2).contains(":(top,literal)"@ + path)
            <==> texts(selected@).contains(path)),
{
    broadcast use vstd::seq_lib::group_filter_ensures;

    crate::selection::law_selection_is_refused_for_unknown_keys(
        keys_of(changes@),
        texts(selected@),
    );
    if let Ok(run) = run {
        let chosen = picked(changes@, texts(selected@));
        lemma_picked_paths(changes@, texts(selected@), RenameOrigin::Exclude, path);
        assert(texts(run.args@).skip(2) =~= pathspec_texts(
            paths_of(chosen, RenameOrigin::Exclude),
        ));
    }
}

/// The paths that git gets for picked changes hold each picked path, and without their origins
/// nothing else.
pub proof fn lemma_picked_paths(
    changes: Seq<FileChange>,
    selected: Seq<Seq<char>>,
    origin: RenameOrigin,
    path: Seq<char>,
)
    requires
        missing_keys(keys_of(changes), selected).len() == 0,
    ensures
        selected.contains(path) ==> pathspec_texts(
            paths_of(picked(changes, selected), origin),
        ).contains(":(top,literal)"@ + path),
        origin is Exclude && pathspec_texts(paths_of(picked(changes, selected), origin)).contains(
            ":(top,literal)"@ + path,
        ) ==> selected.contains(path),
{
    broadcast use vstd::seq_lib::group_filter_ensures;

    let word = ":(top,literal)"@ + path;
    assert(word == pathspec_text(path));
    let chosen = picked(changes, selected);
    let pred = |change: FileChange| selected.contains(change.key_text());
    lemma_pathspecs_of(chosen, origin, word);
    if selected.contains(path) {
        crate::selection::law_selection_is_refused_for_unknown_keys(keys_of(changes), selected);
        assert(keys_of(changes).contains(path));
        let i = choose|i: int| 0 <= i < keys_of(changes).len() && keys_of(changes)[i] == path;
        assert(pred(changes[i]));
        assert(changes.filter(pred).contains(changes[i]));
        let k = choose|k: int| 0 <= k < chosen.len() && chosen[k] == changes[i];
        assert(change_paths(chosen[k], origin)[0] == path);
        assert(change_paths(chosen[k], origin).contains(path));
        assert(pathspecs_of(chosen[k], origin, word));
    }
    if origin is Exclude && pathspec_texts(paths_of(chosen, origin)).contains(word) {
        let k = choose|k: int|
            0 <= k < chosen.len() && pathspecs_of(#[trigger] chosen[k], origin, word);
        let found = choose|found: Seq<char>| #[trigger]
            change_paths(chosen[k], origin).contains(found) && word == pathspec_text(found);
        crate::git::law_pathspecs_keep_paths_apart(found, path);
        assert(found == chosen[k].path@);
        assert(pred(changes.filter(pred)[k]));
    }
}

} // verus!
