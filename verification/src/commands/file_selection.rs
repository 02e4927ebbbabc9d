//! Changed files as candidates, and the paths that a selection of them stands for.

use vstd::prelude::*;

use crate::error::Error;
use crate::git::FileChange;
use crate::i18n::Messages;
use crate::selection::{keys_of, missing_keys, picked, resolve_by_key, values, Keyed};
use crate::text::{concat3, contains_text, join, texts};

verus! {

broadcast use crate::text::lemma_texts_push;

/// Whether the place that a file was renamed or copied from is a target too.
#[derive(Debug, Clone, Copy, PartialEq, Eq, Structural)]
pub enum RenameOrigin {
    /// Both places. Unstaging a rename by its new path alone would leave the removal of the
    /// old one in the index.
    Include,
    /// The new place only. The old one is not in the index, and would match nothing.
    Exclude,
}

/// A file in a candidate list.
#[derive(Debug, PartialEq, Eq)]
pub struct FileCandidate {
    /// The line that is shown and searched.
    pub display: String,
    /// The path from the top of the work tree.
    pub key: String,
    /// The paths that git gets, from the top of the work tree.
    pub paths: Vec<String>,
}

impl Keyed for FileCandidate {
    open spec fn key_text(&self) -> Seq<char> {
        self.key@
    }

    fn key_of(&self) -> (key: &str) {
        self.key.as_str()
    }
}

impl Keyed for FileChange {
    open spec fn key_text(&self) -> Seq<char> {
        self.path@
    }

    fn key_of(&self) -> (key: &str) {
        self.path.as_str()
    }
}

/// The line of a changed file: its status letters and its path, or both paths of a rename.
pub open spec fn change_line(change: FileChange) -> Seq<char> {
    match change.original_path {
        Some(original) => change.code() + " "@ + original@ + " -> "@ + change.path@,
        None => change.code() + " "@ + change.path@,
    }
}

/// The paths that git gets for a changed file.
pub open spec fn change_paths(change: FileChange, origin: RenameOrigin) -> Seq<Seq<char>> {
    match (origin, change.original_path) {
        (RenameOrigin::Include, Some(original)) => seq![change.path@, original@],
        _ => seq![change.path@],
    }
}

impl FileCandidate {
    /// A changed file as a candidate.
    pub fn from_change(change: &FileChange, origin: RenameOrigin) -> (candidate: Self)
        ensures
            candidate.display@ == change_line(*change),
            candidate.key@ == change.path@,
            texts(candidate.paths@) == change_paths(*change, origin),
    {
        let mut paths: Vec<String> = Vec::new();
        paths.push(change.path.clone());
        if let RenameOrigin::Include = origin {
            if let Some(original) = &change.original_path {
                paths.push(original.clone());
            }
        }
        assert(texts(paths@) =~= change_paths(*change, origin));
        FileCandidate { display: display_line(change), key: change.path.clone(), paths }
    }

    /// A file of a revision as a candidate. It has no status letters.
    pub fn from_path(path: &str) -> (candidate: Self)
        ensures
            candidate.display@ == path@,
            candidate.key@ == path@,
            texts(candidate.paths@) == seq![path@],
    {
        let mut paths: Vec<String> = Vec::new();
        paths.push(path.to_owned());
        assert(texts(paths@) =~= seq![path@]);
        FileCandidate { display: path.to_owned(), key: path.to_owned(), paths }
    }
}

/// Writes the line of a changed file.
pub fn display_line(change: &FileChange) -> (line: String)
    ensures
        line@ == change_line(*change),
{
    let code = change.status_code();
    match &change.original_path {
        Some(original) => {
            let mut line = concat3(code.as_str(), " ", original.as_str());
            line.append(" -> ");
            line.append(change.path.as_str());
            line
        },
        None => concat3(code.as_str(), " ", change.path.as_str()),
    }
}

/// The picked candidates, in the order of the list. A picked path that was not offered is
/// an error, lest the wrong file be acted on.
pub fn resolve<'a>(
    messages: Messages,
    candidates: &'a [FileCandidate],
    selected: &Vec<String>,
) -> (found: Result<Vec<&'a FileCandidate>, Error>)
    ensures
        match found {
            Ok(list) => {
                &&& missing_keys(keys_of(candidates@), texts(selected@)).len() == 0
                &&& values(list@) == picked(candidates@, texts(selected@))
            },
            Err(error) => {
                &&& missing_keys(keys_of(candidates@), texts(selected@)).len() > 0
                &&& error.says(
                    messages.file_selection().selection_not_found_text(
                        join(missing_keys(keys_of(candidates@), texts(selected@)), ", "@),
                    ),
                )
            },
        },
{
    match resolve_by_key(candidates, selected) {
        Ok(list) => Ok(list),
        Err(absent) => Err(
            Error::Explained(messages.file_selection().selection_not_found(absent.as_str())),
        ),
    }
}

/// The picked changes, in the order of the list. A picked path that was not offered is an
/// error.
pub fn resolve_changes<'a>(
    messages: Messages,
    changes: &'a [FileChange],
    selected: &Vec<String>,
) -> (found: Result<Vec<&'a FileChange>, Error>)
    ensures
        match found {
            Ok(list) => {
                &&& missing_keys(keys_of(changes@), texts(selected@)).len() == 0
                &&& values(list@) == picked(changes@, texts(selected@))
            },
            Err(error) => {
                &&& missing_keys(keys_of(changes@), texts(selected@)).len() > 0
                &&& error.says(
                    messages.file_selection().selection_not_found_text(
                        join(missing_keys(keys_of(changes@), texts(selected@)), ", "@),
                    ),
                )
            },
        },
{
    match resolve_by_key(changes, selected) {
        Ok(list) => Ok(list),
        Err(absent) => Err(
            Error::Explained(messages.file_selection().selection_not_found(absent.as_str())),
        ),
    }
}

/// All elements of several lists, in a row.
pub open spec fn all_paths(lists: Seq<Seq<Seq<char>>>) -> Seq<Seq<char>>
    decreases lists.len(),
{
    if lists.len() == 0 {
        Seq::empty()
    } else {
        all_paths(lists.drop_last()) + lists.last()
    }
}

/// A list in which everything but the first occurrence is left out.
pub open spec fn first_occurrences(items: Seq<Seq<char>>) -> Seq<Seq<char>>
    decreases items.len(),
{
    if items.len() == 0 {
        Seq::empty()
    } else {
        let before = first_occurrences(items.drop_last());
        if before.contains(items.last()) {
            before
        } else {
            before.push(items.last())
        }
    }
}

/// The paths of each of several candidates.
pub open spec fn path_lists(candidates: Seq<FileCandidate>) -> Seq<Seq<Seq<char>>> {
    candidates.map_values(|candidate: FileCandidate| texts(candidate.paths@))
}

/// Collects the paths that the picked candidates stand for, each of them once.
pub fn target_paths(selected: &[&FileCandidate]) -> (paths: Vec<String>)
    ensures
        texts(paths@) == first_occurrences(all_paths(path_lists(values(selected@)))),
{
    let ghost lists = path_lists(values(selected@));
    let mut paths: Vec<String> = Vec::new();
    let mut i: usize = 0;
    assert(texts(paths@) =~= first_occurrences(all_paths(lists.take(0))));
    while i < selected.len()
        invariant
            i <= selected@.len(),
            lists == path_lists(values(selected@)),
            texts(paths@) == first_occurrences(all_paths(lists.take(i as int))),
        decreases selected@.len() - i,
    {
        let own: &Vec<String> = &selected[i].paths;
        let ghost before = all_paths(lists.take(i as int));
        let mut j: usize = 0;
        assert(before + texts(own@).take(0) =~= before);
        while j < own.len()
            invariant
                j <= own@.len(),
                texts(paths@) == first_occurrences(before + texts(own@).take(j as int)),
            decreases own@.len() - j,
        {
            proof {
                let next = before + texts(own@).take(j + 1);
                assert(next.drop_last() =~= before + texts(own@).take(j as int));
                assert(next.last() == own@[j as int]@);
            }
            if !contains_text(&paths, own[j].as_str()) {
                paths.push(own[j].clone());
            }
            j += 1;
        }
        proof {
            assert(texts(own@).take(j as int) =~= texts(own@));
            let next = lists.take(i + 1);
            assert(next.drop_last() =~= lists.take(i as int));
            assert(next.last() == texts(own@));
        }
        i += 1;
    }
    assert(lists.take(i as int) =~= lists);
    paths
}

/// Git gets each path once, and every path of every picked candidate.
pub proof fn law_each_path_once(items: Seq<Seq<char>>)
    ensures
        first_occurrences(items).no_duplicates(),
        forall|path: Seq<char>|
            #![trigger first_occurrences(items).contains(path)]
            #![trigger items.contains(path)]
            first_occurrences(items).contains(path) <==> items.contains(path),
    decreases items.len(),
{
    if items.len() > 0 {
        let before = items.drop_last();
        law_each_path_once(before);
        assert(items =~= before.push(items.last()));
        let kept = first_occurrences(before);
        assert forall|path: Seq<char>|
            #![trigger first_occurrences(items).contains(path)]
            #![trigger items.contains(path)]
            first_occurrences(items).contains(path) <==> items.contains(path) by {
            if items.contains(path) {
                let i = items.index_of(path);
                if i < before.len() {
                    assert(before[i] == path);
                    assert(before.contains(path));
                    let k = kept.index_of(path);
                    assert(first_occurrences(items)[k] == path);
                } else {
                    assert(path == items.last());
                    if !kept.contains(path) {
                        assert(first_occurrences(items).last() == path);
                    }
                }
            }
            if first_occurrences(items).contains(path) {
                let k = first_occurrences(items).index_of(path);
                if k < kept.len() {
                    assert(kept[k] == path);
                    assert(kept.contains(path));
                    assert(before.contains(path));
                    let i = before.index_of(path);
                    assert(items[i] == path);
                } else {
                    assert(items.last() == path);
                }
            }
        }
    }
}

/// What several lists hold in a row is what any of them holds.
pub proof fn lemma_all_paths(lists: Seq<Seq<Seq<char>>>, path: Seq<char>)
    ensures
        all_paths(lists).contains(path) <==> exists|i: int|
            0 <= i < lists.len() && (#[trigger] lists[i]).contains(path),
    decreases lists.len(),
{
    if lists.len() > 0 {
        let rest = lists.drop_last();
        let before = all_paths(rest);
        let all = all_paths(lists);
        lemma_all_paths(rest, path);
        if all.contains(path) {
            let k = choose|k: int| 0 <= k < all.len() && all[k] == path;
            if k < before.len() {
                assert(before[k] == path);
                let i = choose|i: int| 0 <= i < rest.len() && (#[trigger] rest[i]).contains(path);
                assert(lists[i].contains(path));
            } else {
                assert(lists.last()[k - before.len()] == path);
                assert(lists[lists.len() - 1].contains(path));
            }
        }
        if exists|i: int| 0 <= i < lists.len() && (#[trigger] lists[i]).contains(path) {
            let i = choose|i: int| 0 <= i < lists.len() && (#[trigger] lists[i]).contains(path);
            if i < rest.len() {
                assert(rest[i].contains(path));
                let k = choose|k: int| 0 <= k < before.len() && before[k] == path;
                assert(all[k] == path);
            } else {
                let k = choose|k: int| 0 <= k < lists.last().len() && lists.last()[k] == path;
                assert(all[before.len() + k] == path);
            }
        }
    }
}

/// Git gets the paths of the picked candidates and no others: a path is among them if and only
/// if some picked candidate stands for it, and none is there twice.
pub proof fn law_git_gets_the_picked_paths(
    selected: &[&FileCandidate],
    paths: Vec<String>,
    path: Seq<char>,
)
    requires
        call_ensures(target_paths, (selected,), paths),
    ensures
        texts(paths@).no_duplicates(),
        texts(paths@).contains(path) <==> exists|i: int|
            0 <= i < selected@.len() && texts((#[trigger] selected@[i]).paths@).contains(path),
{
    let lists = path_lists(values(selected@));
    law_each_path_once(all_paths(lists));
    lemma_all_paths(lists, path);
    assert(first_occurrences(all_paths(lists)).contains(path) <==> all_paths(lists).contains(path));
    if exists|i: int| 0 <= i < lists.len() && (#[trigger] lists[i]).contains(path) {
        let i = choose|i: int| 0 <= i < lists.len() && (#[trigger] lists[i]).contains(path);
        assert(lists[i] == texts(selected@[i].paths@));
    }
    if exists|i: int| 0 <= i < selected@.len() && texts((#[trigger] selected@[i]).paths@).contains(
        path,
    ) {
        let i = choose|i: int|
            0 <= i < selected@.len() && texts((#[trigger] selected@[i]).paths@).contains(path);
        assert(lists[i] == texts(selected@[i].paths@));
        assert(lists[i].contains(path));
    }
}

/// A changed file is found by the path at which it is now. The path that it came from is a
/// target too where that was asked for, and is always shown.
pub proof fn law_a_candidate_stands_for_its_change(
    change: &FileChange,
    origin: RenameOrigin,
    candidate: FileCandidate,
)
    requires
        call_ensures(FileCandidate::from_change, (change, origin), candidate),
    ensures
        candidate.key@ == change.path@,
        texts(candidate.paths@)[0] == change.path@,
        change.original_path is None || origin is Exclude ==> candidate.paths@.len() == 1,
        change.original_path matches Some(from) ==> {
            &&& origin is Include ==> candidate.paths@.len() == 2 && texts(candidate.paths@)[1]
                == from@
            &&& candidate.display@ == seq![change.index_status, change.worktree_status] + " "@
                + from@ + " -> "@ + change.path@
        },
        change.original_path is None ==> candidate.display@ == seq![
            change.index_status,
            change.worktree_status,
        ] + " "@ + change.path@,
{
    assert(texts(candidate.paths@).len() == candidate.paths@.len());
}

/// A file of a revision stands for itself.
pub proof fn law_a_path_stands_for_itself(path: &str, candidate: FileCandidate)
    requires
        call_ensures(FileCandidate::from_path, (path,), candidate),
    ensures
        candidate.display@ == path@,
        candidate.key@ == path@,
        texts(candidate.paths@) == seq![path@],
{
}

} // verus!
