//! `gz cherry-pick`: apply picked commits in the order of the history.

use vstd::prelude::*;

use crate::commands::{commit_highlights, commit_highlights_of, commit_line, commit_text};
use crate::error::Error;
use crate::finder::{
    item_views, items_of, plain, Candidate, FinderItem, FinderOptions, ListOptions, Picker, Preview,
    PreviewSource, SelectionMode,
};
use crate::git::{CommitInfo, GitRun};
use crate::i18n::Messages;
use crate::selection::{
    keys_of, lemma_filter_empty, lemma_filter_step, missing, missing_keys, Keyed,
};
use crate::text::{contains_text, copied, join, join_texts, texts};

verus! {

broadcast use crate::text::lemma_texts_push;

impl Keyed for CommitInfo {
    open spec fn key_text(&self) -> Seq<char> {
        self.id@
    }

    fn key_of(&self) -> (key: &str) {
        self.id.as_str()
    }
}

/// A commit in the list.
pub open spec fn candidate_of(commit: CommitInfo) -> Candidate {
    Candidate {
        highlights: commit_highlights_of(commit),
        ..plain(
            commit_text(commit.short_id@, commit.time@, commit.summary@, commit.author@),
            commit.id@,
            Preview::Git(seq!["show"@, "--color=always"@, commit.id@, "--"@]),
        )
    }
}

/// Builds the candidate list.
pub fn picker(candidates: &[CommitInfo]) -> (picker: Picker)
    ensures
        item_views(picker.items@) == candidates@.map_values(
            |commit: CommitInfo| candidate_of(commit),
        ),
        picker.options@ == (ListOptions {
            mode: SelectionMode::Multi,
            header: None,
            preselect: Seq::empty(),
        }),
{
    let items = items_of(candidates, to_item);
    assert(item_views(items@) =~= candidates@.map_values(|commit: CommitInfo| candidate_of(commit)));
    Picker { items, options: FinderOptions::new(SelectionMode::Multi) }
}

/// Whether a run applies the given commits, all in one go.
pub open spec fn applies(run: GitRun, messages: Messages, hashes: Seq<Seq<char>>) -> bool {
    run.is(seq!["cherry-pick"@] + hashes, messages.cherry_pick().resolution_hint_text())
}

/// The run that applies what was picked, from the oldest commit. A picked hash that was not
/// offered is an error.
pub fn run_on_selection(
    messages: Messages,
    candidates: &[CommitInfo],
    selected: &Vec<String>,
) -> (run: Result<GitRun, Error>)
    ensures
        match run {
            Ok(run) => {
                &&& missing_keys(keys_of(candidates@), texts(selected@)).len() == 0
                &&& applies(run, messages, picked_oldest_first(candidates@, texts(selected@)))
            },
            Err(error) => {
                &&& missing_keys(keys_of(candidates@), texts(selected@)).len() > 0
                &&& error.says(
                    messages.cherry_pick().selection_not_found_text(
                        join(missing_keys(keys_of(candidates@), texts(selected@)), ", "@),
                    ),
                )
            },
        },
{
    match oldest_first(messages, candidates, selected) {
        Ok(hashes) => Ok(apply(messages, &hashes)),
        Err(error) => Err(error),
    }
}

/// The run that applies one commit.
pub fn run_on_commit(messages: Messages, id: &str) -> (run: GitRun)
    ensures
        applies(run, messages, seq![id@]),
{
    let mut hashes: Vec<String> = Vec::new();
    hashes.push(id.to_owned());
    assert(texts(hashes@) =~= seq![id@]);
    apply(messages, &hashes)
}

/// The run that applies commits, all in one go: git can then continue or abort the rest.
fn apply(messages: Messages, hashes: &Vec<String>) -> (run: GitRun)
    ensures
        applies(run, messages, texts(hashes@)),
{
    GitRun {
        args: cherry_pick_args(hashes),
        failure: messages.cherry_pick().resolution_hint().to_owned(),
    }
}

/// Writes the line of a commit.
pub fn display_line(commit: &CommitInfo) -> (line: String)
    ensures
        line@ == commit_text(commit.short_id@, commit.time@, commit.summary@, commit.author@),
{
    commit_line(commit)
}

/// The arguments that show a commit in its preview.
pub fn preview_args(commit: &CommitInfo) -> (args: Vec<String>)
    ensures
        texts(args@) == seq!["show"@, "--color=always"@, commit.id@, "--"@],
{
    crate::commands::commit_preview_args(commit.id.as_str())
}

/// A commit as the list shows it.
pub fn to_item(commit: &CommitInfo) -> (item: FinderItem)
    ensures
        item@ == candidate_of(*commit),
{
    FinderItem::new(
        display_line(commit),
        commit.id.clone(),
        PreviewSource::Git(preview_args(commit)),
    ).with_highlights(commit_highlights(commit))
}

/// The picked hashes from the oldest commit, where the list starts with the newest.
pub open spec fn picked_oldest_first(
    candidates: Seq<CommitInfo>,
    selected: Seq<Seq<char>>,
) -> Seq<Seq<char>> {
    keys_of(candidates).reverse().filter(|id: Seq<char>| selected.contains(id))
}

/// Puts the picked hashes in the order of the history.
pub fn oldest_first(messages: Messages, candidates: &[CommitInfo], selected: &Vec<String>) -> (hashes:
    Result<Vec<String>, Error>)
    ensures
        match hashes {
            Ok(hashes) => {
                &&& missing_keys(keys_of(candidates@), texts(selected@)).len() == 0
                &&& texts(hashes@) == picked_oldest_first(candidates@, texts(selected@))
            },
            Err(error) => {
                &&& missing_keys(keys_of(candidates@), texts(selected@)).len() > 0
                &&& error.says(
                    messages.cherry_pick().selection_not_found_text(
                        join(missing_keys(keys_of(candidates@), texts(selected@)), ", "@),
                    ),
                )
            },
        },
{
    let absent = missing(candidates, selected);
    assert(texts(absent@).len() == absent@.len());
    if absent.len() > 0 {
        let names = join_texts(&absent, ", ");
        return Err(
            Error::Explained(messages.cherry_pick().selection_not_found(names.as_str())),
        );
    }
    let ghost ids = keys_of(candidates@).reverse();
    let ghost wanted = |id: Seq<char>| texts(selected@).contains(id);
    let mut hashes: Vec<String> = Vec::new();
    let mut i: usize = 0;
    proof {
        lemma_filter_empty(ids, wanted);
        assert(texts(hashes@) =~= Seq::empty());
    }
    while i < candidates.len()
        invariant
            i <= candidates@.len(),
            ids == keys_of(candidates@).reverse(),
            wanted == (|id: Seq<char>| texts(selected@).contains(id)),
            texts(hashes@) == ids.take(i as int).filter(wanted),
        decreases candidates@.len() - i,
    {
        let commit: &CommitInfo = &candidates[candidates.len() - 1 - i];
        proof {
            lemma_filter_step(ids, wanted, i as int);
            assert(ids[i as int] == commit.id@);
        }
        if contains_text(selected, commit.id.as_str()) {
            hashes.push(commit.id.clone());
        }
        i += 1;
    }
    assert(ids.take(i as int) =~= ids);
    Ok(hashes)
}

/// The arguments that apply commits.
pub fn cherry_pick_args(hashes: &Vec<String>) -> (args: Vec<String>)
    ensures
        texts(args@) == seq!["cherry-pick"@] + texts(hashes@),
{
    let mut args: Vec<String> = Vec::new();
    args.push("cherry-pick".to_owned());
    let mut rest = copied(hashes);
    let ghost copies = rest@;
    args.append(&mut rest);
    proof {
        assert(texts(args@) =~= seq!["cherry-pick"@] + texts(copies));
    }
    args
}

/// However the commits were picked, they are applied in the order of the history: the
/// order of the arguments is the order of the list turned round.
pub proof fn law_applied_from_the_oldest(
    candidates: Seq<CommitInfo>,
    selected: Seq<Seq<char>>,
)
    ensures
        picked_oldest_first(candidates, selected).reverse() == keys_of(candidates).filter(
            |id: Seq<char>| selected.contains(id),
        ),
{
    lemma_filter_reverse(keys_of(candidates), |id: Seq<char>| selected.contains(id));
}

proof fn lemma_filter_reverse(items: Seq<Seq<char>>, pred: spec_fn(Seq<char>) -> bool)
    ensures
        items.reverse().filter(pred).reverse() == items.filter(pred),
    decreases items.len(),
{
    reveal(Seq::filter);
    if items.len() > 0 {
        let rest = items.drop_last();
        lemma_filter_reverse(rest, pred);
        let head = seq![items.last()];
        assert(items.reverse() =~= head + rest.reverse());
        Seq::filter_distributes_over_add(head, rest.reverse(), pred);
        assert(head.drop_last() =~= Seq::empty());
        reveal_with_fuel(Seq::filter, 2);
        if pred(items.last()) {
            assert(head.filter(pred) =~= head);
        } else {
            assert(head.filter(pred) =~= Seq::empty());
        }
        assert(items.reverse().filter(pred).reverse() =~= items.filter(pred));
    } else {
        assert(items.reverse().filter(pred).reverse() =~= items.filter(pred));
    }
}

/// All that was picked is applied in one run, from the oldest commit, which stands last in the
/// list: of any two picked commits, the one further down is applied first.
pub proof fn law_what_is_picked_is_applied_in_one_run(
    messages: Messages,
    candidates: &[CommitInfo],
    selected: &Vec<String>,
    run: GitRun,
)
    requires
        call_ensures(run_on_selection, (messages, candidates, selected), Ok(run)),
    ensures
        texts(run.args@).len() >= 1,
        texts(run.args@)[0] == "cherry-pick"@,
        texts(run.args@).skip(1).reverse() == keys_of(candidates@).filter(
            |id: Seq<char>| texts(selected@).contains(id),
        ),
{
    law_applied_from_the_oldest(candidates@, texts(selected@));
    assert(texts(run.args@).skip(1) =~= picked_oldest_first(candidates@, texts(selected@)));
}

/// A single commit is applied like several.
pub proof fn law_one_commit_is_applied_alike(messages: Messages, id: &str, run: GitRun)
    requires
        call_ensures(run_on_commit, (messages, id), run),
    ensures
        texts(run.args@).len() == 2,
        texts(run.args@)[0] == "cherry-pick"@,
        texts(run.args@)[1] == id@,
{
}

/// A commit is found by its full hash, and its preview shows that commit.
pub proof fn law_a_preview_shows_its_own_commit(commit: &CommitInfo, item: FinderItem)
    requires
        call_ensures(to_item, (commit,), item),
    ensures
        item.key@ == commit.id@,
        item@.preview matches Preview::Git(args) && args[0] == "show"@ && args[2] == commit.id@
            && args.last() == "--"@,
{
    assert(item@.key == item.key@);
}

} // verus!
