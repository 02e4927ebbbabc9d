//! From picked keys back to the candidates that were offered.

use vstd::prelude::*;

use crate::text::{contains_text, join, join_texts, same_text, texts};

verus! {

broadcast use crate::text::lemma_texts_push;

/// A candidate that is found again by a key.
pub trait Keyed {
    /// The key of the candidate.
    spec fn key_text(&self) -> Seq<char>;

    /// The key of the candidate.
    fn key_of(&self) -> (key: &str)
        ensures
            key@ == self.key_text(),
    ;
}

/// The keys of several candidates.
pub open spec fn keys_of<T: Keyed>(items: Seq<T>) -> Seq<Seq<char>> {
    items.map_values(|item: T| item.key_text())
}

/// The picked keys that no candidate has, in the order in which they were picked.
pub open spec fn missing_keys(keys: Seq<Seq<char>>, selected: Seq<Seq<char>>) -> Seq<Seq<char>> {
    selected.filter(|key: Seq<char>| !keys.contains(key))
}

/// The candidates whose keys were picked, in the order in which they were offered.
pub open spec fn picked<T: Keyed>(items: Seq<T>, selected: Seq<Seq<char>>) -> Seq<T> {
    items.filter(|item: T| selected.contains(item.key_text()))
}

/// The values behind references.
pub open spec fn values<T>(refs: Seq<&T>) -> Seq<T> {
    refs.map_values(|item: &T| *item)
}

/// One step of a filter.
pub proof fn lemma_filter_step<T>(items: Seq<T>, pred: spec_fn(T) -> bool, i: int)
    requires
        0 <= i < items.len(),
    ensures
        items.take(i + 1).filter(pred) == (if pred(items[i]) {
            items.take(i).filter(pred).push(items[i])
        } else {
            items.take(i).filter(pred)
        }),
{
    reveal(Seq::filter);
    assert(items.take(i + 1).drop_last() =~= items.take(i));
}

/// A filter of nothing.
pub proof fn lemma_filter_empty<T>(items: Seq<T>, pred: spec_fn(T) -> bool)
    ensures
        items.take(0).filter(pred) == Seq::<T>::empty(),
{
    reveal(Seq::filter);
    assert(items.take(0).filter(pred) =~= Seq::<T>::empty());
}

/// Whether some candidate has a key.
fn has_key<T: Keyed>(items: &[T], key: &str) -> (found: bool)
    ensures
        found == keys_of(items@).contains(key@),
{
    let mut i: usize = 0;
    while i < items.len()
        invariant
            i <= items@.len(),
            forall|k: int| 0 <= k < i ==> keys_of(items@)[k] != key@,
        decreases items@.len() - i,
    {
        assert(keys_of(items@)[i as int] == items@[i as int].key_text());
        if same_text(items[i].key_of(), key) {
            return true;
        }
        i += 1;
    }
    false
}

/// Finds the first candidate that has a key.
pub fn find_by_key<'a, T: Keyed>(items: &'a [T], key: &str) -> (found: Option<&'a T>)
    ensures
        match found {
            Some(item) => keys_of(items@).index_of_first(key@) matches Some(i) && 0 <= i
                < items@.len() && *item == items@[i] && item.key_text() == key@,
            None => !keys_of(items@).contains(key@),
        },
{
    let mut i: usize = 0;
    while i < items.len()
        invariant
            i <= items@.len(),
            forall|k: int| 0 <= k < i ==> keys_of(items@)[k] != key@,
        decreases items@.len() - i,
    {
        assert(keys_of(items@)[i as int] == items@[i as int].key_text());
        if same_text(items[i].key_of(), key) {
            proof {
                keys_of(items@).index_of_first_ensures(key@);
                assert(keys_of(items@)[i as int] == key@);
                assert(keys_of(items@).contains(key@));
            }
            return Some(&items[i]);
        }
        i += 1;
    }
    None
}

/// Collects the picked keys that no candidate has.
pub fn missing<T: Keyed>(items: &[T], selected: &Vec<String>) -> (keys: Vec<String>)
    ensures
        texts(keys@) == missing_keys(keys_of(items@), texts(selected@)),
{
    let ghost all = texts(selected@);
    let ghost absent = |key: Seq<char>| !keys_of(items@).contains(key);
    let mut keys: Vec<String> = Vec::new();
    let mut i: usize = 0;
    proof {
        lemma_filter_empty(all, absent);
        assert(texts(keys@) =~= Seq::empty());
    }
    while i < selected.len()
        invariant
            i <= selected@.len(),
            all == texts(selected@),
            absent == (|key: Seq<char>| !keys_of(items@).contains(key)),
            texts(keys@) == all.take(i as int).filter(absent),
        decreases selected@.len() - i,
    {
        proof {
            lemma_filter_step(all, absent, i as int);
            assert(all[i as int] == selected@[i as int]@);
        }
        if !has_key(items, selected[i].as_str()) {
            keys.push(selected[i].clone());
        }
        i += 1;
    }
    assert(all.take(i as int) =~= all);
    keys
}

/// Finds the candidates whose keys were picked. A key that no candidate has is not passed
/// over: the answer is then those keys, joined by commas.
pub fn resolve_by_key<'a, T: Keyed>(items: &'a [T], selected: &Vec<String>) -> (found: Result<
    Vec<&'a T>,
    String,
>)
    ensures
        match found {
            Ok(list) => {
                &&& missing_keys(keys_of(items@), texts(selected@)).len() == 0
                &&& values(list@) == picked(items@, texts(selected@))
            },
            Err(absent) => {
                &&& missing_keys(keys_of(items@), texts(selected@)).len() > 0
                &&& absent@ == join(missing_keys(keys_of(items@), texts(selected@)), ", "@)
            },
        },
{
    let absent = missing(items, selected);
    assert(texts(absent@).len() == absent@.len());
    if absent.len() > 0 {
        return Err(join_texts(&absent, ", "));
    }
    let ghost wanted = |item: T| texts(selected@).contains(item.key_text());
    let mut list: Vec<&'a T> = Vec::new();
    let mut i: usize = 0;
    proof {
        lemma_filter_empty(items@, wanted);
        assert(values(list@) =~= Seq::empty());
    }
    while i < items.len()
        invariant
            i <= items@.len(),
            wanted == (|item: T| texts(selected@).contains(item.key_text())),
            values(list@) == items@.take(i as int).filter(wanted),
        decreases items@.len() - i,
    {
        proof {
            lemma_filter_step(items@, wanted, i as int);
        }
        let ghost before = list@;
        if contains_text(selected, items[i].key_of()) {
            list.push(&items[i]);
            assert(values(list@) =~= values(before).push(items@[i as int]));
        }
        i += 1;
    }
    assert(items@.take(i as int) =~= items@);
    Ok(list)
}

/// Whether `part` is `whole` with some elements left out: `at` gives where each is found.
pub open spec fn in_order<T>(part: Seq<T>, whole: Seq<T>, at: Seq<int>) -> bool {
    &&& at.len() == part.len()
    &&& forall|i: int| 0 <= i < at.len() ==> 0 <= #[trigger] at[i] < whole.len() && whole[at[i]] == part[i]
    &&& forall|i: int, j: int| 0 <= i < j < at.len() ==> #[trigger] at[i] < #[trigger] at[j]
}

/// A filter keeps the order.
pub proof fn lemma_filter_in_order<T>(whole: Seq<T>, pred: spec_fn(T) -> bool) -> (at: Seq<int>)
    ensures
        in_order(whole.filter(pred), whole, at),
    decreases whole.len(),
{
    reveal(Seq::filter);
    if whole.len() == 0 {
        Seq::empty()
    } else {
        let before = lemma_filter_in_order(whole.drop_last(), pred);
        if pred(whole.last()) {
            before.push(whole.len() - 1)
        } else {
            before
        }
    }
}

/// However the keys were picked, the candidates come back in the order of the list.
pub proof fn law_selection_keeps_list_order<T: Keyed>(items: Seq<T>, selected: Seq<Seq<char>>)
    ensures
        exists|at: Seq<int>| in_order(picked(items, selected), items, at),
{
    let at = lemma_filter_in_order(items, |item: T| selected.contains(item.key_text()));
    assert(in_order(picked(items, selected), items, at));
}

/// A candidate comes back if and only if its key was picked.
pub proof fn law_selection_is_what_was_picked<T: Keyed>(
    items: Seq<T>,
    selected: Seq<Seq<char>>,
    item: T,
)
    requires
        items.contains(item),
    ensures
        picked(items, selected).contains(item) <==> selected.contains(item.key_text()),
{
    broadcast use vstd::seq_lib::group_filter_ensures;

    let pred = |item: T| selected.contains(item.key_text());
    if selected.contains(item.key_text()) {
        let i = choose|i: int| 0 <= i < items.len() && items[i] == item;
        assert(pred(items[i]));
        assert(items.filter(pred).contains(items[i]));
    }
    if picked(items, selected).contains(item) {
        let i = choose|i: int| 0 <= i < items.filter(pred).len() && items.filter(pred)[i] == item;
        assert(pred(items.filter(pred)[i]));
    }
}

/// A selection is refused if and only if some picked key belongs to no candidate.
pub proof fn law_selection_is_refused_for_unknown_keys(
    keys: Seq<Seq<char>>,
    selected: Seq<Seq<char>>,
)
    ensures
        missing_keys(keys, selected).len() > 0 <==> exists|key: Seq<char>|
            selected.contains(key) && !keys.contains(key),
{
    broadcast use vstd::seq_lib::group_filter_ensures;

    let absent = |key: Seq<char>| !keys.contains(key);
    if missing_keys(keys, selected).len() > 0 {
        let key = selected.filter(absent)[0];
        assert(absent(key));
        assert(selected.filter(absent).contains(key));
        selected.lemma_filter_contains_rev(absent, key);
    }
    if exists|key: Seq<char>| selected.contains(key) && !keys.contains(key) {
        let key = choose|key: Seq<char>| selected.contains(key) && !keys.contains(key);
        let i = choose|i: int| 0 <= i < selected.len() && selected[i] == key;
        assert(absent(selected[i]));
        assert(selected.filter(absent).contains(selected[i]));
    }
}

/// What is found has the key that was asked for, and nothing that has it goes unfound.
pub proof fn law_what_is_found_has_the_key<'a, T: Keyed>(
    items: &'a [T],
    key: &str,
    found: Option<&'a T>,
)
    requires
        call_ensures(find_by_key::<T>, (items, key), found),
    ensures
        found matches Some(item) ==> item.key_text() == key@ && items@.contains(*item),
        found is None <==> !keys_of(items@).contains(key@),
{
    keys_of(items@).index_of_first_ensures(key@);
}

/// A selection gives back exactly what was picked: each of it has a picked key, and a candidate
/// whose key was picked is there. It is refused if and only if a picked key is none of a
/// candidate.
pub proof fn law_a_selection_is_exact<'a, T: Keyed>(
    items: &'a [T],
    selected: &Vec<String>,
    found: Result<Vec<&'a T>, String>,
    i: int,
)
    requires
        0 <= i < items@.len(),
        call_ensures(resolve_by_key::<T>, (items, selected), found),
    ensures
        found is Err <==> exists|key: Seq<char>|
            texts(selected@).contains(key) && !keys_of(items@).contains(key),
        found matches Ok(list) ==> (values(list@).contains(items@[i]) <==> texts(
            selected@,
        ).contains(items@[i].key_text())),
        found matches Ok(list) ==> exists|at: Seq<int>| in_order(values(list@), items@, at),
{
    law_selection_is_refused_for_unknown_keys(keys_of(items@), texts(selected@));
    law_selection_is_what_was_picked(items@, texts(selected@), items@[i]);
    law_selection_keeps_list_order(items@, texts(selected@));
}

} // verus!
