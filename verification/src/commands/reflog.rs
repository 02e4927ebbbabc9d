//! `gz reflog`: find a commit that `HEAD` once stood at.

use vstd::prelude::*;

use crate::commands::commit_menu::{print_hash, MenuAction};
use crate::commands::{commit_preview_args, selection_header, DECIDE_KEY, HEADER_SEPARATOR};
use crate::error::Error;
use crate::finder::{
    headed, item_views, items_of, plain, Candidate, FinderItem, FinderOptions, Picker, Preview,
    PreviewSource, SelectionMode,
};
use crate::git::{is_full_hash, GitRun, ReflogEntry};
use crate::i18n::Messages;
use crate::text::{concat5, owned_all, same_text, texts};

verus! {

broadcast use crate::text::lemma_texts_push;

/// How many characters of a hash are shown.
pub const SHORT_ID_LENGTH: usize = 7;

/// What the menu of an entry offers. It is for getting back what was lost: a hard reset
/// goes back to it, while reverts and fixups are for commits that are still there.
pub const MENU: [MenuAction; 5] = [
    MenuAction::Show,
    MenuAction::SwitchDetach,
    MenuAction::CherryPick,
    MenuAction::ResetHard,
    MenuAction::PrintHash,
];

/// What happens with the picked entry.
#[derive(Debug, Clone, Copy, PartialEq, Eq)]
pub enum Decision<'a> {
    /// Its full hash is printed.
    Print,
    /// A branch of the given name is created at it.
    Restore(&'a str),
    /// Its menu opens.
    Menu,
}

impl<'a> Decision<'a> {
    /// Reads the flags. A branch and a menu cannot be asked for at once.
    pub fn from_flags(messages: Messages, restore: Option<&'a str>, action: bool) -> (decision: Result<
        Self,
        Error,
    >)
        ensures
            match (restore, action) {
                (Some(_), true) => decision matches Err(error) && error.says(
                    messages.reflog().conflicting_actions_text(),
                ),
                (Some(name), false) => decision == Ok::<Self, Error>(Decision::Restore(name)),
                (None, true) => decision == Ok::<Self, Error>(Decision::Menu),
                (None, false) => decision == Ok::<Self, Error>(Decision::Print),
            },
    {
        match (restore, action) {
            (Some(_), true) => Err(
                Error::Explained(messages.reflog().conflicting_actions().to_owned()),
            ),
            (Some(name), false) => Ok(Decision::Restore(name)),
            (None, true) => Ok(Decision::Menu),
            (None, false) => Ok(Decision::Print),
        }
    }

    /// What the header says will happen.
    pub open spec fn outcome_of(self, messages: Messages) -> Seq<char> {
        match self {
            Decision::Print => messages.reflog().header_outcome_print_text(),
            Decision::Restore(name) => messages.reflog().header_outcome_restore_text(name@),
            Decision::Menu => messages.reflog().header_outcome_menu_text(),
        }
    }

    pub fn header_outcome(&self, messages: Messages) -> (outcome: String)
        ensures
            outcome@ == self.outcome_of(messages),
    {
        match self {
            Decision::Print => messages.reflog().header_outcome_print().to_owned(),
            Decision::Restore(name) => messages.reflog().header_outcome_restore(name),
            Decision::Menu => messages.reflog().header_outcome_menu().to_owned(),
        }
    }
}

/// The beginning of a hash that is shown.
pub open spec fn short_of(id: Seq<char>) -> Seq<char> {
    if id.len() > SHORT_ID_LENGTH {
        id.take(SHORT_ID_LENGTH as int)
    } else {
        id
    }
}

/// The line of an entry, as `git reflog` writes it.
pub open spec fn line_of(entry: ReflogEntry) -> Seq<char> {
    short_of(entry.id@) + " "@ + entry.selector_text() + ": "@ + entry.message@
}

/// An entry in the list.
pub open spec fn candidate_of(entry: ReflogEntry) -> Candidate {
    plain(
        line_of(entry),
        entry.selector_text(),
        Preview::Git(seq!["show"@, "--color=always"@, entry.id@, "--"@]),
    )
}

/// Builds the candidate list.
pub fn picker(messages: Messages, candidates: &[ReflogEntry], decision: &Decision<'_>) -> (picker:
    Picker)
    ensures
        item_views(picker.items@) == candidates@.map_values(
            |entry: ReflogEntry| candidate_of(entry),
        ),
        picker.options@ == headed(
            SelectionMode::Single,
            messages.reflog().header_subject_text() + HEADER_SEPARATOR@ + DECIDE_KEY@
                + decision.outcome_of(messages),
        ),
{
    let items = items_of(candidates, to_item);
    assert(item_views(items@) =~= candidates@.map_values(|entry: ReflogEntry| candidate_of(entry)));
    let outcome = decision.header_outcome(messages);
    let header = selection_header(messages.reflog().header_subject(), outcome.as_str());
    Picker { items, options: FinderOptions::new(SelectionMode::Single).with_header(header) }
}

/// What a picked entry comes to.
#[derive(Debug, PartialEq, Eq)]
pub enum Outcome {
    /// A text is printed.
    Print(String),
    /// A branch is created, and then said to be there.
    Branch { run: GitRun, created: String },
    /// The menu of a commit opens.
    Menu { id: String, short_id: String, label: String },
}

/// The keys of entries.
pub open spec fn selectors(entries: Seq<ReflogEntry>) -> Seq<Seq<char>> {
    entries.map_values(|entry: ReflogEntry| entry.selector_text())
}

/// Whether an outcome is what was decided for an entry. What git gets, and what the menu is
/// about, is the full hash and never the selector.
pub open spec fn decides(
    outcome: Outcome,
    messages: Messages,
    decision: Decision<'_>,
    entry: ReflogEntry,
) -> bool {
    match decision {
        Decision::Print => outcome matches Outcome::Print(line) && line@ == entry.id@ + "\n"@,
        Decision::Restore(name) => outcome matches Outcome::Branch { run, created } && run.is(
            seq!["branch"@, "--"@, name@, entry.id@],
            messages.reflog().branch_creation_failed_text(name@),
        ) && created@ == messages.reflog().branch_created_text(name@, entry.id@),
        Decision::Menu => outcome matches Outcome::Menu { id, short_id, label } && id@ == entry.id@
            && short_id@ == short_of(entry.id@) && label@ == line_of(entry),
    }
}

/// Decides about the picked entry. A selector that was not offered is an error.
pub fn run_on_selection(
    messages: Messages,
    candidates: &[ReflogEntry],
    selected: &str,
    decision: &Decision<'_>,
) -> (outcome: Result<Outcome, Error>)
    ensures
        match selectors(candidates@).index_of_first(selected@) {
            None => outcome matches Err(error) && error.says(
                messages.reflog().selection_not_found_text(selected@),
            ),
            Some(i) => outcome matches Ok(outcome) && decides(
                outcome,
                messages,
                *decision,
                candidates@[i],
            ),
        },
{
    proof {
        selectors(candidates@).index_of_first_ensures(selected@);
    }
    let mut i: usize = 0;
    while i < candidates.len()
        invariant
            i <= candidates@.len(),
            forall|k: int| 0 <= k < i ==> selectors(candidates@)[k] != selected@,
        decreases candidates@.len() - i,
    {
        let entry: &ReflogEntry = &candidates[i];
        let selector = entry.selector();
        assert(selectors(candidates@)[i as int] == selector@);
        if same_text(selector.as_str(), selected) {
            proof {
                selectors(candidates@).index_of_first_ensures(selected@);
                assert(selectors(candidates@).contains(selected@));
            }
            return Ok(outcome(messages, entry, decision));
        }
        i += 1;
    }
    proof {
        selectors(candidates@).index_of_first_ensures(selected@);
    }
    Err(Error::Explained(messages.reflog().selection_not_found(selected)))
}

/// Decides about an entry.
fn outcome(messages: Messages, entry: &ReflogEntry, decision: &Decision<'_>) -> (outcome: Outcome)
    ensures
        decides(outcome, messages, *decision, *entry),
{
    let id: &str = entry.id.as_str();
    match decision {
        Decision::Restore(name) => Outcome::Branch {
            run: GitRun {
                args: branch_args(name, id),
                failure: messages.reflog().branch_creation_failed(name),
            },
            created: messages.reflog().branch_created(name, id),
        },
        Decision::Print => Outcome::Print(print_hash(id)),
        Decision::Menu => Outcome::Menu {
            id: entry.id.clone(),
            short_id: short_id(id).to_owned(),
            label: display_line(entry),
        },
    }
}

/// The beginning of a hash, or all of it where it is short. It is for showing only: the
/// commit may be gone, so the repository is not asked for a unique one.
pub fn short_id(id: &str) -> (short: &str)
    ensures
        short@ == short_of(id@),
{
    if id.unicode_len() > SHORT_ID_LENGTH {
        let short = id.substring_char(0, SHORT_ID_LENGTH);
        assert(short@ =~= id@.take(SHORT_ID_LENGTH as int));
        short
    } else {
        id
    }
}

/// Writes the line of an entry.
pub fn display_line(entry: &ReflogEntry) -> (line: String)
    ensures
        line@ == line_of(*entry),
{
    concat5(
        short_id(entry.id.as_str()),
        " ",
        entry.selector().as_str(),
        ": ",
        entry.message.as_str(),
    )
}

/// The arguments that show an entry in its preview.
pub fn preview_args(entry: &ReflogEntry) -> (args: Vec<String>)
    ensures
        texts(args@) == seq!["show"@, "--color=always"@, entry.id@, "--"@],
{
    commit_preview_args(entry.id.as_str())
}

/// The arguments that create a branch. The name stands behind the separator, so that it can
/// be no option.
pub fn branch_args(name: &str, id: &str) -> (args: Vec<String>)
    ensures
        texts(args@) == seq!["branch"@, "--"@, name@, id@],
{
    let args = owned_all(&["branch", "--", name, id]);
    assert(texts(args@) =~= seq!["branch"@, "--"@, name@, id@]);
    args
}

/// An entry as the list shows it. Its key is its place: the same commit may be there twice.
pub fn to_item(entry: &ReflogEntry) -> (item: FinderItem)
    ensures
        item@ == candidate_of(*entry),
{
    FinderItem::new(
        display_line(entry),
        entry.selector(),
        PreviewSource::Git(preview_args(entry)),
    )
}

/// The menu offers neither a revert nor a fixup, and a hard reset.
pub proof fn law_menu_of_the_reflog()
    ensures
        !MENU@.contains(MenuAction::Revert),
        !MENU@.contains(MenuAction::Fixup),
        MENU@.contains(MenuAction::ResetHard),
{
    assert(MENU@[3] == MenuAction::ResetHard);
}

/// The hash that leaves the list is the full one. What is printed is the hash of the entry and
/// the end of a line, so it is longer than the hash by one character, and without its end it is
/// a full hash where the entry has one.
pub proof fn law_the_full_hash_is_printed(
    messages: Messages,
    candidates: &[ReflogEntry],
    selected: &str,
    outcome: Result<Outcome, Error>,
    i: int,
)
    requires
        0 <= i < candidates@.len(),
        selectors(candidates@).index_of_first(selected@) == Some(i),
        call_ensures(run_on_selection, (messages, candidates, selected, &Decision::Print), outcome),
    ensures
        outcome matches Ok(Outcome::Print(line)) && {
            let id = candidates@[i].id@;
            &&& line@.len() == id.len() + 1
            &&& line@.drop_last() == id
            &&& line@.last() == '\n'
            &&& is_full_hash(id) ==> is_full_hash(line@.drop_last())
        },
{
    reveal_strlit("\n");
    if let Ok(Outcome::Print(line)) = outcome {
        assert(line@.drop_last() =~= candidates@[i].id@);
    }
}

/// Whatever is decided, the same commit is meant: what a bare run prints is what the menu of the
/// same entry prints, and a branch is created at just that hash.
pub proof fn law_every_decision_is_about_the_same_commit(
    messages: Messages,
    candidates: &[ReflogEntry],
    selected: &str,
    name: &str,
    printed: Result<Outcome, Error>,
    opened: Result<Outcome, Error>,
    restored: Result<Outcome, Error>,
)
    requires
        selectors(candidates@).contains(selected@),
        call_ensures(run_on_selection, (messages, candidates, selected, &Decision::Print), printed),
        call_ensures(run_on_selection, (messages, candidates, selected, &Decision::Menu), opened),
        call_ensures(
            run_on_selection,
            (messages, candidates, selected, &Decision::Restore(name)),
            restored,
        ),
    ensures
        printed matches Ok(Outcome::Print(line)) && opened matches Ok(
            Outcome::Menu { id, short_id, .. },
        ) && restored matches Ok(Outcome::Branch { run, .. }) && {
            &&& line@ == id@ + "\n"@
            &&& short_id@.is_prefix_of(id@)
            &&& texts(run.args@).len() == 4
            &&& texts(run.args@)[0] == "branch"@
            &&& texts(run.args@)[1] == "--"@
            &&& texts(run.args@)[2] == name@
            &&& texts(run.args@)[3] == id@
        },
{
    selectors(candidates@).index_of_first_ensures(selected@);
}

/// An entry is found again by the name that git has for it, and by no other: two entries of
/// different places never share a key, though they may be of the same commit.
pub proof fn law_a_place_is_found_again(entry: &ReflogEntry, item: FinderItem)
    requires
        call_ensures(to_item, (entry,), item),
    ensures
        item.key@ == "HEAD@{"@ + crate::text::decimal(entry.index as nat) + "}"@,
        item@.preview matches Preview::Git(args) && args.contains(entry.id@) && args.len() == 4
            && args[0] == "show"@ && args[2] == entry.id@ && args[3] == "--"@,
{
    let args = seq!["show"@, "--color=always"@, entry.id@, "--"@];
    assert(args[2] == entry.id@);
}

/// The header says what picking an entry does: it prints, opens the menu, or creates the branch of
/// that name.
pub proof fn law_the_header_says_what_happens<'a>(
    messages: Messages,
    decision: &Decision<'a>,
    outcome: String,
)
    requires
        call_ensures(Decision::header_outcome, (decision, messages), outcome),
    ensures
        decision is Print ==> outcome@ == messages.reflog().header_outcome_print_text(),
        decision is Menu ==> outcome@ == messages.reflog().header_outcome_menu_text(),
        decision matches Decision::Restore(name) ==> outcome@
            == messages.reflog().header_outcome_restore_text(name@),
{
}

/// A short hash is the beginning of the full one: seven characters, or all where there are fewer.
pub proof fn law_a_short_hash_has_seven_characters(id: &str, short: &str)
    requires
        call_ensures(short_id, (id,), short),
    ensures
        short@.is_prefix_of(id@),
        id@.len() >= 7 ==> short@.len() == 7,
        id@.len() < 7 ==> short@ == id@,
{
    if id@.len() == 7 {
        assert(short@ =~= id@);
    }
}

/// The line of an entry is as `git reflog` writes it: the short hash, the place and the message.
pub proof fn law_a_line_is_as_git_writes_it(entry: &ReflogEntry, line: String, short: &str, id: &str)
    requires
        id@ == entry.id@,
        call_ensures(display_line, (entry,), line),
        call_ensures(short_id, (id,), short),
    ensures
        line@ == short@ + " "@ + ("HEAD@{"@ + crate::text::decimal(entry.index as nat) + "}"@)
            + ": "@ + entry.message@,
{
}

/// The menu of the reflog is for getting something back: it shows, switches, applies, resets and
/// prints.
pub proof fn law_the_menu_gets_something_back(action: MenuAction)
    ensures
        MENU@.contains(action) <==> action != MenuAction::Revert && action != MenuAction::Fixup,
{
    assert(MENU@[0] == MenuAction::Show);
    assert(MENU@[1] == MenuAction::SwitchDetach);
    assert(MENU@[2] == MenuAction::CherryPick);
    assert(MENU@[3] == MenuAction::ResetHard);
    assert(MENU@[4] == MenuAction::PrintHash);
}

} // verus!
