//! `gz log`: pick a commit of the history.

use vstd::prelude::*;

use crate::commands::cherry_pick::candidate_of;
use crate::commands::commit_menu::{print_hash, MenuAction};
use crate::commands::{
    commit_highlights, commit_line, commit_preview_args, commit_text, selection_header, DECIDE_KEY,
    HEADER_SEPARATOR,
};
use crate::error::Error;
use crate::finder::{
    headed, item_views, FinderItem, FinderOptions, Picker, PreviewSource, SelectionMode,
};
use crate::git::CommitInfo;
use crate::i18n::Messages;
use crate::selection::{find_by_key, keys_of};
use crate::text::texts;

verus! {

broadcast use crate::text::lemma_texts_push;

/// What the menu of a commit of the history offers. A hard reset is not among it: it would
/// throw away one's own commits, where a revert undoes them.
pub const MENU: [MenuAction; 6] = [
    MenuAction::Show,
    MenuAction::SwitchDetach,
    MenuAction::CherryPick,
    MenuAction::Revert,
    MenuAction::Fixup,
    MenuAction::PrintHash,
];

/// What happens with the picked commit.
#[derive(Debug, Clone, Copy, PartialEq, Eq, Structural)]
pub enum Decision {
    /// Its full hash is printed.
    Print,
    /// Its menu opens.
    Menu,
}

impl Decision {
    pub fn from_flag(action: bool) -> (decision: Self)
        ensures
            decision == (if action {
                Decision::Menu
            } else {
                Decision::Print
            }),
    {
        if action {
            Decision::Menu
        } else {
            Decision::Print
        }
    }

    /// What the header says will happen.
    pub open spec fn outcome_of(self, messages: Messages) -> Seq<char> {
        match self {
            Decision::Print => messages.log().header_outcome_print_text(),
            Decision::Menu => messages.log().header_outcome_menu_text(),
        }
    }

    pub fn header_outcome(self, messages: Messages) -> (outcome: &'static str)
        ensures
            outcome@ == self.outcome_of(messages),
    {
        match self {
            Decision::Print => messages.log().header_outcome_print(),
            Decision::Menu => messages.log().header_outcome_menu(),
        }
    }
}

/// Builds the candidate list.
pub fn picker(messages: Messages, candidates: &[CommitInfo], decision: Decision) -> (picker: Picker)
    ensures
        item_views(picker.items@) == candidates@.map_values(
            |commit: CommitInfo| candidate_of(commit),
        ),
        picker.options@ == headed(
            SelectionMode::Single,
            messages.log().header_subject_text() + HEADER_SEPARATOR@ + DECIDE_KEY@
                + decision.outcome_of(messages),
        ),
{
    let list = crate::commands::cherry_pick::picker(candidates);
    let header = selection_header(
        messages.log().header_subject(),
        decision.header_outcome(messages),
    );
    Picker {
        items: list.items,
        options: FinderOptions::new(SelectionMode::Single).with_header(header),
    }
}

/// What a picked commit comes to.
#[derive(Debug, PartialEq, Eq)]
pub enum Outcome {
    /// A text is printed.
    Print(String),
    /// The menu of a commit opens.
    Menu { id: String, short_id: String, label: String },
}

/// Decides about the picked commit. A hash that was not offered is an error.
pub fn run_on_selection(
    messages: Messages,
    candidates: &[CommitInfo],
    selected: &str,
    decision: Decision,
) -> (outcome: Result<Outcome, Error>)
    ensures
        match keys_of(candidates@).index_of_first(selected@) {
            None => outcome matches Err(error) && error.says(
                messages.log().selection_not_found_text(selected@),
            ),
            Some(i) => {
                let commit = candidates@[i];
                match decision {
                    Decision::Print => outcome matches Ok(Outcome::Print(line)) && line@
                        == commit.id@ + "\n"@,
                    Decision::Menu => outcome matches Ok(Outcome::Menu { id, short_id, label })
                        && id@ == commit.id@ && short_id@ == commit.short_id@ && label@
                        == commit_text(
                        commit.short_id@,
                        commit.time@,
                        commit.summary@,
                        commit.author@,
                    ),
                }
            },
        },
{
    proof {
        keys_of(candidates@).index_of_first_ensures(selected@);
    }
    match find_by_key(candidates, selected) {
        None => Err(Error::Explained(messages.log().selection_not_found(selected))),
        Some(commit) => match decision {
            Decision::Print => Ok(Outcome::Print(print_hash(commit.id.as_str()))),
            Decision::Menu => Ok(
                Outcome::Menu {
                    id: commit.id.clone(),
                    short_id: commit.short_id.clone(),
                    label: display_line(commit),
                },
            ),
        },
    }
}

/// Writes the line of a commit.
pub fn display_line(commit: &CommitInfo) -> (line: String)
    ensures
        line@ == commit_text(commit.short_id@, commit.time@, commit.summary@, commit.author@),
{
    commit_line(commit)
}

/// The arguments that show a commit in its preview.
pub fn preview_args(commit: &CommitInfo) -> (args: Vec<String>)
    ensures
        texts(args@) == seq!["show"@, "--color=always"@, commit.id@, "--"@],
{
    commit_preview_args(commit.id.as_str())
}

/// A commit as the list shows it.
pub fn to_item(commit: &CommitInfo) -> (item: FinderItem)
    ensures
        item@ == candidate_of(*commit),
{
    FinderItem::new(
        display_line(commit),
        commit.id.clone(),
        PreviewSource::Git(preview_args(commit)),
    ).with_highlights(commit_highlights(commit))
}

/// The menu offers no hard reset, and still prints the hash.
pub proof fn law_menu_of_the_history()
    ensures
        !MENU@.contains(MenuAction::ResetHard),
        MENU@.contains(MenuAction::Revert),
        MENU@.contains(MenuAction::PrintHash),
{
    assert(MENU@[3] == MenuAction::Revert);
    assert(MENU@[5] == MenuAction::PrintHash);
}

/// The hash that leaves the list is the full one, with the end of a line behind it, and the menu
/// of the same commit is about that hash.
pub proof fn law_the_full_hash_is_printed(
    messages: Messages,
    candidates: &[CommitInfo],
    selected: &str,
    printed: Result<Outcome, Error>,
    opened: Result<Outcome, Error>,
)
    requires
        keys_of(candidates@).contains(selected@),
        call_ensures(run_on_selection, (messages, candidates, selected, Decision::Print), printed),
        call_ensures(run_on_selection, (messages, candidates, selected, Decision::Menu), opened),
    ensures
        printed matches Ok(Outcome::Print(line)) && opened matches Ok(
            Outcome::Menu { id, short_id, label },
        ) && {
            &&& line@ == selected@ + "\n"@
            &&& id@ == selected@
            &&& short_id@.is_prefix_of(label@)
        },
{
    keys_of(candidates@).index_of_first_ensures(selected@);
    let i = keys_of(candidates@).index_of_first(selected@).unwrap();
    assert(keys_of(candidates@)[i] == candidates@[i].id@);
}

/// A key that was not offered prints nothing and opens nothing.
pub proof fn law_an_unknown_key_does_nothing(
    messages: Messages,
    candidates: &[CommitInfo],
    selected: &str,
    decision: Decision,
    outcome: Result<Outcome, Error>,
)
    requires
        !keys_of(candidates@).contains(selected@),
        call_ensures(run_on_selection, (messages, candidates, selected, decision), outcome),
    ensures
        outcome is Err,
{
    keys_of(candidates@).index_of_first_ensures(selected@);
}

/// A commit is found by its full hash, and its preview shows that commit.
pub proof fn law_a_preview_shows_its_own_commit(commit: &CommitInfo, item: FinderItem)
    requires
        call_ensures(to_item, (commit,), item),
    ensures
        item.key@ == commit.id@,
        item@.preview matches crate::finder::Preview::Git(args) && args[0] == "show"@ && args[2]
            == commit.id@ && args.last() == "--"@,
{
    assert(item@.key == item.key@);
}

/// The header says what picking a commit does: it prints, or it opens the menu.
pub proof fn law_the_header_says_what_happens(
    messages: Messages,
    decision: Decision,
    outcome: &'static str,
)
    requires
        call_ensures(Decision::header_outcome, (decision, messages), outcome),
    ensures
        decision == Decision::Print ==> outcome@ == messages.log().header_outcome_print_text(),
        decision == Decision::Menu ==> outcome@ == messages.log().header_outcome_menu_text(),
{
}

/// The menu of the history does everything but throw commits away.
pub proof fn law_the_menu_throws_nothing_away(action: MenuAction)
    ensures
        MENU@.contains(action) <==> action != MenuAction::ResetHard,
{
    assert(MENU@[0] == MenuAction::Show);
    assert(MENU@[1] == MenuAction::SwitchDetach);
    assert(MENU@[2] == MenuAction::CherryPick);
    assert(MENU@[3] == MenuAction::Revert);
    assert(MENU@[4] == MenuAction::Fixup);
    assert(MENU@[5] == MenuAction::PrintHash);
}

} // verus!
