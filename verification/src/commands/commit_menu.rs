//! What can be done with a picked commit.

use vstd::prelude::*;

use crate::commands::{
    cherry_pick, commit_preview_args, selection_header, DECIDE_KEY, HEADER_SEPARATOR,
};
use crate::error::Error;
use crate::finder::{
    headed, item_views, items_of, plain, Answer, Candidate, FinderItem, FinderOptions, Picker,
    Preview, PreviewSource, SelectionMode,
};
use crate::git::GitRun;
use crate::i18n::Messages;
use crate::text::{concat2, owned_all, same_text, texts};

verus! {

broadcast use crate::text::lemma_texts_push;

/// What an entry of the menu does.
#[derive(Debug, Clone, Copy, PartialEq, Eq, Structural)]
pub enum MenuAction {
    /// Show the commit.
    Show,
    /// Switch to it as a detached `HEAD`.
    SwitchDetach,
    /// Apply it to the current branch.
    CherryPick,
    /// Undo it.
    Revert,
    /// Amend it.
    Fixup,
    /// Move the current branch to it. What is not committed is lost.
    ResetHard,
    /// Print its full hash.
    PrintHash,
}

/// An entry of the menu.
#[derive(Debug, Clone, Copy, PartialEq, Eq)]
pub struct MenuEntry {
    /// What finds the entry again, in every language.
    pub key: &'static str,
    pub display: &'static str,
    pub action: MenuAction,
}

/// The commit that the menu is about.
#[derive(Debug, Clone, Copy, PartialEq, Eq)]
pub struct Target<'a> {
    /// The full hash, which git gets.
    pub id: &'a str,
    /// The short hash, for the header.
    pub short_id: &'a str,
    /// The line of the commit, for the confirmation.
    pub label: &'a str,
}

/// The key of an action.
pub open spec fn key_of(action: MenuAction) -> Seq<char> {
    match action {
        MenuAction::Show => "show"@,
        MenuAction::SwitchDetach => "switch"@,
        MenuAction::CherryPick => "cherry-pick"@,
        MenuAction::Revert => "revert"@,
        MenuAction::Fixup => "fixup"@,
        MenuAction::ResetHard => "reset"@,
        MenuAction::PrintHash => "print"@,
    }
}

/// The line of an action.
pub open spec fn display_of(messages: Messages, action: MenuAction) -> Seq<char> {
    match action {
        MenuAction::Show => messages.commit_menu().show_action_text(),
        MenuAction::SwitchDetach => messages.commit_menu().switch_action_text(),
        MenuAction::CherryPick => messages.commit_menu().cherry_pick_action_text(),
        MenuAction::Revert => messages.commit_menu().revert_action_text(),
        MenuAction::Fixup => messages.commit_menu().fixup_action_text(),
        MenuAction::ResetHard => messages.commit_menu().reset_action_text(),
        MenuAction::PrintHash => messages.commit_menu().print_action_text(),
    }
}

/// The key of an action, the same in every language.
pub fn key(action: MenuAction) -> (key: &'static str)
    ensures
        key@ == key_of(action),
{
    match action {
        MenuAction::Show => "show",
        MenuAction::SwitchDetach => "switch",
        MenuAction::CherryPick => "cherry-pick",
        MenuAction::Revert => "revert",
        MenuAction::Fixup => "fixup",
        MenuAction::ResetHard => "reset",
        MenuAction::PrintHash => "print",
    }
}

/// The line of an action.
pub fn display(messages: Messages, action: MenuAction) -> (line: &'static str)
    ensures
        line@ == display_of(messages, action),
{
    let menu = messages.commit_menu();
    match action {
        MenuAction::Show => menu.show_action(),
        MenuAction::SwitchDetach => menu.switch_action(),
        MenuAction::CherryPick => menu.cherry_pick_action(),
        MenuAction::Revert => menu.revert_action(),
        MenuAction::Fixup => menu.fixup_action(),
        MenuAction::ResetHard => menu.reset_action(),
        MenuAction::PrintHash => menu.print_action(),
    }
}

/// Whether entries are those of the given actions, in their order.
pub open spec fn entries_of(
    entries: Seq<MenuEntry>,
    messages: Messages,
    actions: Seq<MenuAction>,
) -> bool {
    &&& entries.len() == actions.len()
    &&& forall|i: int|
        0 <= i < entries.len() ==> {
            let entry = #[trigger] entries[i];
            &&& entry.action == actions[i]
            &&& entry.key@ == key_of(actions[i])
            &&& entry.display@ == display_of(messages, actions[i])
        }
}

/// Builds the entries of the given actions, in their order.
pub fn entries(messages: Messages, actions: &[MenuAction]) -> (entries: Vec<MenuEntry>)
    ensures
        entries_of(entries@, messages, actions@),
{
    let mut entries: Vec<MenuEntry> = Vec::new();
    let mut i: usize = 0;
    while i < actions.len()
        invariant
            i <= actions@.len(),
            entries_of(entries@, messages, actions@.take(i as int)),
        decreases actions@.len() - i,
    {
        let action: MenuAction = actions[i];
        entries.push(MenuEntry { key: key(action), display: display(messages, action), action });
        i += 1;
    }
    assert(actions@.take(i as int) =~= actions@);
    entries
}

/// An entry as the list shows it. Whatever the entry, the preview shows the commit.
pub fn to_menu_item(target: &Target<'_>, entry: &MenuEntry) -> (item: FinderItem)
    ensures
        item@ == plain(
            entry.display@,
            entry.key@,
            Preview::Git(seq!["show"@, "--color=always"@, target.id@, "--"@]),
        ),
{
    FinderItem::new(
        entry.display.to_owned(),
        entry.key.to_owned(),
        PreviewSource::Git(commit_preview_args(target.id)),
    )
}

/// Finds the action of a picked key. A key that is not in the menu is an error.
pub fn resolve_action(messages: Messages, entries: &[MenuEntry], selected: &str) -> (action: Result<
    MenuAction,
    Error,
>)
    ensures
        match action {
            Ok(action) => exists|i: int|
                0 <= i < entries@.len() && (#[trigger] entries@[i]).key@ == selected@
                    && entries@[i].action == action && forall|k: int|
                    0 <= k < i ==> (#[trigger] entries@[k]).key@ != selected@,
            Err(error) => {
                &&& forall|i: int|
                    0 <= i < entries@.len() ==> (#[trigger] entries@[i]).key@ != selected@
                &&& error.says(messages.commit_menu().menu_selection_not_found_text(selected@))
            },
        },
{
    let mut i: usize = 0;
    while i < entries.len()
        invariant
            i <= entries@.len(),
            forall|k: int| 0 <= k < i ==> (#[trigger] entries@[k]).key@ != selected@,
        decreases entries@.len() - i,
    {
        if same_text(entries[i].key, selected) {
            return Ok(entries[i].action);
        }
        i += 1;
    }
    Err(Error::Explained(messages.commit_menu().menu_selection_not_found(selected)))
}

/// What is printed for a commit: its full hash on a line of its own, and nothing else.
pub fn print_hash(id: &str) -> (line: String)
    ensures
        line@ == id@ + "\n"@,
{
    concat2(id, "\n")
}

/// The arguments that show a commit. Where the output is a terminal, git colours it by
/// itself.
pub fn show_args(id: &str) -> (args: Vec<String>)
    ensures
        texts(args@) == seq!["show"@, id@, "--"@],
{
    let args = owned_all(&["show", id, "--"]);
    assert(texts(args@) =~= seq!["show"@, id@, "--"@]);
    args
}

/// The arguments that switch to a commit.
pub fn switch_args(id: &str) -> (args: Vec<String>)
    ensures
        texts(args@) == seq!["switch"@, "--detach"@, id@],
{
    let args = owned_all(&["switch", "--detach", id]);
    assert(texts(args@) =~= seq!["switch"@, "--detach"@, id@]);
    args
}

/// The arguments that move the current branch to a commit.
pub fn reset_args(id: &str) -> (args: Vec<String>)
    ensures
        texts(args@) == seq!["reset"@, "--hard"@, id@, "--"@],
{
    let args = owned_all(&["reset", "--hard", id, "--"]);
    assert(texts(args@) =~= seq!["reset"@, "--hard"@, id@, "--"@]);
    args
}

/// What an action comes to.
#[derive(Debug, PartialEq, Eq)]
pub enum ActionPlan {
    /// Run git.
    Run(GitRun),
    /// Ask for consent about the target, and run git with it.
    Confirm { header: String, target: String, run: GitRun },
    /// Go on as `gz revert` does, with the editor.
    Revert { id: String },
    /// Go on as `gz fixup` does.
    Fixup { id: String },
    /// Print a text.
    Print(String),
}

/// Whether a plan does what an action says. Only the reset asks for consent, being the only
/// one that cannot be undone.
pub open spec fn plans(
    plan: ActionPlan,
    messages: Messages,
    action: MenuAction,
    target: Target<'_>,
) -> bool {
    let menu = messages.commit_menu();
    let id = target.id@;
    match action {
        MenuAction::Show => plan matches ActionPlan::Run(run) && run.is(
            seq!["show"@, id, "--"@],
            menu.show_failed_text(id),
        ),
        MenuAction::SwitchDetach => plan matches ActionPlan::Run(run) && run.is(
            seq!["switch"@, "--detach"@, id],
            menu.switch_failed_text(id),
        ),
        MenuAction::CherryPick => plan matches ActionPlan::Run(run) && cherry_pick::applies(
            run,
            messages,
            seq![id],
        ),
        MenuAction::Revert => plan matches ActionPlan::Revert { id: found } && found@ == id,
        MenuAction::Fixup => plan matches ActionPlan::Fixup { id: found } && found@ == id,
        MenuAction::ResetHard => plan matches ActionPlan::Confirm { header, target: shown, run }
            && header@ == menu.reset_confirmation_text() && shown@ == target.label@ && run.is(
            seq!["reset"@, "--hard"@, id, "--"@],
            menu.reset_failed_text(id),
        ),
        MenuAction::PrintHash => plan matches ActionPlan::Print(line) && line@ == id + "\n"@,
    }
}

/// Plans an action on a commit.
pub fn run_action(messages: Messages, action: MenuAction, target: &Target<'_>) -> (plan: ActionPlan)
    ensures
        plans(plan, messages, action, *target),
{
    let menu = messages.commit_menu();
    match action {
        MenuAction::Show => ActionPlan::Run(
            GitRun { args: show_args(target.id), failure: menu.show_failed(target.id) },
        ),
        MenuAction::SwitchDetach => ActionPlan::Run(
            GitRun { args: switch_args(target.id), failure: menu.switch_failed(target.id) },
        ),
        MenuAction::CherryPick => ActionPlan::Run(
            cherry_pick::run_on_commit(messages, target.id),
        ),
        MenuAction::Revert => ActionPlan::Revert { id: target.id.to_owned() },
        MenuAction::Fixup => ActionPlan::Fixup { id: target.id.to_owned() },
        MenuAction::ResetHard => ActionPlan::Confirm {
            header: menu.reset_confirmation().to_owned(),
            target: target.label.to_owned(),
            run: GitRun { args: reset_args(target.id), failure: menu.reset_failed(target.id) },
        },
        MenuAction::PrintHash => ActionPlan::Print(print_hash(target.id)),
    }
}

/// An entry of the list.
pub open spec fn candidate_of(
    messages: Messages,
    target: Target<'_>,
    action: MenuAction,
) -> Candidate {
    plain(
        display_of(messages, action),
        key_of(action),
        Preview::Git(seq!["show"@, "--color=always"@, target.id@, "--"@]),
    )
}

/// Builds the menu of a commit, with the given actions in their order.
pub fn picker(messages: Messages, target: &Target<'_>, actions: &[MenuAction]) -> (picker: Picker)
    ensures
        item_views(picker.items@) == actions@.map_values(
            |action: MenuAction| candidate_of(messages, *target, action),
        ),
        picker.options@ == headed(
            SelectionMode::Single,
            messages.commit_menu().subject_text(target.short_id@) + HEADER_SEPARATOR@ + DECIDE_KEY@
                + messages.commit_menu().outcome_text(),
        ),
{
    let ghost all = actions@.map_values(
        |action: MenuAction| candidate_of(messages, *target, action),
    );
    let built = entries(messages, actions);
    let item = |entry: &MenuEntry| -> (item: FinderItem)
        ensures
            item@ == plain(
                entry.display@,
                entry.key@,
                Preview::Git(seq!["show"@, "--color=always"@, target.id@, "--"@]),
            ),
        { to_menu_item(target, entry) };
    let items = items_of(built.as_slice(), item);
    assert(item_views(items@) =~= all);
    let subject = messages.commit_menu().subject(target.short_id);
    let header = selection_header(subject.as_str(), messages.commit_menu().outcome());
    Picker { items, options: FinderOptions::new(SelectionMode::Single).with_header(header) }
}

/// Plans what was picked in the menu. A key that is not in the menu is an error, and so
/// nothing happens that was not picked.
pub fn run_on_selection(
    messages: Messages,
    target: &Target<'_>,
    actions: &[MenuAction],
    selected: &str,
) -> (plan: Result<ActionPlan, Error>)
    ensures
        match plan {
            Ok(plan) => exists|action: MenuAction| #[trigger]
                actions@.contains(action) && key_of(action) == selected@ && plans(
                    plan,
                    messages,
                    action,
                    *target,
                ),
            Err(error) => {
                &&& forall|i: int|
                    0 <= i < actions@.len() ==> key_of(#[trigger] actions@[i]) != selected@
                &&& error.says(messages.commit_menu().menu_selection_not_found_text(selected@))
            },
        },
{
    let built = entries(messages, actions);
    match resolve_action(messages, built.as_slice(), selected) {
        Ok(action) => {
            proof {
                let i = choose|i: int|
                    0 <= i < built@.len() && (#[trigger] built@[i]).key@ == selected@
                        && built@[i].action == action && forall|k: int|
                        0 <= k < i ==> (#[trigger] built@[k]).key@ != selected@;
                assert(actions@[i] == action);
                assert(actions@.contains(action));
            }
            Ok(run_action(messages, action, target))
        },
        Err(error) => {
            proof {
                assert forall|i: int| 0 <= i < actions@.len() implies key_of(
                    #[trigger] actions@[i],
                ) != selected@ by {
                    assert(built@[i].key@ == key_of(actions@[i]));
                }
            }
            Err(error)
        },
    }
}

/// Plans what follows the menu. A menu that is left without an answer cancels, and then there
/// is nothing to run and nothing to print: that a commit was picked before asks for nothing.
pub fn run_on_answer(
    messages: Messages,
    target: &Target<'_>,
    actions: &[MenuAction],
    answer: Answer,
) -> (plan: Result<ActionPlan, Error>)
    ensures
        match answer.key_given() {
            None => plan == Err::<ActionPlan, Error>(Error::Cancelled),
            Some(selected) => match plan {
                Ok(plan) => exists|action: MenuAction| #[trigger]
                    actions@.contains(action) && key_of(action) == selected && plans(
                        plan,
                        messages,
                        action,
                        *target,
                    ),
                Err(error) => {
                    &&& forall|i: int|
                        0 <= i < actions@.len() ==> key_of(#[trigger] actions@[i]) != selected
                    &&& error.says(messages.commit_menu().menu_selection_not_found_text(selected))
                },
            },
        },
{
    match answer.key() {
        Ok(selected) => run_on_selection(messages, target, actions, selected.as_str()),
        Err(error) => Err(error),
    }
}

/// No two actions share a key, so a key names one action.
pub proof fn law_keys_name_one_action(a: MenuAction, b: MenuAction)
    requires
        key_of(a) == key_of(b),
    ensures
        a == b,
{
    lemma_key_shape(a);
    lemma_key_shape(b);
}

proof fn lemma_key_shape(action: MenuAction)
    ensures
        match action {
            MenuAction::Show => key_of(action).len() == 4,
            MenuAction::SwitchDetach => key_of(action).len() == 6 && key_of(action)[0] == 's',
            MenuAction::CherryPick => key_of(action).len() == 11,
            MenuAction::Revert => key_of(action).len() == 6 && key_of(action)[0] == 'r',
            MenuAction::Fixup => key_of(action).len() == 5 && key_of(action)[0] == 'f',
            MenuAction::ResetHard => key_of(action).len() == 5 && key_of(action)[0] == 'r',
            MenuAction::PrintHash => key_of(action).len() == 5 && key_of(action)[0] == 'p',
        },
{
    reveal_strlit("show");
    reveal_strlit("switch");
    reveal_strlit("cherry-pick");
    reveal_strlit("revert");
    reveal_strlit("fixup");
    reveal_strlit("reset");
    reveal_strlit("print");
}

/// What is picked is what happens: the key of an action names the kind of plan that follows. A
/// revert reverts, a fixup fixes up, a reset asks first and printing runs nothing; each is about
/// the full hash. Where git runs, the word that it gets first is the key, and it gets the hash.
pub proof fn law_a_key_names_what_follows(
    messages: Messages,
    action: MenuAction,
    target: &Target<'_>,
    name: &'static str,
    plan: ActionPlan,
)
    requires
        call_ensures(key, (action,), name),
        call_ensures(run_action, (messages, action, target), plan),
    ensures
        name@ == "revert"@ <==> plan is Revert,
        name@ == "fixup"@ <==> plan is Fixup,
        name@ == "reset"@ <==> plan is Confirm,
        name@ == "print"@ <==> plan is Print,
        name@ == "show"@ || name@ == "switch"@ || name@ == "cherry-pick"@ <==> plan is Run,
        match plan {
            ActionPlan::Revert { id } => id@ == target.id@,
            ActionPlan::Fixup { id } => id@ == target.id@,
            ActionPlan::Print(line) => line@ == target.id@ + "\n"@,
            ActionPlan::Run(run) => texts(run.args@)[0] == name@ && texts(run.args@).contains(
                target.id@,
            ),
            ActionPlan::Confirm { target: shown, run, .. } => {
                &&& texts(run.args@)[0] == name@
                &&& texts(run.args@).contains(target.id@)
                &&& shown@ == target.label@
            },
        },
{
    lemma_keys_apart();
    reveal_strlit("--");
    reveal_strlit("--detach");
    match plan {
        ActionPlan::Run(run) => {
            let args = texts(run.args@);
            if action == MenuAction::SwitchDetach {
                assert(args[2] == target.id@);
            } else {
                assert(args[1] == target.id@);
            }
            assert(args.contains(target.id@));
        },
        ActionPlan::Confirm { run, .. } => {
            assert(texts(run.args@)[2] == target.id@);
            assert(texts(run.args@).contains(target.id@));
        },
        _ => {},
    }
}

/// Nothing but a reset moves the current branch without a way back, and a reset never runs
/// without consent: no plan that runs at once throws work away.
pub proof fn law_work_is_thrown_away_with_consent_only(
    messages: Messages,
    action: MenuAction,
    target: &Target<'_>,
    plan: ActionPlan,
)
    requires
        target.id@ != "--hard"@,
        call_ensures(run_action, (messages, action, target), plan),
    ensures
        plan matches ActionPlan::Run(run) ==> !texts(run.args@).contains("--hard"@),
        plan matches ActionPlan::Confirm { run, .. } ==> texts(run.args@).len() == 4 && texts(
            run.args@,
        )[1] == "--hard"@ && texts(run.args@)[3] == "--"@,
        plan is Confirm <==> action == MenuAction::ResetHard,
{
    reveal_strlit("--hard");
    reveal_strlit("show");
    reveal_strlit("switch");
    reveal_strlit("--detach");
    reveal_strlit("cherry-pick");
    reveal_strlit("--");
    assert("--hard"@.len() == 6 && "--hard"@[0] == '-');
    assert("show"@.len() == 4);
    assert("switch"@[0] == 's');
    assert("--detach"@.len() == 8);
    assert("cherry-pick"@.len() == 11);
    assert("--"@.len() == 2);
}

/// Switching to a commit detaches, and does nothing else.
pub proof fn law_a_switch_detaches(messages: Messages, target: &Target<'_>, plan: ActionPlan)
    requires
        call_ensures(run_action, (messages, MenuAction::SwitchDetach, target), plan),
    ensures
        plan matches ActionPlan::Run(run) && texts(run.args@).len() == 3 && texts(run.args@)[1]
            == "--detach"@ && texts(run.args@)[2] == target.id@,
{
}

/// The picked key decides, by what it says and not by where it stands in the menu: the same key
/// leads to the same kind of plan in every menu that has it.
pub proof fn law_the_picked_key_decides(
    messages: Messages,
    target: &Target<'_>,
    actions: &[MenuAction],
    selected: &str,
    plan: Result<ActionPlan, Error>,
)
    requires
        call_ensures(run_on_selection, (messages, target, actions, selected), plan),
    ensures
        plan matches Ok(plan) ==> {
            &&& selected@ == "revert"@ <==> plan is Revert
            &&& selected@ == "fixup"@ <==> plan is Fixup
            &&& selected@ == "reset"@ <==> plan is Confirm
            &&& selected@ == "print"@ <==> plan is Print
            &&& plan matches ActionPlan::Run(run) ==> texts(run.args@)[0] == selected@
        },
        plan is Ok ==> exists|i: int|
            0 <= i < actions@.len() && key_of(#[trigger] actions@[i]) == selected@,
{
    lemma_keys_apart();
    if plan is Ok {
        let action = choose|action: MenuAction| #[trigger]
            actions@.contains(action) && key_of(action) == selected@ && plans(
                plan->Ok_0,
                messages,
                action,
                *target,
            );
        let i = choose|i: int| 0 <= i < actions@.len() && actions@[i] == action;
        assert(key_of(actions@[i]) == selected@);
    }
}

proof fn lemma_keys_apart()
    ensures
        "show"@.len() == 4,
        "switch"@.len() == 6 && "switch"@[0] == 's',
        "cherry-pick"@.len() == 11,
        "revert"@.len() == 6 && "revert"@[0] == 'r',
        "fixup"@.len() == 5 && "fixup"@[0] == 'f',
        "reset"@.len() == 5 && "reset"@[0] == 'r',
        "print"@.len() == 5 && "print"@[0] == 'p',
{
    reveal_strlit("show");
    reveal_strlit("switch");
    reveal_strlit("cherry-pick");
    reveal_strlit("revert");
    reveal_strlit("fixup");
    reveal_strlit("reset");
    reveal_strlit("print");
}

/// A menu that is left without an answer runs nothing and prints nothing, whatever it offers.
pub proof fn law_a_menu_that_is_left_does_nothing(
    messages: Messages,
    target: &Target<'_>,
    actions: &[MenuAction],
    plan: Result<ActionPlan, Error>,
)
    requires
        call_ensures(run_on_answer, (messages, target, actions, Answer::Aborted), plan),
    ensures
        plan == Err::<ActionPlan, Error>(Error::Cancelled),
{
}

/// An entry is found by the key of its action, and its preview is about the commit.
pub proof fn law_an_entry_shows_the_commit(
    messages: Messages,
    target: &Target<'_>,
    actions: &[MenuAction],
    picker: Picker,
    i: int,
)
    requires
        0 <= i < actions@.len(),
        call_ensures(self::picker, (messages, target, actions), picker),
    ensures
        picker.items@.len() == actions@.len(),
        picker.items@[i].key@ == key_of(actions@[i]),
        picker.items@[i]@.preview matches Preview::Git(args) && args[0] == "show"@ && args[2]
            == target.id@ && args.last() == "--"@,
{
    assert(item_views(picker.items@).len() == picker.items@.len());
    assert(item_views(picker.items@)[i] == picker.items@[i]@);
}

/// The line of an action says what the action does.
pub proof fn law_a_line_says_what_its_action_does(
    messages: Messages,
    action: MenuAction,
    line: &'static str,
)
    requires
        call_ensures(display, (messages, action), line),
    ensures
        action == MenuAction::Show ==> line@ == messages.commit_menu().show_action_text(),
        action == MenuAction::SwitchDetach ==> line@ == messages.commit_menu().switch_action_text(),
        action == MenuAction::CherryPick ==> line@
            == messages.commit_menu().cherry_pick_action_text(),
        action == MenuAction::Revert ==> line@ == messages.commit_menu().revert_action_text(),
        action == MenuAction::Fixup ==> line@ == messages.commit_menu().fixup_action_text(),
        action == MenuAction::ResetHard ==> line@ == messages.commit_menu().reset_action_text(),
        action == MenuAction::PrintHash ==> line@ == messages.commit_menu().print_action_text(),
{
}

} // verus!
