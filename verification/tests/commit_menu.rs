use fuzgit::commands::commit_menu::{
    display, entries, key, print_hash, reset_args, resolve_action, show_args, switch_args,
    to_menu_item, MenuAction, Target,
};
use fuzgit::commands::commit_preview_args;
use fuzgit::i18n::Language;

const COMMIT_ID: &str = "1f0c9a4b3d2e5f60718293a4b5c6d7e8f9012345";

const ALL: [MenuAction; 7] = [
    MenuAction::Show,
    MenuAction::SwitchDetach,
    MenuAction::CherryPick,
    MenuAction::Revert,
    MenuAction::Fixup,
    MenuAction::ResetHard,
    MenuAction::PrintHash,
];

fn target() -> Target<'static> {
    Target {
        id: COMMIT_ID,
        short_id: "1f0c9a4",
        label: "1f0c9a4 2024-01-02 ブランチ切替を実装する (fuzgit test)",
    }
}

#[test]
fn every_action_has_a_distinct_key() {
    let mut keys: Vec<&str> = ALL.iter().map(|&action| key(action)).collect();
    let count = keys.len();
    keys.sort_unstable();
    keys.dedup();

    assert_eq!(keys.len(), count, "the keys must not collide");
}

#[test]
fn a_key_does_not_depend_on_the_display_language() {
    for action in ALL {
        assert_eq!(key(action), key(action));
    }

    for action in ALL {
        let japanese = display(Language::Japanese.messages(), action);
        let english = display(Language::English.messages(), action);

        assert_ne!(japanese, english, "{action:?} must be translated");
        assert_ne!(key(action), japanese);
        assert_ne!(key(action), english);
    }
}

#[test]
fn entries_keep_the_order_they_were_given() {
    let messages = Language::Japanese.messages();
    let actions = [MenuAction::PrintHash, MenuAction::Show, MenuAction::Revert];

    let built = entries(messages, &actions);

    assert_eq!(
        built.iter().map(|entry| entry.action).collect::<Vec<_>>(),
        actions
    );
    assert_eq!(
        built.iter().map(|entry| entry.key).collect::<Vec<_>>(),
        ["print", "show", "revert"]
    );
}

#[test]
fn a_known_key_resolves_to_its_action() {
    let messages = Language::Japanese.messages();
    let built = entries(messages, &ALL);

    for action in ALL {
        assert_eq!(
            resolve_action(messages, &built, key(action)).expect("the key belongs to the menu"),
            action
        );
    }
}

#[test]
fn an_unknown_key_stops_instead_of_being_skipped() {
    let messages = Language::Japanese.messages();
    let built = entries(messages, &ALL);

    let error = resolve_action(messages, &built, "no-such-entry")
        .expect_err("an unknown key must not resolve");

    assert!(error.message(messages).contains("no-such-entry"));
}

#[test]
fn a_menu_item_previews_the_target_commit() {
    let target = target();
    let built = entries(Language::Japanese.messages(), &[MenuAction::Show]);
    let item = to_menu_item(&target, &built[0]);

    assert_eq!(item.key(), "show");
}

#[test]
fn the_preview_and_the_executed_show_are_not_the_same_arguments() {
    assert_eq!(
        commit_preview_args(COMMIT_ID),
        ["show", "--color=always", COMMIT_ID, "--"]
    );
    assert_eq!(show_args(COMMIT_ID), ["show", COMMIT_ID, "--"]);
    assert!(
        !show_args(COMMIT_ID)
            .iter()
            .any(|argument| argument == "--color=always")
    );
}

#[test]
fn a_revision_taking_call_is_closed_with_a_path_separator() {
    for arguments in [show_args(COMMIT_ID), reset_args(COMMIT_ID)] {
        assert_eq!(
            arguments.last().map(String::as_str),
            Some("--"),
            "{arguments:?} must end with the separator"
        );
    }
}

#[test]
fn switch_keeps_the_shape_of_the_existing_tag_command() {
    assert_eq!(switch_args(COMMIT_ID), ["switch", "--detach", COMMIT_ID]);
    assert!(
        !switch_args(COMMIT_ID)
            .iter()
            .any(|argument| argument == "--")
    );
}

#[test]
fn reset_moves_the_branch_to_the_commit() {
    assert_eq!(reset_args(COMMIT_ID), ["reset", "--hard", COMMIT_ID, "--"]);
}

#[test]
fn printing_writes_the_full_hash_and_nothing_else() {
    assert_eq!(print_hash(COMMIT_ID), format!("{COMMIT_ID}\n"));
}

#[test]
fn every_commit_menu_message_is_filled_in_for_both_languages() {
    for language in [Language::Japanese, Language::English] {
        let menu = language.messages().commit_menu();

        for text in [
            menu.outcome(),
            menu.show_action(),
            menu.switch_action(),
            menu.cherry_pick_action(),
            menu.revert_action(),
            menu.fixup_action(),
            menu.reset_action(),
            menu.print_action(),
            menu.reset_confirmation(),
        ] {
            assert!(!text.trim().is_empty(), "{language:?} left a message empty");
        }

        assert!(menu.subject("1f0c9a4").contains("1f0c9a4"));
        assert!(
            menu.menu_selection_not_found("show").contains("show"),
            "{language:?} must mention the picked entry"
        );
        for text in [
            menu.show_failed(COMMIT_ID),
            menu.switch_failed(COMMIT_ID),
            menu.reset_failed(COMMIT_ID),
        ] {
            assert!(
                text.contains(COMMIT_ID),
                "{language:?} must mention the commit: {text}"
            );
        }
    }
}

#[test]
fn the_commit_menu_wording_is_translated() {
    let japanese = Language::Japanese.messages().commit_menu();
    let english = Language::English.messages().commit_menu();

    assert_ne!(japanese.subject("1f0c9a4"), english.subject("1f0c9a4"));
    assert_ne!(japanese.outcome(), english.outcome());
    assert_ne!(japanese.show_action(), english.show_action());
    assert_ne!(japanese.switch_action(), english.switch_action());
    assert_ne!(japanese.cherry_pick_action(), english.cherry_pick_action());
    assert_ne!(japanese.revert_action(), english.revert_action());
    assert_ne!(japanese.fixup_action(), english.fixup_action());
    assert_ne!(japanese.reset_action(), english.reset_action());
    assert_ne!(japanese.print_action(), english.print_action());
    assert_ne!(
        japanese.menu_selection_not_found("show"),
        english.menu_selection_not_found("show")
    );
    assert_ne!(japanese.reset_confirmation(), english.reset_confirmation());
    assert_ne!(
        japanese.show_failed(COMMIT_ID),
        english.show_failed(COMMIT_ID)
    );
    assert_ne!(
        japanese.switch_failed(COMMIT_ID),
        english.switch_failed(COMMIT_ID)
    );
    assert_ne!(
        japanese.reset_failed(COMMIT_ID),
        english.reset_failed(COMMIT_ID)
    );
}
