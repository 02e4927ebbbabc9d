use fuzgit::commands::commit_menu::{MenuAction, Target};
use fuzgit::commands::reflog::{
    branch_args, display_line, preview_args, short_id, to_item, Decision, MENU,
};
use fuzgit::git::ReflogEntry;
use fuzgit::i18n::Language;

const COMMIT_ID: &str = "1f0c9a4b3d2e5f60718293a4b5c6d7e8f9012345";

fn entry(index: usize, message: &str) -> ReflogEntry {
    ReflogEntry {
        index,
        id: COMMIT_ID.to_owned(),
        message: message.to_owned(),
    }
}

#[test]
fn a_line_shows_the_short_hash_selector_and_message() {
    assert_eq!(
        display_line(&entry(3, "checkout: moving from main to feature")),
        "1f0c9a4 HEAD@{3}: checkout: moving from main to feature"
    );
}

#[test]
fn a_short_hash_keeps_the_leading_characters_of_the_full_hash() {
    assert_eq!(short_id(COMMIT_ID), "1f0c9a4");
    assert!(COMMIT_ID.starts_with(short_id(COMMIT_ID)));
}

#[test]
fn a_hash_shorter_than_the_display_width_is_shown_as_is() {
    assert_eq!(short_id("1f0c9"), "1f0c9");
    assert_eq!(short_id(""), "");
}

#[test]
fn reflog_the_preview_shows_the_commit_and_ends_with_a_path_separator() {
    assert_eq!(
        preview_args(&entry(0, "commit: first")),
        ["show", "--color=always", COMMIT_ID, "--"]
    );
}

#[test]
fn a_branch_name_is_placed_after_the_separator() {
    assert_eq!(
        branch_args("--not-an-option", COMMIT_ID),
        ["branch", "--", "--not-an-option", COMMIT_ID]
    );
}

#[test]
fn a_branch_is_created_at_the_selected_commit() {
    assert_eq!(
        branch_args("recovered", COMMIT_ID),
        ["branch", "--", "recovered", COMMIT_ID]
    );
}

#[test]
fn an_item_keeps_the_selector_as_its_key() {
    assert_eq!(
        to_item(&entry(12, "commit: first")).key(),
        "HEAD@{12}"
    );
}

#[test]
fn the_header_names_the_branch_that_restore_would_create() {
    for language in [Language::Japanese, Language::English] {
        let messages = language.messages();
        let restore = Decision::Restore("recovered").header_outcome(messages);

        assert!(
            restore.contains("recovered"),
            "{language:?} must name the branch: {restore}"
        );
        assert_ne!(
            restore,
            Decision::Print.header_outcome(messages),
            "{language:?} must tell the two apart"
        );
    }
}

#[test]
fn reflog_each_decision_announces_a_different_outcome() {
    for language in [Language::Japanese, Language::English] {
        let messages = language.messages();
        let outcomes = [
            Decision::Print.header_outcome(messages),
            Decision::Restore("recovered").header_outcome(messages),
            Decision::Menu.header_outcome(messages),
        ];

        let mut unique: Vec<&str> = outcomes.iter().map(String::as_str).collect();
        let count = unique.len();
        unique.sort_unstable();
        unique.dedup();

        assert_eq!(
            unique.len(),
            count,
            "{language:?}: {outcomes:?} must differ"
        );
    }
}

#[test]
fn restore_and_action_cannot_be_combined() {
    for language in [Language::Japanese, Language::English] {
        let messages = language.messages();

        let error = Decision::from_flags(messages, Some("recovered"), true)
            .expect_err("the two flags must not be combined");
        assert!(!error.message(messages).trim().is_empty());

        assert_eq!(
            Decision::from_flags(messages, Some("recovered"), false)
                .expect("restore alone is valid"),
            Decision::Restore("recovered")
        );
        assert_eq!(
            Decision::from_flags(messages, None, true).expect("action alone is valid"),
            Decision::Menu
        );
        assert_eq!(
            Decision::from_flags(messages, None, false).expect("no flag is valid"),
            Decision::Print
        );
    }
}

#[test]
fn the_menu_never_offers_revert_or_fixup() {
    assert!(!MENU.contains(&MenuAction::Revert));
    assert!(!MENU.contains(&MenuAction::Fixup));
    assert!(MENU.contains(&MenuAction::ResetHard));
}

#[test]
fn the_menu_receives_the_full_hash_and_never_the_selector() {
    let entry = entry(12, "commit: first");
    let target = Target {
        id: &entry.id,
        short_id: short_id(&entry.id),
        label: &display_line(&entry),
    };

    assert_eq!(target.id, COMMIT_ID);
    assert!(!target.id.contains("HEAD@"));
    assert_eq!(target.short_id, "1f0c9a4");
}

#[test]
fn every_reflog_message_is_filled_in_for_both_languages() {
    for language in [Language::Japanese, Language::English] {
        let reflog = language.messages().reflog();

        for text in [
            reflog.header_subject(),
            reflog.header_outcome_print(),
            reflog.header_outcome_menu(),
            reflog.conflicting_actions(),
            reflog.read_failed(),
        ] {
            assert!(!text.trim().is_empty(), "{language:?} left a message empty");
        }
        assert!(
            reflog
                .header_outcome_restore("recovered")
                .contains("recovered"),
            "{language:?} must name the branch that would be created"
        );
        assert!(
            reflog.selection_not_found("HEAD@{3}").contains("HEAD@{3}"),
            "{language:?} must mention the selected entry"
        );
        assert!(
            reflog
                .branch_creation_failed("recovered")
                .contains("recovered"),
            "{language:?} must mention the branch"
        );

        let created = reflog.branch_created("recovered", COMMIT_ID);
        assert!(
            created.contains("recovered") && created.contains(COMMIT_ID),
            "{language:?} must mention the branch and the commit: {created}"
        );
    }
}

#[test]
fn the_reflog_wording_is_translated() {
    let japanese = Language::Japanese.messages().reflog();
    let english = Language::English.messages().reflog();

    assert_ne!(japanese.header_subject(), english.header_subject());
    assert_ne!(
        japanese.header_outcome_print(),
        english.header_outcome_print()
    );
    assert_ne!(
        japanese.header_outcome_menu(),
        english.header_outcome_menu()
    );
    assert_ne!(
        japanese.conflicting_actions(),
        english.conflicting_actions()
    );
    assert_ne!(
        japanese.header_outcome_restore("recovered"),
        english.header_outcome_restore("recovered")
    );
    assert_ne!(japanese.read_failed(), english.read_failed());
    assert_ne!(
        japanese.selection_not_found("HEAD@{0}"),
        english.selection_not_found("HEAD@{0}")
    );
    assert_ne!(
        japanese.branch_creation_failed("recovered"),
        english.branch_creation_failed("recovered")
    );
    assert_ne!(
        japanese.branch_created("recovered", COMMIT_ID),
        english.branch_created("recovered", COMMIT_ID)
    );
}
