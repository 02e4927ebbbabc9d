use fuzgit::commands::commit_menu::MenuAction;
use fuzgit::commands::log::{display_line, preview_args, to_item, Decision, MENU};
use fuzgit::git::CommitInfo;
use fuzgit::i18n::Language;

fn commit() -> CommitInfo {
    CommitInfo {
        id: "1f0c9a4b3d2e5f60718293a4b5c6d7e8f9012345".to_owned(),
        short_id: "1f0c9a4".to_owned(),
        summary: "ブランチ切替を実装する".to_owned(),
        author: "fuzgit test".to_owned(),
        time: "2024-01-02".to_owned(),
    }
}

#[test]
fn log_a_line_shows_the_short_hash_date_summary_and_author() {
    assert_eq!(
        display_line(&commit()),
        "1f0c9a4 2024-01-02 ブランチ切替を実装する (fuzgit test)"
    );
}

#[test]
fn log_the_preview_shows_the_commit_and_ends_with_a_path_separator() {
    assert_eq!(
        preview_args(&commit()),
        [
            "show",
            "--color=always",
            "1f0c9a4b3d2e5f60718293a4b5c6d7e8f9012345",
            "--"
        ]
    );
}

#[test]
fn log_an_item_keeps_the_full_hash_as_its_key() {
    let item = to_item(&commit());

    assert_eq!(item.key(), "1f0c9a4b3d2e5f60718293a4b5c6d7e8f9012345");
}

#[test]
fn the_menu_is_opt_in() {
    assert_eq!(Decision::from_flag(false), Decision::Print);
    assert_eq!(Decision::from_flag(true), Decision::Menu);
}

#[test]
fn log_each_decision_announces_a_different_outcome() {
    for language in [Language::Japanese, Language::English] {
        let messages = language.messages();

        assert_ne!(
            Decision::Print.header_outcome(messages),
            Decision::Menu.header_outcome(messages),
            "{language:?} must tell the two apart"
        );
    }
}

#[test]
fn the_menu_never_offers_a_hard_reset() {
    assert!(!MENU.contains(&MenuAction::ResetHard));
    assert!(MENU.contains(&MenuAction::Revert));
}

#[test]
fn the_menu_can_still_print_the_hash() {
    assert!(MENU.contains(&MenuAction::PrintHash));
}

#[test]
fn a_commit_outside_the_candidates_is_reported() {
    for language in [Language::Japanese, Language::English] {
        let message = language.messages().log().selection_not_found("deadbeef");

        assert!(
            message.contains("deadbeef"),
            "{language:?} must mention the picked commit: {message}"
        );
    }
}

#[test]
fn every_log_message_is_filled_in_for_both_languages() {
    for language in [Language::Japanese, Language::English] {
        let log = language.messages().log();

        for text in [
            log.header_subject(),
            log.header_outcome_print(),
            log.header_outcome_menu(),
        ] {
            assert!(!text.trim().is_empty(), "{language:?} left a message empty");
        }
        assert!(!log.selection_not_found("deadbeef").trim().is_empty());
    }
}

#[test]
fn the_log_wording_is_translated() {
    let japanese = Language::Japanese.messages().log();
    let english = Language::English.messages().log();

    assert_ne!(japanese.header_subject(), english.header_subject());
    assert_ne!(
        japanese.header_outcome_print(),
        english.header_outcome_print()
    );
    assert_ne!(
        japanese.header_outcome_menu(),
        english.header_outcome_menu()
    );
    assert_ne!(
        japanese.selection_not_found("deadbeef"),
        english.selection_not_found("deadbeef")
    );
}
