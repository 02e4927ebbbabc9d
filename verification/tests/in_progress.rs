use fuzgit::commands::in_progress::{
    abort_header, add_args, conflicts_picker, menu, preview_args, resolve_entry, to_candidate,
    to_conflict_item, to_item, MenuAction, MenuEntry, ABORT_KEY, CONFLICTS_KEY, CONTINUE_KEY,
    SKIP_KEY,
};
use fuzgit::commands::file_selection::FileCandidate;
use fuzgit::commands::{command_display, status_preview_args};
use fuzgit::finder::FinderItem;
use fuzgit::git::{ChangeScope, Operation};
use fuzgit::i18n::Language;

fn keys(entries: &[MenuEntry]) -> Vec<&str> {
    entries.iter().map(|entry| entry.key).collect()
}

fn japanese_menu(operation: Operation) -> Vec<MenuEntry> {
    menu(Language::Japanese.messages(), operation)
}

fn find<'a>(entries: &'a [MenuEntry], key: &str) -> &'a MenuEntry {
    resolve_entry(Language::Japanese.messages(), entries, key)
        .expect("the key should belong to the menu")
}

fn words(args: &[&str]) -> Vec<String> {
    args.iter().map(|word| (*word).to_owned()).collect()
}

#[test]
fn the_merge_menu_has_no_skip_entry() {
    assert_eq!(
        keys(&japanese_menu(Operation::Merge)),
        [CONFLICTS_KEY, CONTINUE_KEY, ABORT_KEY]
    );
}

#[test]
fn the_rebase_menu_offers_skip_before_abort() {
    assert_eq!(
        keys(&japanese_menu(Operation::Rebase)),
        [CONFLICTS_KEY, CONTINUE_KEY, SKIP_KEY, ABORT_KEY]
    );
}

#[test]
fn the_merge_menu_runs_merge_subcommands_only() {
    let entries = japanese_menu(Operation::Merge);

    assert_eq!(
        find(&entries, CONTINUE_KEY).action,
        MenuAction::Proceed(words(&["merge", "--continue"]))
    );
    assert_eq!(
        find(&entries, ABORT_KEY).action,
        MenuAction::Abort(words(&["merge", "--abort"]))
    );
    assert_eq!(
        find(&entries, CONFLICTS_KEY).action,
        MenuAction::ShowConflicts
    );
}

#[test]
fn the_rebase_menu_runs_rebase_subcommands_only() {
    let entries = japanese_menu(Operation::Rebase);

    assert_eq!(
        find(&entries, CONTINUE_KEY).action,
        MenuAction::Proceed(words(&["rebase", "--continue"]))
    );
    assert_eq!(
        find(&entries, SKIP_KEY).action,
        MenuAction::Proceed(words(&["rebase", "--skip"]))
    );
    assert_eq!(
        find(&entries, ABORT_KEY).action,
        MenuAction::Abort(words(&["rebase", "--abort"]))
    );
}

#[test]
fn every_entry_shows_the_command_it_runs() {
    assert_eq!(
        find(&japanese_menu(Operation::Merge), CONTINUE_KEY).display,
        "merge を再開する (git merge --continue)"
    );
    assert_eq!(
        find(&japanese_menu(Operation::Merge), ABORT_KEY).display,
        "merge を中止する (git merge --abort)"
    );
    assert_eq!(
        find(&japanese_menu(Operation::Rebase), CONTINUE_KEY).display,
        "rebase を再開する (git rebase --continue)"
    );
    assert_eq!(
        find(&japanese_menu(Operation::Rebase), SKIP_KEY).display,
        "現在のコミットを飛ばす (git rebase --skip)"
    );
    assert_eq!(
        find(&japanese_menu(Operation::Rebase), ABORT_KEY).display,
        "rebase を中止する (git rebase --abort)"
    );
}

#[test]
fn the_conflicts_entry_is_the_same_for_both_operations() {
    let merge_menu = japanese_menu(Operation::Merge);
    let rebase_menu = japanese_menu(Operation::Rebase);
    let merge = find(&merge_menu, CONFLICTS_KEY);
    let rebase = find(&rebase_menu, CONFLICTS_KEY);

    assert_eq!(merge.display, rebase.display);
    assert_eq!(
        merge.display,
        Language::Japanese
            .messages()
            .in_progress()
            .conflicts_action()
    );
}

#[test]
fn an_item_is_identified_by_its_key_not_by_its_display() {
    let entries = japanese_menu(Operation::Rebase);
    let items: Vec<FinderItem> = entries
        .iter()
        .map(to_item)
        .collect();

    assert_eq!(
        items.iter().map(FinderItem::key).collect::<Vec<_>>(),
        [CONFLICTS_KEY, CONTINUE_KEY, SKIP_KEY, ABORT_KEY]
    );
}

#[test]
fn the_menu_preview_shows_the_current_status_in_color() {
    assert_eq!(
        status_preview_args(),
        ["-c", "color.status=always", "status", "--short", "--branch"]
    );
}

#[test]
fn a_selected_key_resolves_to_its_entry() {
    let entries = japanese_menu(Operation::Rebase);

    let entry = resolve_entry(Language::Japanese.messages(), &entries, SKIP_KEY)
        .expect("skip belongs to the rebase menu");

    assert_eq!(entry.action, MenuAction::Proceed(words(&["rebase", "--skip"])));
}

#[test]
fn a_key_outside_of_the_menu_is_rejected() {
    let messages = Language::Japanese.messages();
    let err = resolve_entry(messages, &menu(messages, Operation::Merge), SKIP_KEY)
        .expect_err("an unknown key must be rejected");

    assert!(
        err.message(messages).contains(SKIP_KEY),
        "the unknown key should be named: {err:?}"
    );
}

#[test]
fn the_abort_confirmation_names_the_operation_and_what_is_lost() {
    let messages = Language::Japanese.messages();
    let header = abort_header(messages, Operation::Merge);

    assert!(header.contains("merge"), "unexpected header: {header}");
    assert!(header.contains("失われ"), "unexpected header: {header}");
    assert!(
        !header.contains("rebase"),
        "the other operation must not appear: {header}"
    );
    assert!(
        abort_header(messages, Operation::Rebase).contains("rebase"),
        "the rebase header should name rebase"
    );
}

#[test]
fn a_command_line_is_shown_as_typed_by_the_user() {
    assert_eq!(command_display(&words(&["merge", "--abort"])), "git merge --abort");
    assert_eq!(command_display(&words(&["rebase", "--skip"])), "git rebase --skip");
}

#[test]
fn in_progress_paths_are_placed_after_the_separator() {
    let paths = vec!["a.txt".to_owned(), "--not-an-option".to_owned()];

    assert_eq!(
        add_args(&paths),
        [
            "add",
            "--",
            ":(top,literal)a.txt",
            ":(top,literal)--not-an-option"
        ]
    );
}

#[test]
fn a_conflict_is_previewed_with_its_own_diff() {
    assert_eq!(
        preview_args("dir/with space.txt"),
        [
            "diff",
            "--color=always",
            "--",
            ":(top,literal)dir/with space.txt"
        ]
    );
}

#[test]
fn a_conflicted_file_is_shown_with_its_status_code() {
    let conflicts = ChangeScope::Unmerged
        .parse_status(b"UU shared.txt\0")
        .expect("the status should be read");
    let candidates: Vec<FileCandidate> = conflicts.iter().map(to_candidate).collect();

    assert_eq!(
        candidates
            .iter()
            .map(|candidate| candidate.display.as_str())
            .collect::<Vec<_>>(),
        ["UU shared.txt"]
    );
    assert_eq!(candidates[0].paths, ["shared.txt"]);
    assert_eq!(
        to_conflict_item(&candidates[0]).key(),
        "shared.txt",
        "the key must stay the path so that the selection resolves to it"
    );
}

#[test]
fn nothing_left_to_resolve_is_reported_without_starting_the_finder() {
    let err = conflicts_picker(Language::Japanese.messages(), &[])
        .expect_err("there is nothing to stage");

    assert!(
        err.message(Language::Japanese.messages())
            .contains("コンフリクト中のファイルはありません"),
        "unexpected error: {err:?}"
    );
}

#[test]
fn every_menu_entry_is_filled_in_for_both_languages() {
    for language in [Language::Japanese, Language::English] {
        for operation in [Operation::Merge, Operation::Rebase] {
            for entry in menu(language.messages(), operation) {
                assert!(
                    !entry.display.trim().is_empty(),
                    "{language:?} left the {key} entry empty",
                    key = entry.key
                );
            }
        }
    }
}

#[test]
fn every_entry_names_the_command_it_runs_in_every_language() {
    for language in [Language::Japanese, Language::English] {
        let entries = menu(language.messages(), Operation::Rebase);

        for (key, command) in [
            (CONTINUE_KEY, "git rebase --continue"),
            (SKIP_KEY, "git rebase --skip"),
            (ABORT_KEY, "git rebase --abort"),
        ] {
            let entry = resolve_entry(language.messages(), &entries, key)
                .expect("the key belongs to the menu");

            assert!(
                entry.display.contains(command),
                "the {language:?} entry should name {command}: {display}",
                display = entry.display
            );
        }
    }
}

#[test]
fn a_menu_entry_is_matched_by_its_key_in_every_language() {
    for language in [Language::Japanese, Language::English] {
        let messages = language.messages();
        let entries = menu(messages, Operation::Merge);
        let entry =
            resolve_entry(messages, &entries, ABORT_KEY).expect("the key belongs to the menu");

        assert_eq!(entry.action, MenuAction::Abort(words(&["merge", "--abort"])));
    }
}

#[test]
fn every_in_progress_message_is_filled_in_for_both_languages() {
    for language in [Language::Japanese, Language::English] {
        let in_progress = language.messages().in_progress();

        for text in [
            in_progress.conflicts_action(),
            in_progress.skip_action(),
            in_progress.conflicts_header(),
            in_progress.conflicts_read_failed(),
            in_progress.no_conflicts(),
            in_progress.stage_failed(),
        ] {
            assert!(!text.trim().is_empty(), "{language:?} left a message empty");
        }

        for text in [
            in_progress.continue_action("merge"),
            in_progress.abort_action("merge"),
            in_progress.abort_confirmation("merge"),
        ] {
            assert!(
                text.contains("merge"),
                "{language:?} must name the operation: {text}"
            );
            assert!(
                !text.contains("rebase"),
                "the other operation must not appear: {text}"
            );
        }

        assert!(
            in_progress
                .menu_selection_not_found("drop")
                .contains("drop"),
            "{language:?} must name the selection"
        );
    }
}

#[test]
fn the_in_progress_wording_is_translated() {
    let japanese = Language::Japanese.messages().in_progress();
    let english = Language::English.messages().in_progress();

    assert_ne!(japanese.conflicts_action(), english.conflicts_action());
    assert_ne!(
        japanese.continue_action("merge"),
        english.continue_action("merge")
    );
    assert_ne!(japanese.skip_action(), english.skip_action());
    assert_ne!(
        japanese.abort_action("rebase"),
        english.abort_action("rebase")
    );
    assert_ne!(
        japanese.menu_selection_not_found("drop"),
        english.menu_selection_not_found("drop")
    );
    assert_ne!(
        japanese.abort_confirmation("merge"),
        english.abort_confirmation("merge")
    );
    assert_ne!(japanese.conflicts_header(), english.conflicts_header());
    assert_ne!(
        japanese.conflicts_read_failed(),
        english.conflicts_read_failed()
    );
    assert_ne!(japanese.no_conflicts(), english.no_conflicts());
    assert_ne!(japanese.stage_failed(), english.stage_failed());
}
