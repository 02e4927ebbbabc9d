use fuzgit::commands::file_selection::{
    display_line, resolve, resolve_changes, target_paths, FileCandidate, RenameOrigin,
};
use fuzgit::git::FileChange;
use fuzgit::i18n::{Language, Messages};

fn messages() -> Messages {
    Language::Japanese.messages()
}

fn change(path: &str, code: &str) -> FileChange {
    let mut codes = code.chars();
    FileChange {
        path: path.to_owned(),
        original_path: None,
        index_status: codes.next().expect("a status code has two characters"),
        worktree_status: codes.next().expect("a status code has two characters"),
    }
}

fn rename(path: &str, original: &str, code: &str) -> FileChange {
    FileChange {
        original_path: Some(original.to_owned()),
        ..change(path, code)
    }
}

fn candidates() -> Vec<FileCandidate> {
    ["a.txt", "b.txt", "c.txt"]
        .iter()
        .map(|path| FileCandidate::from_path(path))
        .collect()
}

fn keys(selected: &[&FileCandidate]) -> Vec<String> {
    selected
        .iter()
        .map(|candidate| candidate.key.clone())
        .collect()
}

#[test]
fn a_line_shows_the_status_code_before_the_path() {
    assert_eq!(display_line(&change("src/main.rs", "M ")), "M  src/main.rs");
    assert_eq!(display_line(&change("src/main.rs", " M")), " M src/main.rs");
    assert_eq!(
        display_line(&change("new file.txt", "??")),
        "?? new file.txt"
    );
}

#[test]
fn a_rename_line_shows_both_paths() {
    assert_eq!(
        display_line(&rename("new.txt", "old.txt", "R ")),
        "R  old.txt -> new.txt"
    );
}

#[test]
fn a_plain_change_targets_its_own_path_only() {
    for origin in [RenameOrigin::Include, RenameOrigin::Exclude] {
        let candidate = FileCandidate::from_change(&change("a.txt", " M"), origin);

        assert_eq!(candidate.key, "a.txt");
        assert_eq!(candidate.paths, ["a.txt"]);
    }
}

#[test]
fn a_rename_targets_its_original_path_as_well_when_unstaging() {
    let candidate =
        FileCandidate::from_change(&rename("new.txt", "old.txt", "R "), RenameOrigin::Include);

    assert_eq!(candidate.key, "new.txt", "the key stays the new path");
    assert_eq!(candidate.paths, ["new.txt", "old.txt"]);
}

#[test]
fn a_rename_targets_the_new_path_only_when_the_index_is_kept() {
    let candidate =
        FileCandidate::from_change(&rename("new.txt", "old.txt", "RM"), RenameOrigin::Exclude);

    assert_eq!(candidate.paths, ["new.txt"]);
}

#[test]
fn a_revision_file_is_shown_and_targeted_by_its_path() {
    let candidate = FileCandidate::from_path("dir/with space.txt");

    assert_eq!(candidate.display, "dir/with space.txt");
    assert_eq!(candidate.key, "dir/with space.txt");
    assert_eq!(candidate.paths, ["dir/with space.txt"]);
}

#[test]
fn a_selection_is_returned_in_the_order_of_the_candidates() {
    let candidates = candidates();
    let selected = vec!["c.txt".to_owned(), "a.txt".to_owned()];

    let resolved = resolve(Language::Japanese.messages(), &candidates, &selected)
        .expect("all keys are candidates");

    assert_eq!(keys(&resolved), ["a.txt", "c.txt"]);
}

#[test]
fn file_selection_unselected_candidates_are_dropped() {
    let candidates = candidates();
    let selected = vec!["b.txt".to_owned()];

    let resolved = resolve(Language::Japanese.messages(), &candidates, &selected)
        .expect("all keys are candidates");

    assert_eq!(keys(&resolved), ["b.txt"]);
}

#[test]
fn file_selection_a_key_outside_of_the_candidates_is_rejected() {
    let candidates = candidates();
    let selected = vec!["a.txt".to_owned(), "z.txt".to_owned()];

    let err = resolve(Language::Japanese.messages(), &candidates, &selected)
        .expect_err("unknown key must be rejected");

    assert!(
        err.message(messages()).contains("z.txt"),
        "the unknown file should be named: {err:?}"
    );
}

#[test]
fn changes_are_resolved_in_the_order_of_the_list() {
    let changes = [
        change("a.txt", "M "),
        change("b.txt", " M"),
        change("c.txt", "??"),
    ];
    let selected = vec!["c.txt".to_owned(), "a.txt".to_owned()];

    let resolved = resolve_changes(Language::Japanese.messages(), &changes, &selected)
        .expect("all paths are listed");

    assert_eq!(
        resolved
            .iter()
            .map(|change| change.path.as_str())
            .collect::<Vec<_>>(),
        ["a.txt", "c.txt"]
    );
}

#[test]
fn a_change_outside_of_the_list_is_rejected() {
    let changes = [change("a.txt", "M ")];
    let selected = vec!["z.txt".to_owned()];

    let err = resolve_changes(Language::Japanese.messages(), &changes, &selected)
        .expect_err("unknown path must be rejected");

    assert!(
        err.message(messages()).contains("z.txt"),
        "the unknown file should be named: {err:?}"
    );
}

#[test]
fn a_renamed_change_is_resolved_by_its_new_path() {
    let changes = [rename("new.txt", "old.txt", "R ")];
    let selected = vec!["new.txt".to_owned()];

    let resolved = resolve_changes(Language::Japanese.messages(), &changes, &selected)
        .expect("the new path is the key");

    assert_eq!(resolved[0].original_path.as_deref(), Some("old.txt"));
}

#[test]
fn target_paths_flattens_the_selection() {
    let rename =
        FileCandidate::from_change(&rename("new.txt", "old.txt", "R "), RenameOrigin::Include);
    let plain = FileCandidate::from_change(&change("a.txt", "M "), RenameOrigin::Include);

    assert_eq!(
        target_paths(&[&rename, &plain]),
        ["new.txt", "old.txt", "a.txt"]
    );
}

#[test]
fn a_path_shared_by_two_candidates_is_passed_once() {
    let rename = FileCandidate::from_change(
        &rename("new.txt", "shared.txt", "R "),
        RenameOrigin::Include,
    );
    let plain = FileCandidate::from_change(&change("shared.txt", "M "), RenameOrigin::Include);

    assert_eq!(
        target_paths(&[&rename, &plain]),
        ["new.txt", "shared.txt"],
        "a duplicated path must not be passed to git twice"
    );
}

#[test]
fn every_file_selection_message_is_filled_in_for_both_languages() {
    for language in [Language::Japanese, Language::English] {
        let missing = language
            .messages()
            .file_selection()
            .selection_not_found("a.txt, z.txt");

        assert!(!missing.trim().is_empty(), "{language:?} left it empty");
        assert!(
            missing.contains("a.txt") && missing.contains("z.txt"),
            "{language:?} must name every missing path: {missing}"
        );
    }
}

#[test]
fn the_file_selection_wording_is_translated() {
    assert_ne!(
        Language::Japanese
            .messages()
            .file_selection()
            .selection_not_found("a.txt"),
        Language::English
            .messages()
            .file_selection()
            .selection_not_found("a.txt")
    );
}
