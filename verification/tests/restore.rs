use fuzgit::commands::file_selection::FileCandidate;
use fuzgit::commands::restore::{
    confirmation_header, preview_args, restore_args, to_item, RestoreTarget,
};
use fuzgit::git::{ChangeScope, FileChange};

fn paths() -> Vec<String> {
    ["src/main.rs", "dir/with space.txt"]
        .iter()
        .map(|path| (*path).to_owned())
        .collect()
}

#[test]
fn restoring_the_work_tree_needs_neither_staged_nor_source() {
    assert_eq!(
        restore_args(RestoreTarget::Worktree, None, &paths()),
        [
            "restore",
            "--",
            ":(top,literal)src/main.rs",
            ":(top,literal)dir/with space.txt"
        ]
    );
}

#[test]
fn unstaging_adds_the_staged_flag() {
    assert_eq!(
        restore_args(RestoreTarget::Index, None, &vec!["a.txt".to_owned()]),
        ["restore", "--staged", "--", ":(top,literal)a.txt"]
    );
}

#[test]
fn a_source_revision_is_passed_as_an_option_value() {
    assert_eq!(
        restore_args(
            RestoreTarget::Worktree,
            Some("abc123"),
            &vec!["a.txt".to_owned()]
        ),
        ["restore", "--source", "abc123", "--", ":(top,literal)a.txt"]
    );
}

#[test]
fn the_staged_flag_and_the_source_revision_can_be_combined() {
    assert_eq!(
        restore_args(RestoreTarget::Index, Some("abc123"), &vec!["a.txt".to_owned()]),
        [
            "restore",
            "--staged",
            "--source",
            "abc123",
            "--",
            ":(top,literal)a.txt"
        ]
    );
}

#[test]
fn every_path_is_placed_after_the_separator() {
    let arguments = restore_args(
        RestoreTarget::Worktree,
        Some("abc123"),
        &vec!["--not-an-option".to_owned()],
    );

    let separator = arguments
        .iter()
        .position(|argument| argument == "--")
        .expect("the separator is always present");
    assert_eq!(
        arguments[separator + 1..],
        [":(top,literal)--not-an-option"],
        "a path must never be interpreted as an option"
    );
}

#[test]
fn the_work_tree_preview_diffs_the_index_against_the_work_tree() {
    assert_eq!(
        preview_args(RestoreTarget::Worktree, None, &vec!["a.txt".to_owned()]),
        ["diff", "--color=always", "--", ":(top,literal)a.txt"]
    );
}

#[test]
fn the_index_preview_diffs_head_against_the_index() {
    assert_eq!(
        preview_args(RestoreTarget::Index, None, &vec!["a.txt".to_owned()]),
        [
            "diff",
            "--color=always",
            "--staged",
            "--",
            ":(top,literal)a.txt"
        ]
    );
}

#[test]
fn the_source_preview_diffs_that_revision_against_the_restore_destination() {
    assert_eq!(
        preview_args(
            RestoreTarget::Worktree,
            Some("abc123"),
            &vec!["a.txt".to_owned()]
        ),
        [
            "diff",
            "--color=always",
            "abc123",
            "--",
            ":(top,literal)a.txt"
        ]
    );
}

#[test]
fn a_rename_preview_shows_both_of_its_paths() {
    assert_eq!(
        preview_args(
            RestoreTarget::Index,
            None,
            &vec!["new.txt".to_owned(), "old.txt".to_owned()]
        ),
        [
            "diff",
            "--color=always",
            "--staged",
            "--",
            ":(top,literal)new.txt",
            ":(top,literal)old.txt"
        ]
    );
}

#[test]
fn unstaging_a_rename_targets_the_original_path_as_well() {
    let change = FileChange {
        path: "new.txt".to_owned(),
        original_path: Some("old.txt".to_owned()),
        index_status: 'R',
        worktree_status: ' ',
    };

    let candidate = FileCandidate::from_change(&change, RestoreTarget::Index.rename_origin());

    assert_eq!(candidate.paths, ["new.txt", "old.txt"]);
}

#[test]
fn restoring_the_work_tree_of_a_rename_targets_the_new_path_only() {
    let change = FileChange {
        path: "new.txt".to_owned(),
        original_path: Some("old.txt".to_owned()),
        index_status: 'R',
        worktree_status: 'M',
    };

    let candidate =
        FileCandidate::from_change(&change, RestoreTarget::Worktree.rename_origin());

    assert_eq!(candidate.paths, ["new.txt"]);
}

#[test]
fn each_target_lists_its_own_side_of_the_changes() {
    assert_eq!(
        RestoreTarget::Worktree.change_scope(),
        ChangeScope::Worktree
    );
    assert_eq!(RestoreTarget::Index.change_scope(), ChangeScope::Staged);
}

#[test]
fn the_confirmation_states_how_many_files_lose_their_changes() {
    assert_eq!(
        confirmation_header(3, None),
        "以下 3 件のファイルの変更を破棄します（元に戻せません）:"
    );
}

#[test]
fn the_confirmation_names_the_revision_that_overwrites_the_work_tree() {
    let header = confirmation_header(1, Some("abc123"));

    assert!(
        header.contains("abc123") && header.contains("1 件"),
        "unexpected header: {header}"
    );
}

#[test]
fn an_item_keeps_the_path_as_its_key() {
    let candidate = FileCandidate::from_path("dir/with space.txt");

    let item = to_item(&candidate, RestoreTarget::Worktree, Some("abc123"));

    assert_eq!(item.key(), "dir/with space.txt");
}
