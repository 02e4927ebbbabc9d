use fuzgit::commands::add::{add_args, preview, preview_args, to_candidate, to_item};
use fuzgit::finder::PreviewSource;
use fuzgit::git::{ChangeScope, FileChange};

fn change(path: &str, code: &str) -> FileChange {
    let mut codes = code.chars();
    FileChange {
        path: path.to_owned(),
        original_path: None,
        index_status: codes.next().expect("a status code has two characters"),
        worktree_status: codes.next().expect("a status code has two characters"),
    }
}

fn rename(path: &str, original: &str, code: &str) -> FileChange {
    FileChange {
        original_path: Some(original.to_owned()),
        ..change(path, code)
    }
}

#[test]
fn add_paths_are_placed_after_the_separator() {
    let paths = vec!["a.txt".to_owned(), "--not-an-option".to_owned()];

    assert_eq!(
        add_args(&paths),
        [
            "add",
            "--",
            ":(top,literal)a.txt",
            ":(top,literal)--not-an-option"
        ]
    );
}

#[test]
fn a_single_path_produces_three_arguments() {
    assert_eq!(
        add_args(&vec!["dir/with space.txt".to_owned()]),
        ["add", "--", ":(top,literal)dir/with space.txt"]
    );
}

#[test]
fn a_rename_is_staged_by_its_new_path_only() {
    let candidate = to_candidate(&rename("new.txt", "old.txt", "RM"));

    assert_eq!(candidate.key, "new.txt");
    assert_eq!(candidate.paths, ["new.txt"]);
}

#[test]
fn the_preview_of_a_tracked_file_is_its_unstaged_diff() {
    assert_eq!(
        preview_args("dir/with space.txt"),
        [
            "diff",
            "--color=always",
            "--",
            ":(top,literal)dir/with space.txt"
        ]
    );
}

#[test]
fn add_a_tracked_change_is_previewed_with_git_diff() {
    let preview = preview(Some("/work/tree"), &change("history.txt", " M"))
        .expect("a tracked file needs no work tree lookup");

    assert_eq!(
        preview,
        PreviewSource::Git(preview_args("history.txt")),
        "tracked files must be previewed as a diff"
    );
}

#[test]
fn add_an_untracked_file_is_previewed_by_its_absolute_path() {
    let preview = preview(Some("/work/tree"), &change("dir/new file.txt", "??"))
        .expect("the work tree path should resolve");

    match preview {
        PreviewSource::File(path) => {
            assert!(path.starts_with('/'), "unexpected path: {path:?}");
            assert_eq!(path, "/work/tree/dir/new file.txt");
        }
        other => panic!("an untracked file must be previewed by content: {other:?}"),
    }
}

#[test]
fn add_an_item_keeps_the_path_as_its_key_and_shows_the_status_code() {
    let change = change("new.txt", "??");
    let candidate = to_candidate(&change);

    let item = to_item(Some("/work/tree"), &change, &candidate)
        .expect("the item should build");

    assert_eq!(item.key(), "new.txt");
    assert_eq!(candidate.display, "?? new.txt");
}

#[test]
fn the_candidates_cover_unstaged_and_untracked_files_only() {
    let changes = ChangeScope::Stageable
        .parse_status(b"A  staged.txt\0 M tracked.txt\0?? untracked.txt\0")
        .expect("status should be read");

    assert_eq!(
        changes
            .iter()
            .map(|change| change.path.as_str())
            .collect::<Vec<_>>(),
        ["tracked.txt", "untracked.txt"],
        "an already staged file has nothing left to stage"
    );
}
