use fuzgit::commands::commit::{
    add_args, commit_args, failure_hint, preselected, preview, preview_args, to_candidate, to_item,
    untracked_paths,
};
use fuzgit::commands::file_selection::resolve_changes;
use fuzgit::finder::PreviewSource;
use fuzgit::git::{ChangeScope, FileChange};
use fuzgit::i18n::Language;

fn change(path: &str, code: &str) -> FileChange {
    let mut codes = code.chars();
    FileChange {
        path: path.to_owned(),
        original_path: None,
        index_status: codes.next().expect("a status code has two characters"),
        worktree_status: codes.next().expect("a status code has two characters"),
    }
}

fn rename(path: &str, original: &str, code: &str) -> FileChange {
    FileChange {
        original_path: Some(original.to_owned()),
        ..change(path, code)
    }
}

fn paths(paths: &[&str]) -> Vec<String> {
    paths.iter().map(|path| (*path).to_owned()).collect()
}

#[test]
fn a_commit_without_a_message_leaves_the_editor_to_git() {
    assert_eq!(
        commit_args(None, &paths(&["a.txt"])),
        ["commit", "--", ":(top,literal)a.txt"]
    );
}

#[test]
fn a_message_is_passed_as_an_option_value() {
    assert_eq!(
        commit_args(Some("認証を修正"), &paths(&["a.txt"])),
        [
            "commit",
            "--message",
            "認証を修正",
            "--",
            ":(top,literal)a.txt"
        ]
    );
}

#[test]
fn every_selected_path_is_passed_after_the_separator() {
    let arguments = commit_args(
        Some("--not-an-option"),
        &paths(&["dir/with space.txt", "dir/a[1].txt", "--not-an-option"]),
    );

    let separator = arguments
        .iter()
        .position(|argument| argument == "--")
        .expect("the separator is always present");
    assert_eq!(
        arguments[separator + 1..],
        [
            ":(top,literal)dir/with space.txt",
            ":(top,literal)dir/a[1].txt",
            ":(top,literal)--not-an-option"
        ],
        "a path must never be interpreted as an option"
    );
}

#[test]
fn a_failed_commit_without_a_message_explains_the_editor() {
    let hint = failure_hint(Language::Japanese.messages(), None)
        .expect("the editor case needs guidance");

    assert!(
        hint.contains("gz commit -m"),
        "the message option should be offered: {hint}"
    );
    assert!(
        hint.contains("code --wait"),
        "an editor that returns immediately should be named: {hint}"
    );
}

#[test]
fn the_editor_guidance_does_not_assert_a_single_cause() {
    let hint = failure_hint(Language::Japanese.messages(), None)
        .expect("the editor case needs guidance");

    assert!(
        hint.contains("保存されなかった場合"),
        "the guidance must stay conditional: {hint}"
    );
}

#[test]
fn a_failed_commit_with_a_message_says_nothing_about_the_editor() {
    assert_eq!(
        failure_hint(Language::Japanese.messages(), Some("認証を修正")),
        None,
        "-m does not start an editor, so the editor guidance would mislead"
    );
}

#[test]
fn untracked_files_are_staged_before_the_commit() {
    assert_eq!(
        add_args(&paths(&["new.txt", "dir/a[1].txt"])),
        [
            "add",
            "--",
            ":(top,literal)new.txt",
            ":(top,literal)dir/a[1].txt"
        ]
    );
}

#[test]
fn staged_files_are_preselected() {
    let changes = [
        change("staged.txt", "M "),
        change("unstaged.txt", " M"),
        change("both.txt", "MM"),
        change("new.txt", "??"),
    ];

    assert_eq!(
        preselected(&changes),
        ["M  staged.txt", "MM both.txt"],
        "only files with staged changes start out selected"
    );
}

#[test]
fn a_preselected_entry_is_the_display_string_and_not_the_path() {
    let changes = [rename("new.txt", "old.txt", "R ")];

    assert_eq!(preselected(&changes), ["R  old.txt -> new.txt"]);
}

#[test]
fn nothing_is_preselected_without_staged_changes() {
    let changes = [change("unstaged.txt", " M"), change("new.txt", "??")];

    assert!(
        preselected(&changes).is_empty(),
        "an unstaged-only work tree starts with an empty selection"
    );
}

#[test]
fn only_the_selected_untracked_files_are_staged() {
    let changes = [
        change("tracked.txt", " M"),
        change("new.txt", "??"),
        change("other new.txt", "??"),
    ];
    let selected = resolve_changes(
        Language::Japanese.messages(),
        &changes,
        &paths(&["other new.txt", "tracked.txt"]),
    )
    .expect("all paths are listed");

    assert_eq!(
        untracked_paths(&selected),
        ["other new.txt"],
        "a tracked change needs no staging, an unselected untracked file is left alone"
    );
}

#[test]
fn a_selection_without_untracked_files_needs_no_staging() {
    let changes = [change("tracked.txt", "M "), change("new.txt", "??")];
    let selected = resolve_changes(
        Language::Japanese.messages(),
        &changes,
        &paths(&["tracked.txt"]),
    )
    .expect("all paths are listed");

    assert!(
        untracked_paths(&selected).is_empty(),
        "git add must not run when no untracked file was selected"
    );
}

#[test]
fn a_rename_is_committed_with_both_of_its_paths() {
    let candidate = to_candidate(&rename("new.txt", "old.txt", "R "));

    assert_eq!(candidate.key, "new.txt");
    assert_eq!(candidate.paths, ["new.txt", "old.txt"]);
}

#[test]
fn the_preview_shows_the_difference_against_head() {
    assert_eq!(
        preview_args(&paths(&["dir/with space.txt"])),
        [
            "diff",
            "--color=always",
            "HEAD",
            "--",
            ":(top,literal)dir/with space.txt"
        ],
        "a path commit records the work tree, so the diff is against HEAD"
    );
}

#[test]
fn the_preview_of_a_rename_covers_both_of_its_paths() {
    assert_eq!(
        preview_args(&paths(&["new.txt", "old.txt"])),
        [
            "diff",
            "--color=always",
            "HEAD",
            "--",
            ":(top,literal)new.txt",
            ":(top,literal)old.txt"
        ]
    );
}

#[test]
fn commit_a_tracked_change_is_previewed_with_git_diff() {
    let change = change("history.txt", "M ");
    let candidate = to_candidate(&change);

    let preview = preview(Some("/work/tree"), &change, &candidate)
        .expect("a tracked file needs no work tree lookup");

    assert_eq!(preview, PreviewSource::Git(preview_args(&candidate.paths)));
}

#[test]
fn commit_an_untracked_file_is_previewed_by_its_absolute_path() {
    let change = change("dir/new file.txt", "??");
    let candidate = to_candidate(&change);

    let preview = preview(Some("/work/tree"), &change, &candidate)
        .expect("the work tree path should resolve");

    match preview {
        PreviewSource::File(path) => {
            assert_eq!(path, "/work/tree/dir/new file.txt");
        }
        other => panic!("an untracked file must be previewed by content: {other:?}"),
    }
}

#[test]
fn commit_an_item_keeps_the_path_as_its_key_and_shows_the_status_code() {
    let change = change("new.txt", "??");
    let candidate = to_candidate(&change);

    let item = to_item(Some("/work/tree"), &change, &candidate)
        .expect("the item should build");

    assert_eq!(item.key(), "new.txt");
    assert_eq!(candidate.display, "?? new.txt");
}

#[test]
fn every_commit_message_is_filled_in_for_both_languages() {
    for language in [Language::Japanese, Language::English] {
        let commit = language.messages().commit();

        for text in [
            commit.header(),
            commit.editor_hint(),
            commit.untracked_stage_failed(),
        ] {
            assert!(!text.trim().is_empty(), "{language:?} left a message empty");
        }

        assert!(
            commit.header().contains("Tab") && commit.header().contains("Enter"),
            "{language:?} must name both keys: {text}",
            text = commit.header()
        );

        assert!(
            commit.editor_hint().contains("gz commit -m")
                && commit.editor_hint().contains("code --wait")
                && commit.editor_hint().contains("EDITOR / GIT_EDITOR"),
            "{language:?} must spell out the command and the variables: {text}",
            text = commit.editor_hint()
        );

        assert!(
            commit.untracked_stage_failed().contains("git add"),
            "{language:?} must name the command it ran: {text}",
            text = commit.untracked_stage_failed()
        );
    }
}

#[test]
fn the_commit_wording_is_translated() {
    let japanese = Language::Japanese.messages().commit();
    let english = Language::English.messages().commit();

    assert_ne!(japanese.header(), english.header());
    assert_ne!(japanese.editor_hint(), english.editor_hint());
    assert_ne!(
        japanese.untracked_stage_failed(),
        english.untracked_stage_failed()
    );
}

#[test]
fn the_english_editor_guidance_does_not_assert_a_single_cause_either() {
    let hint = failure_hint(Language::English.messages(), None)
        .expect("the editor case needs guidance");

    assert!(
        hint.contains("if the commit message is not saved"),
        "the guidance must stay conditional: {hint}"
    );
}

#[test]
fn staged_unstaged_and_untracked_changes_are_offered_in_one_list() {
    let changes = ChangeScope::TrackedOrUntracked
        .parse_status(b"M  staged-only.txt\0 M tracked.txt\0?? untracked.txt\0")
        .expect("status should be read");

    assert_eq!(
        changes
            .iter()
            .map(|change| change.path.as_str())
            .collect::<Vec<_>>(),
        ["staged-only.txt", "tracked.txt", "untracked.txt"]
    );
    assert_eq!(preselected(&changes), ["M  staged-only.txt"]);
}
