use fuzgit::commands::command_display;
use fuzgit::commands::rebase::{
    confirmation_header, picker, preview_args, rebase_args, replay_range, to_item,
    PREVIEW_COMMIT_COUNT,
};
use fuzgit::git::{other_branches, BranchInfo};
use fuzgit::i18n::Language;

fn local(name: &str) -> BranchInfo {
    BranchInfo {
        name: name.to_owned(),
        is_current: false,
        is_remote: false,
    }
}

#[test]
fn rebasing_passes_the_base_as_it_was_listed() {
    assert_eq!(rebase_args("main"), ["rebase", "main"]);
}

#[test]
fn rebase_a_branch_containing_a_slash_keeps_its_full_name() {
    assert_eq!(
        rebase_args("origin/feature/login"),
        ["rebase", "origin/feature/login"]
    );
}

#[test]
fn the_preview_lists_the_commits_that_would_be_replayed() {
    assert_eq!(
        preview_args(&local("main")),
        [
            "log",
            "--color=always",
            "--oneline",
            "--decorate",
            "-n",
            PREVIEW_COMMIT_COUNT,
            "main..HEAD",
            "--"
        ],
        "the range ends at the current position"
    );
}

#[test]
fn the_replay_range_is_the_opposite_of_the_merge_one() {
    assert_eq!(replay_range("origin/main"), "origin/main..HEAD");
}

#[test]
fn rebase_an_item_keeps_the_branch_name_as_its_key() {
    assert_eq!(to_item(&local("origin/main")).key(), "origin/main");
}

#[test]
fn the_confirmation_names_the_base_and_the_number_of_commits() {
    let header = confirmation_header("main", 2);

    assert!(header.contains("`main`"), "unexpected header: {header}");
    assert!(header.contains("2 件"), "unexpected header: {header}");
}

#[test]
fn the_confirmation_warns_that_the_history_is_rewritten() {
    let header = confirmation_header("main", 0);

    assert!(
        header.contains("コミットハッシュが変わります"),
        "a history rewrite must be spelled out: {header}"
    );
}

#[test]
fn rebase_the_confirmation_shows_the_command_that_runs() {
    assert_eq!(command_display(&vec!["rebase".to_owned(), "main".to_owned()]), "git rebase main");
}

#[test]
fn a_repository_with_no_other_branch_offers_no_base() {
    let current = BranchInfo {
        is_current: true,
        ..local("main")
    };

    let err = picker(&other_branches(vec![current])).expect_err("the only branch is the current one");

    assert!(
        err.message(Language::Japanese.messages())
            .contains("rebase の base になるブランチがありません"),
        "unexpected error: {err:?}"
    );
}
