use fuzgit::commands::diff::{
    branch_item, branch_preview_args, commit_display_line, commit_item, commit_preview_args,
    diff_args, file_preview_args, no_diff_message, report_no_diff, to_item, DiffMode, DiffRange,
    COLOR_OPTION, HEAD_REVISION, PREVIEW_COMMIT_COUNT, STAGED_OPTION,
};
use fuzgit::commands::file_selection::FileCandidate;
use fuzgit::git::{BranchInfo, CommitInfo};
use fuzgit::i18n::{Language, Messages};

fn messages() -> Messages {
    Language::Japanese.messages()
}

fn branch(name: &str) -> BranchInfo {
    BranchInfo {
        name: name.to_owned(),
        is_current: false,
        is_remote: false,
    }
}

fn commit() -> CommitInfo {
    CommitInfo {
        id: "1f0c9a4b3d2e5f60718293a4b5c6d7e8f9012345".to_owned(),
        short_id: "1f0c9a4".to_owned(),
        summary: "ブランチ切替を実装する".to_owned(),
        author: "fuzgit test".to_owned(),
        time: "2024-01-02".to_owned(),
    }
}

fn paths(paths: &[&str]) -> Vec<String> {
    paths.iter().map(|path| (*path).to_owned()).collect()
}

#[test]
fn no_flag_compares_the_index_with_the_work_tree_like_plain_git_diff() {
    assert_eq!(
        DiffMode::from_flags(messages(), false, false, false, false, false)
            .expect("no flag is a valid combination"),
        DiffMode::Unstaged
    );
}

#[test]
fn each_flag_selects_its_own_mode() {
    let combinations = [
        ((true, false, false, false, false), DiffMode::Staged),
        ((false, true, false, false, false), DiffMode::Head),
        ((false, false, true, false, false), DiffMode::Upstream),
        ((false, false, false, true, false), DiffMode::BranchToBranch),
        ((false, false, false, false, true), DiffMode::CommitToCommit),
    ];

    for ((staged, head, upstream, branch, commit), expected) in combinations {
        let mode = DiffMode::from_flags(messages(), staged, head, upstream, branch, commit)
            .unwrap_or_else(|err| panic!("a single flag should be accepted: {err:?}"));

        assert_eq!(mode, expected);
    }
}

#[test]
fn two_flags_are_rejected_instead_of_falling_back_to_one_of_them() {
    let combinations = [
        (true, true, false, false, false),
        (true, false, false, false, true),
        (false, true, true, false, false),
        (false, false, false, true, true),
        (true, true, true, true, true),
    ];

    for (staged, head, upstream, branch, commit) in combinations {
        let err = DiffMode::from_flags(messages(), staged, head, upstream, branch, commit)
            .expect_err("combined flags must be rejected");

        assert!(
            err.message(messages()).contains("同時に指定できません"),
            "the conflict should be explained: {err:?}"
        );
    }
}

#[test]
fn the_unstaged_range_adds_no_argument_of_its_own() {
    assert!(
        DiffRange::unstaged(messages()).arguments.is_empty(),
        "plain `git diff` already compares the index with the work tree"
    );
}

#[test]
fn the_staged_range_uses_the_git_option_of_the_same_name() {
    assert_eq!(DiffRange::staged(messages()).arguments, [STAGED_OPTION]);
}

#[test]
fn the_head_range_names_the_revision_to_compare_against() {
    assert_eq!(DiffRange::head(messages()).arguments, [HEAD_REVISION]);
}

#[test]
fn two_revisions_are_passed_as_two_arguments_instead_of_a_range_expression() {
    let range = DiffRange::revisions("main", "origin/main");

    assert_eq!(range.arguments, ["main", "origin/main"]);
    assert!(
        !range
            .arguments
            .iter()
            .any(|argument| argument.contains("..")),
        "`<a>..<b>` has its own meaning and must not be used here: {range:?}"
    );
}

#[test]
fn commits_are_compared_by_their_full_hash_but_shown_by_the_short_one() {
    let commit = commit();
    let range = DiffRange::labelled_revisions(
        &commit.id,
        &commit.short_id,
        HEAD_REVISION,
        HEAD_REVISION,
    );

    assert_eq!(
        range.arguments,
        ["1f0c9a4b3d2e5f60718293a4b5c6d7e8f9012345", "HEAD"],
        "git must receive the unambiguous full hash"
    );
    assert_eq!(
        range.description, "1f0c9a4 → HEAD",
        "the header is truncated to the width of the candidate list"
    );
}

#[test]
fn the_upstream_range_compares_head_with_the_local_tracking_reference() {
    let range = DiffRange::revisions(HEAD_REVISION, "refs/remotes/origin/main");

    assert_eq!(range.arguments, ["HEAD", "refs/remotes/origin/main"]);
}

#[test]
fn the_paths_are_placed_after_the_separator_as_pathspecs() {
    let arguments = diff_args(
        &DiffRange::unstaged(messages()),
        &paths(&["src/main.rs", "a b.txt"]),
    );

    assert_eq!(
        arguments,
        [
            "diff",
            "--",
            ":(top,literal)src/main.rs",
            ":(top,literal)a b.txt"
        ]
    );
}

#[test]
fn the_range_is_kept_between_the_subcommand_and_the_separator() {
    assert_eq!(
        diff_args(&DiffRange::staged(messages()), &paths(&["a.txt"])),
        ["diff", STAGED_OPTION, "--", ":(top,literal)a.txt"]
    );
    assert_eq!(
        diff_args(&DiffRange::head(messages()), &paths(&["a.txt"])),
        ["diff", "HEAD", "--", ":(top,literal)a.txt"]
    );
    assert_eq!(
        diff_args(
            &DiffRange::revisions("main", "origin/main"),
            &paths(&["a.txt"])
        ),
        ["diff", "main", "origin/main", "--", ":(top,literal)a.txt"]
    );
}

#[test]
fn a_path_starting_with_a_dash_is_never_taken_for_an_option() {
    let arguments = diff_args(&DiffRange::unstaged(messages()), &paths(&["-weird.txt"]));

    let separator = arguments
        .iter()
        .position(|argument| argument == "--")
        .expect("the separator should be present");
    assert!(
        arguments[separator + 1..]
            .iter()
            .all(|argument| argument.starts_with(":(top,literal)")),
        "every path must be a pathspec behind the separator: {arguments:?}"
    );
}

#[test]
fn a_preview_is_limited_to_the_selected_file_and_keeps_the_range() {
    let range = DiffRange::revisions("main", "feature");

    assert_eq!(
        file_preview_args(&range, "src/main.rs"),
        [
            "diff",
            COLOR_OPTION,
            "main",
            "feature",
            "--",
            ":(top,literal)src/main.rs"
        ]
    );
}

#[test]
fn a_preview_of_the_unstaged_range_carries_the_colour_option_alone() {
    assert_eq!(
        file_preview_args(&DiffRange::unstaged(messages()), "a.txt"),
        ["diff", COLOR_OPTION, "--", ":(top,literal)a.txt"]
    );
}

#[test]
fn a_file_item_is_keyed_by_its_path_and_previews_that_path_only() {
    let range = DiffRange::head(messages());
    let candidate = FileCandidate::from_path("dir/with space.txt");

    let item = to_item(&range, &candidate);

    assert_eq!(item.key(), "dir/with space.txt");
}

#[test]
fn a_branch_item_keeps_the_branch_name_as_its_key() {
    let item = branch_item(&branch("origin/main"));

    assert_eq!(item.key(), "origin/main");
    assert_eq!(
        branch_preview_args(&branch("origin/main")),
        [
            "log",
            COLOR_OPTION,
            "--oneline",
            "--decorate",
            "-n",
            PREVIEW_COMMIT_COUNT,
            "origin/main",
            "--"
        ]
    );
}

#[test]
fn a_commit_item_keeps_the_full_hash_as_its_key_and_shows_the_same_line_as_the_log() {
    let item = commit_item(&commit());

    assert_eq!(item.key(), "1f0c9a4b3d2e5f60718293a4b5c6d7e8f9012345");
    assert_eq!(
        commit_display_line(&commit()),
        "1f0c9a4 2024-01-02 ブランチ切替を実装する (fuzgit test)"
    );
    assert_eq!(
        commit_preview_args(&commit()),
        [
            "show",
            COLOR_OPTION,
            "1f0c9a4b3d2e5f60718293a4b5c6d7e8f9012345",
            "--"
        ]
    );
}

#[test]
fn the_message_of_an_empty_diff_names_the_range_that_was_compared() {
    assert_eq!(
        no_diff_message(messages(), &DiffRange::unstaged(messages())),
        "差分はありません（未ステージの変更: index と作業ツリー）"
    );
    assert_eq!(
        no_diff_message(messages(), &DiffRange::revisions("main", "origin/main")),
        "差分はありません（main → origin/main）"
    );
}

#[test]
fn every_diff_message_is_filled_in_for_both_languages() {
    for language in [Language::Japanese, Language::English] {
        let diff = language.messages().diff();

        for text in [
            diff.conflicting_modes(),
            diff.unstaged_range(),
            diff.staged_range(),
            diff.head_range(),
            diff.base_branch_header(),
            diff.target_branch_header(),
            diff.base_commit_header(),
            diff.target_commit_header(),
        ] {
            assert!(!text.trim().is_empty(), "{language:?} left a message empty");
        }

        for (text, argument) in [
            (
                diff.tracking_ref_unavailable("main", "origin", "refs/heads/main"),
                "refs/heads/main",
            ),
            (diff.files_read_failed("HEAD → main"), "HEAD → main"),
            (diff.branch_selection_not_found("main"), "main"),
            (diff.commit_selection_not_found("1f0c9a4"), "1f0c9a4"),
            (diff.no_diff("HEAD → main"), "HEAD → main"),
            (diff.diff_failed("HEAD → main"), "HEAD → main"),
        ] {
            assert!(
                text.contains(argument),
                "{language:?} must mention `{argument}`: {text}"
            );
        }
    }
}

#[test]
fn the_two_step_headers_keep_their_progress_in_both_languages() {
    for language in [Language::Japanese, Language::English] {
        let diff = language.messages().diff();

        assert!(
            diff.base_branch_header().starts_with("1/2")
                && diff.base_commit_header().starts_with("1/2"),
            "{language:?} must keep the progress of the first step"
        );
        assert!(
            diff.target_branch_header().starts_with("2/2")
                && diff.target_commit_header().starts_with("2/2"),
            "{language:?} must keep the progress of the second step"
        );
    }
}

#[test]
fn the_diff_wording_is_translated() {
    let japanese = Language::Japanese.messages().diff();
    let english = Language::English.messages().diff();

    assert_ne!(japanese.conflicting_modes(), english.conflicting_modes());
    assert_ne!(japanese.unstaged_range(), english.unstaged_range());
    assert_ne!(japanese.staged_range(), english.staged_range());
    assert_ne!(japanese.head_range(), english.head_range());
    assert_ne!(japanese.base_branch_header(), english.base_branch_header());
    assert_ne!(
        japanese.target_branch_header(),
        english.target_branch_header()
    );
    assert_ne!(japanese.base_commit_header(), english.base_commit_header());
    assert_ne!(
        japanese.target_commit_header(),
        english.target_commit_header()
    );
    assert_ne!(
        japanese.tracking_ref_unavailable("main", "origin", "refs/heads/main"),
        english.tracking_ref_unavailable("main", "origin", "refs/heads/main")
    );
    assert_ne!(
        japanese.files_read_failed("HEAD → main"),
        english.files_read_failed("HEAD → main")
    );
    assert_ne!(
        japanese.branch_selection_not_found("main"),
        english.branch_selection_not_found("main")
    );
    assert_ne!(
        japanese.commit_selection_not_found("1f0c9a4"),
        english.commit_selection_not_found("1f0c9a4")
    );
    assert_ne!(
        japanese.no_diff("HEAD → main"),
        english.no_diff("HEAD → main")
    );
    assert_ne!(
        japanese.diff_failed("HEAD → main"),
        english.diff_failed("HEAD → main")
    );
}

#[test]
fn the_range_of_a_message_follows_the_language_of_the_range_itself() {
    let english = Language::English.messages();

    assert!(
        no_diff_message(english, &DiffRange::unstaged(english))
            .contains(english.diff().unstaged_range()),
        "the range must be described in the language of the message"
    );
}

#[test]
fn an_empty_diff_is_reported_without_failing() {
    let text = report_no_diff(messages(), &DiffRange::staged(messages()));

    assert!(
        text.contains(messages().diff().staged_range()),
        "the empty diff should be reported with the range it compared: {text}"
    );
    assert!(
        text.ends_with('\n'),
        "the line should be terminated: {text}"
    );
}
