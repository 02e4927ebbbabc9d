use fuzgit::commands::merge::{
    confirmation_header, merge_args, merge_tree_args, parse_conflicted_files, picker,
    predict_conflicts, prediction_note, preview_args, to_item, ConflictPrediction, MergeMode,
    PREDICTION_CLEAN_NOTE, PREDICTION_UNNAMED_NOTE, PREVIEW_COMMIT_COUNT,
};
use fuzgit::git::{other_branches, BranchInfo};
use fuzgit::i18n::Language;

fn local(name: &str) -> BranchInfo {
    BranchInfo {
        name: name.to_owned(),
        is_current: false,
        is_remote: false,
    }
}

fn conflicted(paths: &[&str]) -> ConflictPrediction {
    ConflictPrediction::Conflicted(paths.iter().map(|path| (*path).to_owned()).collect())
}

#[test]
fn no_flag_merges_the_usual_way() {
    assert_eq!(
        MergeMode::from_flags(false, false, false).expect("no flag is always valid"),
        MergeMode::Default
    );
    assert_eq!(MergeMode::Default.option(), None);
    assert_eq!(
        merge_args(MergeMode::Default, "feature"),
        ["merge", "feature"]
    );
}

#[test]
fn each_strategy_flag_adds_its_own_option() {
    for (no_ff, squash, ff_only, mode, option) in [
        (true, false, false, MergeMode::NoFf, "--no-ff"),
        (false, true, false, MergeMode::Squash, "--squash"),
        (false, false, true, MergeMode::FfOnly, "--ff-only"),
    ] {
        assert_eq!(
            MergeMode::from_flags(no_ff, squash, ff_only).expect("a single flag is valid"),
            mode
        );
        assert_eq!(mode.option(), Some(option));
        assert_eq!(
            merge_args(mode, "feature"),
            ["merge", option, "feature"],
            "the option must precede the branch"
        );
    }
}

#[test]
fn combining_the_strategy_flags_is_rejected() {
    for (no_ff, squash, ff_only) in [
        (true, true, false),
        (true, false, true),
        (false, true, true),
        (true, true, true),
    ] {
        let err = MergeMode::from_flags(no_ff, squash, ff_only)
            .expect_err("the strategies are mutually exclusive");

        assert!(
            err.message(Language::Japanese.messages()).contains("同時に指定できません"),
            "unexpected error: {err:?}"
        );
    }
}

#[test]
fn merge_a_branch_containing_a_slash_keeps_its_full_name() {
    assert_eq!(
        merge_args(MergeMode::NoFf, "origin/feature/login"),
        ["merge", "--no-ff", "origin/feature/login"]
    );
}

#[test]
fn the_preview_lists_the_commits_that_would_be_merged() {
    assert_eq!(
        preview_args(&local("feature")),
        [
            "log",
            "--color=always",
            "--oneline",
            "--decorate",
            "-n",
            PREVIEW_COMMIT_COUNT,
            "HEAD..feature",
            "--"
        ],
        "the range starts at the current position"
    );
}

#[test]
fn merge_an_item_keeps_the_branch_name_as_its_key() {
    let item = to_item(&local("origin/main"));

    assert_eq!(item.key(), "origin/main");
}

#[test]
fn the_dry_run_compares_the_current_position_with_the_candidate() {
    assert_eq!(
        merge_tree_args("feature"),
        [
            "merge-tree",
            "--write-tree",
            "--name-only",
            "-z",
            "HEAD",
            "feature"
        ]
    );
}

#[test]
fn a_clean_dry_run_reports_only_the_resulting_tree() {
    let output = b"9b09a13822baf8df9427e5a197247eaa4790545d\0";

    assert_eq!(
        parse_conflicted_files(output).expect("the output has a tree record"),
        Vec::<String>::new()
    );
}

#[test]
fn a_conflicted_dry_run_lists_the_files_before_the_messages() {
    let output = [
        &b"f7ab3c7f44322f7ce748c9ca53f63edb6ad56226\0"[..],
        &b"other.txt\0shared.txt\0"[..],
        &b"\0"[..],
        &b"1\0other.txt\0Auto-merging\0Auto-merging other.txt\n\0"[..],
    ]
    .concat();

    assert_eq!(
        parse_conflicted_files(&output).expect("the output has a tree record"),
        ["other.txt", "shared.txt"],
        "the informational messages must not be mistaken for file names"
    );
}

#[test]
fn a_dry_run_output_without_a_tree_is_not_understood() {
    for output in [&b""[..], &b"\0other.txt\0"[..]] {
        assert_eq!(
            parse_conflicted_files(output),
            None,
            "an output without a tree record must not be reported as a prediction"
        );
    }
}

#[test]
fn a_conflicting_path_that_is_not_utf8_is_still_listed() {
    let output = [
        &b"f7ab3c7f44322f7ce748c9ca53f63edb6ad56226\0"[..],
        &[0xff, 0xfe],
        &b"\0"[..],
    ]
    .concat();

    let paths = parse_conflicted_files(&output).expect("the output has a tree record");

    assert_eq!(paths.len(), 1);
}

#[test]
fn a_prediction_lists_the_files_that_are_expected_to_conflict() {
    let output = [
        &b"f7ab3c7f44322f7ce748c9ca53f63edb6ad56226\0"[..],
        &b"other.txt\0shared.txt\0"[..],
        &b"\0"[..],
    ]
    .concat();

    let prediction = predict_conflicts(Some((1, output.as_slice())));

    assert_eq!(
        prediction,
        conflicted(&["other.txt", "shared.txt"]),
        "both files were changed on either side"
    );
}

#[test]
fn a_prediction_of_a_mergeable_branch_is_clean() {
    let output = b"9b09a13822baf8df9427e5a197247eaa4790545d\0";

    assert_eq!(
        predict_conflicts(Some((0, output.as_slice()))),
        ConflictPrediction::Clean
    );
}

#[test]
fn only_the_conflicting_files_are_offered_as_confirmation_targets() {
    assert_eq!(
        conflicted(&["a.txt"]).conflicted_files(),
        ["a.txt".to_owned()]
    );
    assert!(ConflictPrediction::Clean.conflicted_files().is_empty());
    assert!(
        ConflictPrediction::Unavailable
            .conflicted_files()
            .is_empty()
    );
}

#[test]
fn the_confirmation_names_the_branch_the_count_and_the_command() {
    let header = confirmation_header(
        "feature",
        3,
        &merge_args(MergeMode::NoFf, "feature"),
        &ConflictPrediction::Clean,
    );

    assert!(header.contains("`feature`"), "unexpected header: {header}");
    assert!(header.contains("3 件"), "unexpected header: {header}");
    assert!(
        header.contains("git merge --no-ff feature"),
        "the command that runs must be shown as it is: {header}"
    );
}

#[test]
fn the_confirmation_reports_a_clean_prediction() {
    assert_eq!(
        prediction_note(&ConflictPrediction::Clean),
        PREDICTION_CLEAN_NOTE
    );
}

#[test]
fn the_confirmation_counts_the_files_that_are_expected_to_conflict() {
    assert_eq!(
        prediction_note(&conflicted(&["a.txt", "b.txt"])),
        "コンフリクト予測: 次の 2 件のファイルで発生する見込みです"
    );
}

#[test]
fn the_confirmation_says_when_the_prediction_could_not_be_made() {
    let note = prediction_note(&ConflictPrediction::Unavailable);

    assert!(note.contains("2.38"), "unexpected note: {note}");
    assert!(
        !note.contains("コンフリクトなく"),
        "a missing prediction must not read as a clean one: {note}"
    );
}

#[test]
fn the_confirmation_still_warns_when_no_file_name_was_reported() {
    assert_eq!(prediction_note(&conflicted(&[])), PREDICTION_UNNAMED_NOTE);
}

#[test]
fn a_repository_with_no_other_branch_offers_nothing_to_merge() {
    let current = BranchInfo {
        is_current: true,
        ..local("main")
    };

    let err = picker(&other_branches(vec![current])).expect_err("the only branch is the current one");

    assert!(
        err.message(Language::Japanese.messages())
            .contains("merge 対象になるブランチがありません"),
        "unexpected error: {err:?}"
    );
}
