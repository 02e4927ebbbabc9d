use fuzgit::commands::branch::{display_line, metric, preview_args, switch_target, to_item};
use fuzgit::finder::{Highlight, HighlightColor};
use fuzgit::git::{BranchDetail, BranchInfo};
use fuzgit::i18n::{Language, Messages};

fn messages() -> Messages {
    Language::Japanese.messages()
}

fn local(name: &str) -> BranchInfo {
    BranchInfo {
        name: name.to_owned(),
        is_current: false,
        is_remote: false,
    }
}

fn remote(name: &str) -> BranchInfo {
    BranchInfo {
        name: name.to_owned(),
        is_current: false,
        is_remote: true,
    }
}

#[test]
fn a_local_branch_switches_to_its_own_name() {
    let target = switch_target(Language::Japanese.messages(), &local("feature"))
        .expect("local branch is always switchable");

    assert_eq!(target, "feature");
}

#[test]
fn the_current_branch_is_switchable_as_well() {
    let mut branch = local("main");
    branch.is_current = true;

    let target = switch_target(Language::Japanese.messages(), &branch)
        .expect("current branch is switchable");

    assert_eq!(target, "main");
}

#[test]
fn a_remote_branch_drops_the_remote_name_for_dwim() {
    let target = switch_target(Language::Japanese.messages(), &remote("origin/feature"))
        .expect("remote branch is switchable");

    assert_eq!(target, "feature");
}

#[test]
fn only_the_remote_name_is_dropped_from_a_hierarchical_branch() {
    let target = switch_target(
        Language::Japanese.messages(),
        &remote("upstream/feature/login"),
    )
    .expect("remote branch is switchable");

    assert_eq!(target, "feature/login");
}

#[test]
fn a_local_branch_containing_a_slash_keeps_its_full_name() {
    let target = switch_target(Language::Japanese.messages(), &local("feature/login"))
        .expect("local branch is switchable");

    assert_eq!(target, "feature/login");
}

#[test]
fn a_remote_branch_without_a_remote_name_is_rejected() {
    let err = switch_target(Language::Japanese.messages(), &remote("origin"))
        .expect_err("a bare remote name is not a branch");

    assert!(
        err.message(messages()).contains("origin"),
        "unexpected error: {err:?}"
    );
}

#[test]
fn the_current_branch_is_marked_and_the_others_are_aligned() {
    let mut current = local("main");
    current.is_current = true;

    assert_eq!(display_line(&current), "* main");
    assert_eq!(display_line(&local("feature")), "  feature");
    assert_eq!(display_line(&remote("origin/main")), "  origin/main");
}

#[test]
fn the_preview_shows_the_branch_log_and_ends_with_a_path_separator() {
    let args = preview_args(&remote("origin/main"));

    assert_eq!(
        args,
        [
            "log",
            "--color=always",
            "--oneline",
            "--decorate",
            "-n",
            "50",
            "origin/main",
            "--"
        ]
    );
}

#[test]
fn branch_an_item_keeps_the_branch_name_as_its_key() {
    let item = to_item(&remote("origin/main"), None);

    assert_eq!(item.key(), "origin/main");
}

fn detail(ahead: usize, behind: usize) -> BranchDetail {
    BranchDetail {
        upstream: Some("origin/feature".to_owned()),
        ahead,
        behind,
        committed: "2 hours ago".to_owned(),
        author: "Mika Tanaka".to_owned(),
    }
}

#[test]
fn the_metric_counts_what_switching_would_gain_and_lose() {
    let (text, _) = metric(&detail(3, 0));

    assert_eq!(text, "↑3 ↓0");
}

#[test]
fn only_a_non_zero_side_of_the_metric_is_coloured() {
    let (text, highlights) = metric(&detail(3, 0));

    assert_eq!(
        highlights,
        vec![Highlight::new(0, "↑3".len(), HighlightColor::Green)],
        "増減の無い側に色を付けると、実際に増減がある候補と見分けが付かなくなる: {text}"
    );

    let (_, both) = metric(&detail(3, 2));
    assert_eq!(both.len(), 2, "両側に増減があれば両方に色が付く");

    let (_, neither) = metric(&detail(0, 0));
    assert!(neither.is_empty(), "増減が無ければ色は付かない");
}

#[test]
fn a_branch_without_details_still_gets_the_plain_frame() {
    let item = to_item(&remote("origin/main"), None);

    assert_eq!(item.key(), "origin/main");
}

#[test]
fn every_branch_message_is_filled_in_for_both_languages() {
    for language in [Language::Japanese, Language::English] {
        let branch = language.messages().branch();

        for text in [branch.header_subject(), branch.header_outcome()] {
            assert!(!text.trim().is_empty(), "{language:?} left a message empty");
        }

        for (text, argument) in [
            (branch.selection_not_found("feature"), "feature"),
            (branch.tracking_target_undetermined("origin"), "origin"),
        ] {
            assert!(!text.trim().is_empty(), "{language:?} left a message empty");
            assert!(
                text.contains(argument),
                "{language:?} must mention `{argument}`: {text}"
            );
        }
    }
}

#[test]
fn the_branch_wording_is_translated() {
    let japanese = Language::Japanese.messages().branch();
    let english = Language::English.messages().branch();

    assert_ne!(japanese.header_subject(), english.header_subject());
    assert_ne!(japanese.header_outcome(), english.header_outcome());
    assert_ne!(
        japanese.selection_not_found("feature"),
        english.selection_not_found("feature")
    );
    assert_ne!(
        japanese.tracking_target_undetermined("origin"),
        english.tracking_target_undetermined("origin")
    );
}
