use fuzgit::commands::push::{
    display_line, preview_args, push_args, to_item, UpstreamUpdate, PREVIEW_COMMIT_COUNT,
    SET_UPSTREAM_OPTION,
};
use fuzgit::git::PushTarget;
use fuzgit::i18n::Language;

fn target(remote: &str, ahead_behind: Option<(usize, usize)>) -> PushTarget {
    PushTarget {
        remote: remote.to_owned(),
        branch: "main".to_owned(),
        is_upstream: false,
        ahead_behind,
    }
}

#[test]
fn a_line_shows_the_destination_with_its_counts() {
    assert_eq!(
        display_line(
            Language::Japanese.messages(),
            &target("origin", Some((2, 1)))
        ),
        "origin/main  ahead 2 / behind 1"
    );
}

#[test]
fn a_destination_without_a_tracking_reference_says_so() {
    assert_eq!(
        display_line(Language::Japanese.messages(), &target("backup", None)),
        "backup/main  追跡参照なし"
    );
}

#[test]
fn the_upstream_destination_is_marked() {
    let upstream = PushTarget {
        is_upstream: true,
        ..target("origin", Some((0, 0)))
    };

    assert_eq!(
        display_line(Language::Japanese.messages(), &upstream),
        "origin/main  ahead 0 / behind 0  (upstream)"
    );
    assert!(
        !display_line(
            Language::Japanese.messages(),
            &target("origin", Some((0, 0)))
        )
        .contains("upstream"),
        "a destination that is not the upstream must not be marked"
    );
}

#[test]
fn the_preview_lists_the_commits_that_would_be_pushed() {
    assert_eq!(
        preview_args(&target("origin", Some((2, 0)))),
        [
            "log",
            "--color=always",
            "--oneline",
            "--decorate",
            "-n",
            PREVIEW_COMMIT_COUNT,
            "refs/remotes/origin/main..HEAD",
            "--"
        ],
        "the tracking reference is addressed by its full name"
    );
}

#[test]
fn the_preview_of_a_new_destination_starts_at_head() {
    let arguments = preview_args(&target("backup", None));

    assert!(
        arguments.contains(&"HEAD".to_owned()),
        "a destination without a tracking reference has no range: {arguments:?}"
    );
    assert!(
        !arguments.iter().any(|argument| argument.contains("..")),
        "a missing reference must not be used as a range: {arguments:?}"
    );
}

#[test]
fn an_item_keeps_the_destination_as_its_key() {
    let item = to_item(
        Language::Japanese.messages(),
        &target("origin", Some((1, 0))),
    );

    assert_eq!(item.key(), "origin/main");
}

#[test]
fn pushing_passes_the_remote_and_the_branch_as_they_were_listed() {
    assert_eq!(
        push_args(&target("origin", Some((1, 0))), UpstreamUpdate::Keep),
        ["push", "origin", "main"]
    );
}

#[test]
fn setting_the_upstream_adds_its_option() {
    assert_eq!(
        push_args(&target("origin", None), UpstreamUpdate::Configure),
        ["push", SET_UPSTREAM_OPTION, "origin", "main"]
    );
}

#[test]
fn the_upstream_is_left_alone_unless_it_was_asked_for() {
    assert_eq!(UpstreamUpdate::Keep.option(), None);
    assert_eq!(UpstreamUpdate::Configure.option(), Some(SET_UPSTREAM_OPTION));
}

#[test]
fn push_a_branch_containing_a_slash_keeps_its_full_name() {
    let target = PushTarget {
        branch: "feature/login".to_owned(),
        ..target("origin", None)
    };

    assert_eq!(
        push_args(&target, UpstreamUpdate::Keep),
        ["push", "origin", "feature/login"]
    );
    assert_eq!(target.tracking_name(), "origin/feature/login");
}

#[test]
fn every_push_message_is_filled_in_for_both_languages() {
    for language in [Language::Japanese, Language::English] {
        let push = language.messages().push();

        for text in [
            push.targets_read_failed(),
            push.no_remotes(),
            push.no_tracking_ref(),
        ] {
            assert!(!text.trim().is_empty(), "{language:?} left a message empty");
        }

        assert!(
            push.no_remotes().contains("git remote add"),
            "{language:?} must spell out the command: {text}",
            text = push.no_remotes()
        );

        assert!(
            push.selection_not_found("origin/main")
                .contains("origin/main"),
            "{language:?} must name the selection"
        );
        assert!(
            push.push_failed("origin/main").contains("origin/main"),
            "{language:?} must name the destination"
        );
    }
}

#[test]
fn the_push_wording_is_translated() {
    let japanese = Language::Japanese.messages().push();
    let english = Language::English.messages().push();

    assert_ne!(
        japanese.targets_read_failed(),
        english.targets_read_failed()
    );
    assert_ne!(japanese.no_remotes(), english.no_remotes());
    assert_ne!(japanese.no_tracking_ref(), english.no_tracking_ref());
    assert_ne!(
        japanese.selection_not_found("origin/main"),
        english.selection_not_found("origin/main")
    );
    assert_ne!(
        japanese.push_failed("origin/main"),
        english.push_failed("origin/main")
    );
}

#[test]
fn a_destination_without_a_tracking_reference_says_so_in_english() {
    assert_eq!(
        display_line(Language::English.messages(), &target("backup", None)),
        "backup/main  no tracking ref"
    );
}
