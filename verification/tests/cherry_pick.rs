use fuzgit::commands::cherry_pick::{
    cherry_pick_args, display_line, oldest_first, preview_args, to_item,
};
use fuzgit::git::CommitInfo;
use fuzgit::i18n::{Language, Messages};

fn messages() -> Messages {
    Language::Japanese.messages()
}

fn candidates() -> Vec<CommitInfo> {
    ["cccc", "bbbb", "aaaa"]
        .into_iter()
        .enumerate()
        .map(|(index, id)| CommitInfo {
            id: id.repeat(10),
            short_id: id.to_owned(),
            summary: format!("commit {index}"),
            author: "fuzgit test".to_owned(),
            time: "2024-01-02".to_owned(),
        })
        .collect()
}

fn id(prefix: &str) -> String {
    prefix.repeat(10)
}

#[test]
fn selections_are_reordered_from_the_oldest_commit() {
    let candidates = candidates();
    let selected = vec![id("cccc"), id("aaaa")];

    let ordered = oldest_first(Language::Japanese.messages(), &candidates, &selected)
        .expect("all hashes are candidates");

    assert_eq!(ordered, [id("aaaa"), id("cccc")]);
}

#[test]
fn an_already_ordered_selection_is_kept_as_is() {
    let candidates = candidates();
    let selected = vec![id("aaaa"), id("bbbb"), id("cccc")];

    let ordered = oldest_first(Language::Japanese.messages(), &candidates, &selected)
        .expect("all hashes are candidates");

    assert_eq!(ordered, [id("aaaa"), id("bbbb"), id("cccc")]);
}

#[test]
fn a_single_selection_is_returned_unchanged() {
    let candidates = candidates();
    let selected = vec![id("bbbb")];

    let ordered = oldest_first(Language::Japanese.messages(), &candidates, &selected)
        .expect("all hashes are candidates");

    assert_eq!(ordered, [id("bbbb")]);
}

#[test]
fn cherry_pick_unselected_candidates_are_dropped() {
    let candidates = candidates();
    let selected = vec![id("cccc")];

    let ordered = oldest_first(Language::Japanese.messages(), &candidates, &selected)
        .expect("all hashes are candidates");

    assert_eq!(ordered, [id("cccc")]);
}

#[test]
fn a_hash_outside_of_the_candidates_is_rejected() {
    let candidates = candidates();
    let selected = vec![id("cccc"), id("dddd")];

    let err = oldest_first(Language::Japanese.messages(), &candidates, &selected)
        .expect_err("unknown hash must be rejected");

    assert!(
        err.message(messages()).contains(&id("dddd")),
        "the unknown hash should be named: {err:?}"
    );
}

#[test]
fn arguments_start_with_the_subcommand_and_keep_the_given_order() {
    let hashes = vec![id("aaaa"), id("cccc")];

    assert_eq!(
        cherry_pick_args(&hashes),
        ["cherry-pick", &id("aaaa"), &id("cccc")]
    );
}

#[test]
fn a_single_hash_produces_two_arguments() {
    assert_eq!(
        cherry_pick_args(&vec![id("bbbb")]),
        ["cherry-pick", &id("bbbb")]
    );
}

#[test]
fn cherry_pick_a_line_shows_the_short_hash_date_summary_and_author() {
    let candidates = candidates();
    let commit = candidates.first().expect("candidates are not empty");

    assert_eq!(
        display_line(commit),
        "cccc 2024-01-02 commit 0 (fuzgit test)"
    );
}

#[test]
fn cherry_pick_the_preview_shows_the_commit_and_ends_with_a_path_separator() {
    let candidates = candidates();
    let commit = candidates.first().expect("candidates are not empty");

    assert_eq!(
        preview_args(commit),
        ["show", "--color=always", &id("cccc"), "--"]
    );
}

#[test]
fn cherry_pick_an_item_keeps_the_full_hash_as_its_key() {
    let candidates = candidates();
    let commit = candidates.first().expect("candidates are not empty");

    assert_eq!(to_item(commit).key(), id("cccc"));
}

#[test]
fn every_cherry_pick_message_is_filled_in_for_both_languages() {
    for language in [Language::Japanese, Language::English] {
        let cherry_pick = language.messages().cherry_pick();
        let missing = cherry_pick.selection_not_found("aaaa, bbbb");

        assert!(
            missing.contains("aaaa") && missing.contains("bbbb"),
            "{language:?} must name every missing hash: {missing}"
        );
        assert!(
            !cherry_pick.resolution_hint().trim().is_empty(),
            "{language:?} left the hint empty"
        );

        assert!(
            cherry_pick
                .resolution_hint()
                .contains("git cherry-pick --continue")
                && cherry_pick
                    .resolution_hint()
                    .contains("git cherry-pick --abort"),
            "{language:?} must keep the commands to run: {hint}",
            hint = cherry_pick.resolution_hint()
        );
    }
}

#[test]
fn the_cherry_pick_wording_is_translated() {
    let japanese = Language::Japanese.messages().cherry_pick();
    let english = Language::English.messages().cherry_pick();

    assert_ne!(
        japanese.selection_not_found("aaaa"),
        english.selection_not_found("aaaa")
    );
    assert_ne!(japanese.resolution_hint(), english.resolution_hint());
}
