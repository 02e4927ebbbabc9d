use fuzgit::commands::fixup::{
    autosquash_hint, commit_args, display_line, picker, preview_args, rebase_start, to_item,
    FixupKind, RebaseStart,
};
use fuzgit::error::Error;
use fuzgit::git::{ChangeScope, CommitInfo};
use fuzgit::i18n::Language;

fn commit_info() -> CommitInfo {
    CommitInfo {
        id: "1f0c9a4b3d2e5f60718293a4b5c6d7e8f9012345".to_owned(),
        short_id: "1f0c9a4".to_owned(),
        summary: "認証まわりを整理する".to_owned(),
        author: "fuzgit test".to_owned(),
        time: "2024-01-02".to_owned(),
    }
}

fn history() -> Vec<CommitInfo> {
    let commit = |id: &str, summary: &str| CommitInfo {
        id: id.to_owned(),
        short_id: id[..7].to_owned(),
        summary: summary.to_owned(),
        author: "fuzgit test".to_owned(),
        time: "2024-01-02".to_owned(),
    };

    vec![
        commit("9bde988a0c1d2e3f4051627384950a1b2c3d4e5f", "second commit"),
        commit("0a1b2c3d4e5f60718293a4b5c6d7e8f901234567", "first commit"),
    ]
}

#[test]
fn the_default_creates_a_fixup_commit() {
    assert_eq!(
        commit_args(FixupKind::Fixup, &commit_info().id),
        ["commit", "--fixup=1f0c9a4b3d2e5f60718293a4b5c6d7e8f9012345"]
    );
}

#[test]
fn the_squash_option_creates_a_squash_commit() {
    assert_eq!(
        commit_args(FixupKind::Squash, &commit_info().id),
        [
            "commit",
            "--squash=1f0c9a4b3d2e5f60718293a4b5c6d7e8f9012345"
        ]
    );
}

#[test]
fn the_two_kinds_never_appear_together() {
    for kind in [FixupKind::Fixup, FixupKind::Squash] {
        let arguments = commit_args(kind, &commit_info().id);

        assert_eq!(arguments.len(), 2, "unexpected arguments: {arguments:?}");
        assert_eq!(
            arguments
                .iter()
                .filter(|argument| argument.starts_with("--fixup=")
                    || argument.starts_with("--squash="))
                .count(),
            1,
            "exactly one of the two options must be passed: {arguments:?}"
        );
    }
}

#[test]
fn the_hash_is_carried_by_the_option_itself() {
    let arguments = commit_args(FixupKind::Fixup, &commit_info().id);

    assert!(
        !arguments.contains(&commit_info().id),
        "the hash must not be a standalone argument: {arguments:?}"
    );
    assert_eq!(
        FixupKind::Fixup.option(&commit_info().id),
        format!("--fixup={id}", id = commit_info().id)
    );
}

#[test]
fn a_path_commit_is_never_requested() {
    let arguments = commit_args(FixupKind::Squash, &commit_info().id);

    assert!(
        !arguments.iter().any(|argument| argument == "--"),
        "no path separator should be present: {arguments:?}"
    );
}

#[test]
fn fixup_a_line_shows_the_short_hash_date_summary_and_author() {
    assert_eq!(
        display_line(&commit_info()),
        "1f0c9a4 2024-01-02 認証まわりを整理する (fuzgit test)"
    );
}

#[test]
fn fixup_the_preview_shows_the_commit_and_ends_with_a_path_separator() {
    assert_eq!(
        preview_args(&commit_info()),
        [
            "show",
            "--color=always",
            "1f0c9a4b3d2e5f60718293a4b5c6d7e8f9012345",
            "--"
        ]
    );
}

#[test]
fn fixup_an_item_keeps_the_full_hash_as_its_key() {
    let item = to_item(&commit_info());

    assert_eq!(item.key(), "1f0c9a4b3d2e5f60718293a4b5c6d7e8f9012345");
}

#[test]
fn the_hint_rebases_from_the_parent_of_the_target() {
    let hint = autosquash_hint(
        Language::Japanese.messages(),
        &RebaseStart::Parent(commit_info().id),
    );

    assert_eq!(
        hint,
        "ヒント: 作成したコミットを履歴へ取り込むには次を実行してください。\n  \
         git rebase -i --autosquash 1f0c9a4b3d2e5f60718293a4b5c6d7e8f9012345^"
    );
}

#[test]
fn the_hint_for_a_root_commit_uses_root_instead_of_a_parent() {
    let hint = autosquash_hint(Language::Japanese.messages(), &RebaseStart::Root);
    let command = hint
        .lines()
        .find(|line| line.contains("git rebase"))
        .expect("the hint spells out the command");

    assert_eq!(command.trim(), "git rebase -i --autosquash --root");
    assert!(
        !command.contains('^'),
        "a parent reference cannot be resolved for a root commit: {command}"
    );
    assert!(
        hint.contains("最初のコミット"),
        "the reason for --root should be explained: {hint}"
    );
}

#[test]
fn the_hint_only_shows_the_command_and_never_runs_it() {
    for start in [RebaseStart::Parent(commit_info().id), RebaseStart::Root] {
        assert!(
            autosquash_hint(Language::Japanese.messages(), &start)
                .contains("git rebase -i --autosquash"),
            "the hint must spell out the command"
        );
    }
}

#[test]
fn a_commit_with_a_parent_is_rebased_from_that_parent() {
    let candidates = history();

    let start = rebase_start(Language::Japanese.messages(), &candidates[0], Some(true))
        .expect("the commit exists");

    assert_eq!(start, RebaseStart::Parent(candidates[0].id.clone()));
    assert_eq!(
        start.argument(),
        format!("{id}^", id = candidates[0].id),
        "the rebase starts one commit before the target"
    );
}

#[test]
fn the_root_commit_is_recognised_by_its_missing_parent() {
    let candidates = history();
    let root = candidates.last().expect("the history has two commits");

    let start = rebase_start(Language::Japanese.messages(), root, Some(false))
        .expect("the commit exists");

    assert_eq!(start, RebaseStart::Root);
    assert_eq!(start.argument(), "--root");
}

#[test]
fn an_unknown_hash_is_reported_instead_of_being_ignored() {
    let error = rebase_start(Language::Japanese.messages(), &commit_info(), None)
        .expect_err("a commit that is not in the repository cannot be resolved");

    assert!(
        error
            .message(Language::Japanese.messages())
            .contains(&commit_info().id),
        "the hash should be named: {error:?}"
    );
}

#[test]
fn the_missing_stage_message_names_the_kind_and_the_next_step() {
    for (kind, label) in [(FixupKind::Fixup, "fixup"), (FixupKind::Squash, "squash")] {
        let message = Language::Japanese
            .messages()
            .fixup()
            .staged_required(kind.label());

        assert!(
            message.contains("ステージ済みの変更がありません"),
            "the cause should be stated: {message}"
        );
        assert!(
            message.contains(label),
            "the message should name the {label} commit: {message}"
        );
        assert!(
            message.contains("gz add"),
            "the next step should be offered: {message}"
        );
    }
}

#[test]
fn every_fixup_message_is_filled_in_for_both_languages() {
    for language in [Language::Japanese, Language::English] {
        let fixup = language.messages().fixup();

        for text in [fixup.staged_changes_read_failed(), fixup.root_start_note()] {
            assert!(!text.trim().is_empty(), "{language:?} left a message empty");
        }

        for label in ["fixup", "squash"] {
            assert!(
                fixup.staged_required(label).contains(label),
                "{language:?} must name the {label} commit"
            );
            assert!(
                fixup.commit_creation_failed(label).contains(label),
                "{language:?} must name the {label} commit"
            );
        }

        assert!(
            fixup.staged_required("fixup").contains("gz add"),
            "{language:?} must offer the next step: {text}",
            text = fixup.staged_required("fixup")
        );
        assert!(
            fixup
                .autosquash_hint("--root")
                .contains("git rebase -i --autosquash --root"),
            "{language:?} must spell out the command: {text}",
            text = fixup.autosquash_hint("--root")
        );

        assert!(
            fixup
                .selection_not_found(&commit_info().id)
                .contains(&commit_info().id),
            "{language:?} must name the missing hash"
        );
    }
}

#[test]
fn the_fixup_wording_is_translated() {
    let japanese = Language::Japanese.messages().fixup();
    let english = Language::English.messages().fixup();

    assert_ne!(
        japanese.staged_changes_read_failed(),
        english.staged_changes_read_failed()
    );
    assert_ne!(
        japanese.staged_required("fixup"),
        english.staged_required("fixup")
    );
    assert_ne!(
        japanese.selection_not_found(&commit_info().id),
        english.selection_not_found(&commit_info().id)
    );
    assert_ne!(
        japanese.commit_creation_failed("squash"),
        english.commit_creation_failed("squash")
    );
    assert_ne!(
        japanese.autosquash_hint("--root"),
        english.autosquash_hint("--root")
    );
    assert_ne!(japanese.root_start_note(), english.root_start_note());
}

#[test]
fn the_english_hint_still_explains_why_root_is_used() {
    let hint = autosquash_hint(Language::English.messages(), &RebaseStart::Root);

    assert!(
        hint.contains("git rebase -i --autosquash --root"),
        "the command must not depend on the display language: {hint}"
    );
    assert!(
        hint.contains("first commit"),
        "the reason for --root should be explained: {hint}"
    );
}

#[test]
fn a_repository_without_staged_changes_is_detected_before_the_finder() {
    let staged = ChangeScope::Staged
        .parse_status(b" M a.txt\0")
        .expect("status should be read");

    assert!(
        staged.is_empty(),
        "an unstaged change must not count as staged: {staged:?}"
    );

    let messages = Language::Japanese.messages();
    let refused = picker(messages, FixupKind::Fixup, staged.len(), &history());

    assert_eq!(
        refused.expect_err("nothing is staged"),
        Error::Explained(messages.fixup().staged_required("fixup"))
    );
}
