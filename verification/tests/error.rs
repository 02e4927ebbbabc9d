use fuzgit::commands::branch_manage;
use fuzgit::commands::confirmation::{confirm, question};
use fuzgit::commands::fetch::fetch_jobs;
use fuzgit::cli::BranchCommand;
use fuzgit::error::{Error, StartFailure};
use fuzgit::gh::split_tsv;
use fuzgit::i18n::Language;

#[test]
fn an_explanation_is_shown_as_it_is() {
    let error = Error::Explained("because".to_owned());

    for language in [Language::Japanese, Language::English] {
        assert_eq!(error.message(language.messages()), "because");
    }
}

#[test]
fn a_run_that_did_not_start_is_explained_by_what_was_tried() {
    let error = Error::NotStarted {
        explanation: "the branch `main`".to_owned(),
        cause: StartFailure::GitNotFound,
    };

    assert!(error
        .message(Language::English.messages())
        .contains("the branch `main`"));
}

#[test]
fn the_value_of_a_bad_setting_is_shown() {
    let error = fetch_jobs(Some(b"many")).expect_err("that is no number");

    assert_eq!(
        error,
        Error::InvalidFetchJobs {
            value: "many".to_owned()
        }
    );
    for language in [Language::Japanese, Language::English] {
        assert!(error.message(language.messages()).contains("many"));
    }
}

#[test]
fn a_setting_need_not_be_utf8() {
    assert_eq!(
        fetch_jobs(Some(&[b'8', 0xff])),
        Err(Error::InvalidFetchJobs {
            value: "8\u{fffd}".to_owned()
        })
    );
    assert_eq!(fetch_jobs(Some(b"+3")), Ok(3));
}

#[test]
fn a_record_of_the_wrong_size_tells_both_numbers() {
    let record: Vec<char> = "a\tb".chars().collect();
    let error = split_tsv(&record, 3).expect_err("a field is missing");

    assert_eq!(
        error,
        Error::GhOutputMalformed {
            expected: 3,
            found: 2
        }
    );
    let text = error.message(Language::English.messages());
    assert!(text.contains('3') && text.contains('2'), "{text}");
}

#[test]
fn a_refusal_cancels() {
    assert_eq!(confirm("yes\n"), Ok(()));
    for answer in ["", "n\n", "maybe\n"] {
        assert_eq!(confirm(answer), Err(Error::Cancelled), "{answer:?}");
    }
    assert!(!Error::Cancelled
        .message(Language::English.messages())
        .is_empty());
}

#[test]
fn the_question_lists_every_target_under_the_header() {
    let messages = Language::English.messages();
    let asked = question(
        messages,
        "header",
        &vec!["a.txt".to_owned(), "b.txt".to_owned()],
    );
    let lines: Vec<&str> = asked.lines().collect();

    assert_eq!(lines[0], "header");
    assert!(lines[1].ends_with("a.txt") && lines[2].ends_with("b.txt"));
    assert!(asked.ends_with(messages.confirm().prompt()), "{asked}");
}

#[test]
fn a_repository_without_a_work_tree_is_named_as_such() {
    for language in [Language::Japanese, Language::English] {
        assert_eq!(
            Error::NoWorktree.message(language.messages()),
            language.messages().common().no_worktree()
        );
    }
}

#[test]
fn the_branch_commands_that_are_not_there_yet_say_so() {
    let messages = Language::English.messages();
    for command in [
        BranchCommand::Create {
            name: "feature".to_owned(),
            switch: true,
        },
        BranchCommand::Delete {
            force: false,
            into: None,
        },
        BranchCommand::Cleanup { into: None },
    ] {
        let error = branch_manage::run(messages, &command).expect_err("nothing is done");
        assert!(!error.message(messages).is_empty());
    }
}
