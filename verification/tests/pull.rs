use std::cell::RefCell;
use std::rc::Rc;

use fuzgit::commands::pull::{
    cells, confirmation_header, current_branch_args, fixed_target_message, in_candidate_order,
    integrate_args, items, missing_tracking_message, mode_args, other_branch_args, preselect,
    preview_source, pull_header, remote_fetch_args, report_summary, report_target,
    report_up_to_date, skipped_line, summary_line, target_remotes, up_to_date_message,
    CurrentTarget, PullDecision, PullMode, PullRun, PullStep, PullSummary, CURRENT_MARK,
    OTHER_MARK, PREVIEW_COMMIT_COUNT, TRACKING_PREFIX,
};
use fuzgit::commands::{
    aligned_candidates, command_display, COLUMN_SEPARATOR, HEADER_SEPARATOR,
};
use fuzgit::error::{Error, RunOutcome, StartFailure};
use fuzgit::finder::{FinderItem, PreviewSource};
use fuzgit::git::{PullScan, PullTarget};
use fuzgit::i18n::{Language, Messages};

fn messages() -> Messages {
    Language::Japanese.messages()
}

fn target(branch: &str, is_current: bool) -> PullTarget {
    target_on("origin", branch, is_current)
}

fn target_on(remote: &str, branch: &str, is_current: bool) -> PullTarget {
    PullTarget {
        branch: branch.to_owned(),
        remote: remote.to_owned(),
        tracking_ref: format!("refs/remotes/{remote}/{branch}"),
        is_current,
    }
}

fn targets() -> Vec<PullTarget> {
    vec![
        target("main", true),
        target("alpha", false),
        target("zulu", false),
    ]
}

fn display_line(target: &PullTarget) -> String {
    cells(target).join(COLUMN_SEPARATOR)
}

fn scan(targets: Vec<PullTarget>, excluded: usize) -> PullScan {
    PullScan { targets, excluded }
}

fn branches(targets: &[&PullTarget]) -> Vec<String> {
    targets
        .iter()
        .map(|target| target.branch.clone())
        .collect::<Vec<_>>()
}

fn sections(source: &PreviewSource) -> Vec<(String, Vec<String>)> {
    let PreviewSource::Composite(sections) = source else {
        panic!("unexpected preview: {source:?}");
    };

    sections
        .iter()
        .map(|(label, source)| {
            let PreviewSource::Git(arguments) = source else {
                panic!("`{label}` should run git: {source:?}");
            };
            (label.clone(), arguments.clone())
        })
        .collect()
}

#[test]
fn without_any_candidate_there_is_nothing_to_decide() {
    assert_eq!(
        PullDecision::from_targets(&[]),
        PullDecision::NoCandidate,
        "a repository without an upstream must not open the finder"
    );
}

#[test]
fn a_single_candidate_skips_the_finder() {
    for only in [target("main", true), target("feature/login", false)] {
        assert_eq!(
            PullDecision::from_targets(std::slice::from_ref(&only)),
            PullDecision::Fixed,
            "a lone candidate leaves nothing to choose: {only:?}"
        );
    }
}

#[test]
fn two_or_more_candidates_are_chosen_in_the_finder() {
    let targets = [target("main", true), target("alpha", false)];
    assert_eq!(PullDecision::from_targets(&targets), PullDecision::Choose);

    let targets = [
        target("main", true),
        target("alpha", false),
        target("zebra", false),
    ];
    assert_eq!(PullDecision::from_targets(&targets), PullDecision::Choose);
}

#[test]
fn the_empty_result_explains_how_to_set_an_upstream() {
    for language in [Language::Japanese, Language::English] {
        let message = language.messages().pull().no_candidates();

        assert!(
            message.contains("git push -u <remote> <branch>"),
            "the way to push a new branch should be offered: {message}"
        );
        assert!(
            message.contains("git branch --set-upstream-to=<remote>/<branch>"),
            "the plain git way should be offered too: {message}"
        );
    }
}

#[test]
fn a_candidate_line_shows_the_branch_and_the_upstream_it_follows() {
    let line = display_line(&target("alpha", false));

    assert_eq!(line, "  alpha  →  origin/alpha");
}

#[test]
fn the_current_branch_is_marked_like_git_branch() {
    let current = display_line(&target("main", true));
    let other = display_line(&target("alpha", false));

    assert!(
        current.starts_with(CURRENT_MARK),
        "the current branch should be marked: {current}"
    );
    assert!(
        other.starts_with(OTHER_MARK),
        "the other branches should keep the same column: {other}"
    );
    assert_eq!(
        current.len() - "main".len() - "origin/main".len(),
        other.len() - "alpha".len() - "origin/alpha".len(),
        "the mark must not shift the columns: {current} / {other}"
    );
}

#[test]
fn a_candidate_line_shows_the_upstream_by_its_short_name() {
    let mut candidate = target("main", false);
    candidate.remote = "upstream".to_owned();
    candidate.tracking_ref = "refs/remotes/upstream/trunk".to_owned();

    let line = display_line(&candidate);

    assert!(
        line.contains("upstream/trunk"),
        "the short name should be shown: {line}"
    );
    assert!(
        !line.contains(TRACKING_PREFIX),
        "the full reference is for git, not for the list: {line}"
    );
}

#[test]
fn a_candidate_line_never_shows_ahead_or_behind() {
    for candidate in targets() {
        let line = display_line(&candidate);

        assert!(
            !line.contains("ahead") && !line.contains("behind"),
            "a stale count must not be shown: {line}"
        );
        assert!(
            !line.contains("進み") && !line.contains("遅れ"),
            "a stale count must not be shown: {line}"
        );
    }
}

#[test]
fn the_header_says_that_only_fast_forward_is_used() {
    let header = pull_header(messages(), &scan(targets(), 0));

    assert!(
        header.contains("fast-forward"),
        "the integration method should be shown before choosing: {header}"
    );
    assert_eq!(header.lines().count(), 1, "1 行に収める: {header}");
}

#[test]
fn the_header_states_how_many_branches_were_left_out() {
    let header = pull_header(messages(), &scan(targets(), 2));

    assert!(header.contains('2'), "the count should be shown: {header}");
    assert!(
        header.contains("除外"),
        "the exclusion should be named: {header}"
    );
    assert_eq!(header.lines().count(), 1, "1 行に収める: {header}");
}

#[test]
fn pull_nothing_is_said_about_exclusions_when_there_were_none() {
    let header = pull_header(messages(), &scan(targets(), 0));

    assert!(
        !header.contains("除外"),
        "an exclusion must not be implied: {header}"
    );
}

#[test]
fn only_the_current_branch_is_preselected() {
    let candidates = targets();
    let lines = aligned_candidates(&candidates, cells);

    assert_eq!(
        preselect(&lines),
        vec!["* main   →  origin/main".to_owned()],
        "選択済みにするのは現在のブランチだけ: {lines:?}"
    );
}

#[test]
fn pull_the_preselected_line_is_the_very_line_shown_in_the_list() {
    let candidates = targets();
    let lines = aligned_candidates(&candidates, cells);

    let displayed: Vec<String> = items(messages(), &lines)
        .iter()
        .map(|item| item.text().to_owned())
        .collect();

    let preselected = preselect(&lines);
    assert_eq!(
        preselected.len(),
        1,
        "unexpected preselection: {preselected:?}"
    );
    for line in &preselected {
        assert!(
            displayed.contains(line),
            "the preselection must be one of the listed lines: {line:?} / {displayed:?}"
        );
    }

    assert!(
        !preselected.contains(&display_line(&target("main", true))),
        "the padding is what makes the two ways differ: {preselected:?}"
    );
}

#[test]
fn nothing_is_preselected_on_a_detached_head() {
    let candidates = vec![target("alpha", false), target("zulu", false)];
    let lines = aligned_candidates(&candidates, cells);

    assert!(preselect(&lines).is_empty());
}

#[test]
fn a_candidate_is_keyed_by_its_branch_name() {
    let candidates = targets();
    let lines = aligned_candidates(&candidates, cells);

    let items = items(messages(), &lines);

    assert_eq!(
        items.iter().map(FinderItem::key).collect::<Vec<_>>(),
        ["main", "alpha", "zulu"]
    );
}

#[test]
fn the_preview_lists_the_commits_that_would_be_integrated() {
    let candidate = target("main", true);

    let sections = sections(&preview_source(messages(), &candidate));

    assert_eq!(sections.len(), 1, "unexpected preview: {sections:?}");
    assert_eq!(
        sections[0].1,
        [
            "log",
            "--color=always",
            "--oneline",
            "-n",
            PREVIEW_COMMIT_COUNT,
            "main..refs/remotes/origin/main",
            "--",
        ]
    );
}

#[test]
fn the_preview_label_says_the_information_is_as_old_as_the_last_fetch() {
    let sections = sections(&preview_source(messages(), &target("main", true)));

    assert!(
        sections[0].0.contains("前回の fetch"),
        "the age of the information should be stated: {label}",
        label = sections[0].0
    );
}

#[test]
fn pull_no_preview_reaches_the_network() {
    for candidate in targets() {
        for (label, arguments) in sections(&preview_source(messages(), &candidate)) {
            assert_eq!(
                arguments.first().map(String::as_str),
                Some("log"),
                "`{label}` must only read local history: {arguments:?}"
            );
            assert!(
                !arguments.iter().any(|argument| argument == "fetch"
                    || argument == "ls-remote"
                    || argument == "--dry-run"),
                "`{label}` must not query the remote: {arguments:?}"
            );
        }
    }
}

#[test]
fn pull_the_selection_is_put_back_into_candidate_order() {
    let candidates = targets();

    let selected = vec!["zulu".to_owned(), "main".to_owned()];

    let targets = in_candidate_order(messages(), &candidates, &selected)
        .expect("keys taken from the candidates should resolve");

    assert_eq!(branches(&targets), ["main", "zulu"]);
}

#[test]
fn a_branch_outside_of_the_candidates_is_rejected() {
    let candidates = targets();
    let selected = vec!["main".to_owned(), "elsewhere".to_owned()];

    let err = in_candidate_order(messages(), &candidates, &selected)
        .expect_err("an unknown branch is rejected");

    assert!(
        err.message(messages()).contains("elsewhere"),
        "the unknown branch should be named: {err:?}"
    );
}

#[test]
fn a_partial_prefix_of_a_candidate_name_is_not_accepted() {
    let candidates = targets();
    let selected = vec!["mai".to_owned()];

    assert!(
        in_candidate_order(messages(), &candidates, &selected).is_err(),
        "the key must match a candidate exactly"
    );
}

#[test]
fn pull_the_fixed_target_is_named_in_the_line_that_replaces_the_finder() {
    let message = fixed_target_message(messages(), &target("main", true));

    assert!(
        message.contains("main"),
        "the branch should be named: {message}"
    );
    assert!(
        message.contains(messages().pull().single_target_reason()),
        "the reason the finder was skipped should be given: {message}"
    );
    assert_eq!(message.lines().count(), 1, "1 行に収める: {message}");
}

#[test]
fn pull_the_fixed_target_is_reported_to_the_given_writer() {
    let only = target("main", true);

    assert_eq!(
        report_target(messages(), &only),
        format!(
            "{message}\n",
            message = fixed_target_message(messages(), &only)
        )
    );
}

type Calls = Rc<RefCell<Vec<Vec<String>>>>;

fn recording(
    mut outcome: impl FnMut(&[String]) -> RunOutcome,
) -> (Calls, impl FnMut(&[String]) -> RunOutcome) {
    let calls: Calls = Rc::new(RefCell::new(Vec::new()));
    let recorded = Rc::clone(&calls);

    let runner = move |args: &[String]| {
        let result = outcome(args);
        recorded.borrow_mut().push(args.to_vec());
        result
    };

    (calls, runner)
}

fn succeed(_args: &[String]) -> RunOutcome {
    RunOutcome::Succeeded
}

fn run_failure() -> RunOutcome {
    RunOutcome::Failed
}

fn pull_each(
    messages: Messages,
    targets: &[&PullTarget],
    written: &mut Vec<u8>,
    mut runner: impl FnMut(&[String]) -> RunOutcome,
) -> Result<PullSummary, Error> {
    let mut run = PullRun::new(targets.to_vec());
    loop {
        match run.next(messages) {
            PullStep::Fetch(args) => run.record(messages, runner(&args))?,
            PullStep::Skip { progress, reason } => {
                written.extend_from_slice(format!("{progress}\n{reason}\n").as_bytes());
                run.skip();
            }
            PullStep::Integrate { progress, args } => {
                written.extend_from_slice(format!("{progress}\n").as_bytes());
                run.record(messages, runner(&args))?;
            }
            PullStep::Done => return Ok(run.summary()),
        }
    }
}

fn recorded(calls: &Calls) -> Vec<Vec<String>> {
    calls.borrow().clone()
}

fn mixed_targets() -> Vec<PullTarget> {
    vec![
        target_on("origin", "main", true),
        target_on("origin", "alpha", false),
        target_on("upstream", "zulu", false),
    ]
}

#[test]
fn every_remote_is_listed_once_in_name_order() {
    let candidates = [
        target_on("upstream", "main", true),
        target_on("origin", "alpha", false),
        target_on("upstream", "zulu", false),
    ];
    let targets: Vec<&PullTarget> = candidates.iter().collect();

    assert_eq!(
        target_remotes(&targets),
        ["origin", "upstream"],
        "one fetch per remote is enough to update every tracking reference"
    );
}

#[test]
fn the_remotes_are_fetched_before_any_branch_is_integrated() {
    let candidates = mixed_targets();
    let targets: Vec<&PullTarget> = candidates.iter().collect();
    let (calls, runner) = recording(succeed);
    let mut written = Vec::new();

    let summary = pull_each(messages(), &targets, &mut written, runner)
        .expect("a successful run should not fail");

    assert_eq!(summary.succeeded, 3);
    assert!(summary.failed.is_empty());
    assert_eq!(
        recorded(&calls),
        [
            remote_fetch_args("origin"),
            remote_fetch_args("upstream"),
            current_branch_args(&candidates[0]),
            other_branch_args(&candidates[1]),
            other_branch_args(&candidates[2]),
        ]
    );
}

#[test]
fn a_branch_is_not_integrated_when_its_remote_could_not_be_fetched() {
    let candidates = mixed_targets();
    let targets: Vec<&PullTarget> = candidates.iter().collect();
    let (calls, runner) = recording(|args: &[String]| {
        if args == remote_fetch_args("origin") {
            run_failure()
        } else {
            RunOutcome::Succeeded
        }
    });
    let mut written = Vec::new();

    let summary = pull_each(messages(), &targets, &mut written, runner)
        .expect("a remote failure is recorded, not propagated");

    assert_eq!(
        summary.failed,
        ["main", "alpha"],
        "every branch following the failed remote must be counted as failed"
    );
    assert_eq!(
        summary.succeeded, 1,
        "the branches of the other remote must still be integrated"
    );
    let calls = recorded(&calls);
    assert!(
        !calls.contains(&current_branch_args(&candidates[0]))
            && !calls.contains(&other_branch_args(&candidates[1])),
        "a stale tracking reference must not be integrated: {calls:?}"
    );
    assert!(
        calls.contains(&other_branch_args(&candidates[2])),
        "the unaffected branch must still run: {calls:?}"
    );
}

#[test]
fn a_skipped_branch_names_both_the_remote_and_the_branch() {
    let line = skipped_line(messages(), &target_on("upstream", "alpha", false));

    assert!(
        line.contains("upstream"),
        "the remote should be named: {line}"
    );
    assert!(line.contains("alpha"), "the branch should be named: {line}");
    assert_eq!(line.lines().count(), 1, "1 行に収める: {line}");
}

#[test]
fn another_branch_is_updated_by_copying_the_tracking_reference() {
    let arguments = other_branch_args(&target("alpha", false));

    assert_eq!(
        arguments,
        ["fetch", ".", "refs/remotes/origin/alpha:refs/heads/alpha"]
    );
}

#[test]
fn the_refspec_never_forces_an_update() {
    let arguments = other_branch_args(&target("alpha", false));
    let refspec = arguments.last().expect("the refspec is the last argument");

    assert!(
        !refspec.starts_with('+'),
        "a forced refspec would drop local commits: {refspec}"
    );
}

#[test]
fn no_argument_of_any_branch_carries_a_forced_refspec() {
    let candidates = [
        target("main", true),
        target("alpha", false),
        target_on("upstream", "feature/login", false),
    ];

    for candidate in candidates {
        for argument in integrate_args(&candidate) {
            assert!(
                !argument.contains('+'),
                "no argument may force an update: {argument}"
            );
        }
    }
}

#[test]
fn the_current_branch_is_integrated_exactly_like_gz_sync_ff_only() {
    for candidate in [
        target("main", true),
        target_on("upstream", "feature/login", true),
    ] {
        assert_eq!(
            integrate_args(&candidate),
            mode_args(PullMode::FfOnly, &candidate.tracking_ref),
            "the two commands must not drift apart: {candidate:?}"
        );
    }
}

#[test]
fn the_current_branch_is_integrated_with_a_fast_forward_only_merge() {
    assert_eq!(
        integrate_args(&target("main", true)),
        ["merge", "--ff-only", "refs/remotes/origin/main"]
    );
}

#[test]
fn the_progress_of_every_branch_is_written_before_it_runs() {
    let candidates = targets();
    let targets: Vec<&PullTarget> = candidates.iter().collect();
    let (_calls, runner) = recording(succeed);
    let mut written = Vec::new();

    pull_each(messages(), &targets, &mut written, runner).expect("the run should succeed");

    let text = String::from_utf8(written).expect("the progress should be utf-8");
    assert_eq!(
        text.lines().collect::<Vec<_>>(),
        ["[1/3] main", "[2/3] alpha", "[3/3] zulu"]
    );
}

#[test]
fn a_branch_that_cannot_fast_forward_does_not_stop_the_remaining_ones() {
    let candidates = targets();
    let targets: Vec<&PullTarget> = candidates.iter().collect();
    let failing = other_branch_args(&candidates[1]);
    let (calls, runner) = recording(move |args: &[String]| {
        if args == failing {
            run_failure()
        } else {
            RunOutcome::Succeeded
        }
    });
    let mut written = Vec::new();

    let summary = pull_each(messages(), &targets, &mut written, runner)
        .expect("a branch failure is recorded, not propagated");

    assert_eq!(summary.succeeded, 2);
    assert_eq!(summary.failed, ["alpha"]);
    assert!(summary.has_fast_forward_failure());
    assert_eq!(
        recorded(&calls).len(),
        4,
        "every branch must be visited after one fetch of the remote"
    );
}

#[test]
fn a_failure_to_start_git_stops_the_run_before_any_branch() {
    let candidates = targets();
    let targets: Vec<&PullTarget> = candidates.iter().collect();
    let (calls, runner) = recording(|_args: &[String]| {
        RunOutcome::NotStarted(StartFailure::GitNotFound)
    });
    let mut written = Vec::new();

    let err = pull_each(messages(), &targets, &mut written, runner)
        .expect_err("a broken environment must stop the run");

    assert!(
        matches!(
            &err,
            Error::NotStarted {
                cause: StartFailure::GitNotFound,
                ..
            }
        ),
        "the reason should be kept: {err:?}"
    );
    assert_eq!(
        recorded(&calls).len(),
        1,
        "the branches after the failure must not be visited"
    );
    assert!(
        String::from_utf8(written)
            .expect("the progress should be utf-8")
            .is_empty(),
        "no branch should be announced once the run is stopped"
    );
}

#[test]
fn a_spawn_failure_stops_the_remaining_branches() {
    let candidates = targets();
    let targets: Vec<&PullTarget> = candidates.iter().collect();
    let (calls, runner) = recording(|args: &[String]| {
        if args.first().map(String::as_str) == Some("merge") {
            RunOutcome::NotStarted(StartFailure::SpawnFailed {
                args: args.join(" "),
                reason: "denied".to_owned(),
            })
        } else {
            RunOutcome::Succeeded
        }
    });
    let mut written = Vec::new();

    let err = pull_each(messages(), &targets, &mut written, runner)
        .expect_err("a broken environment must stop the run");

    assert!(
        err.message(messages()).contains("main"),
        "the branch should be named: {err:?}"
    );
    assert_eq!(
        recorded(&calls).len(),
        2,
        "the branches after the failure must not be visited"
    );
}

#[test]
fn pull_a_run_without_failures_is_a_success() {
    let summary = PullSummary {
        succeeded: 3,
        ..PullSummary::default()
    };

    assert!(!summary.has_failure());
    assert_eq!(summary_line(messages(), &summary), "成功 3 件 / 失敗 0 件");
}

#[test]
fn the_summary_names_the_branches_that_failed() {
    let summary = PullSummary {
        succeeded: 1,
        failed: vec!["alpha".to_owned(), "zulu".to_owned()],
        not_fast_forwarded: 2,
    };

    assert!(summary.has_failure());
    let line = summary_line(messages(), &summary);
    assert!(
        line.contains("成功 1 件 / 失敗 2 件"),
        "both counts should be shown: {line}"
    );
    assert!(
        line.contains("alpha") && line.contains("zulu"),
        "the failed branches should be named: {line}"
    );
    assert_eq!(line.lines().count(), 1, "1 行に収める: {line}");
}

#[test]
fn nothing_is_suggested_when_every_branch_succeeded() {
    let summary = PullSummary {
        succeeded: 2,
        ..PullSummary::default()
    };

    let text = report_summary(messages(), &summary);
    assert_eq!(
        text.lines().count(),
        1,
        "the summary is all there is: {text}"
    );
    assert!(
        !text.contains("gz sync"),
        "an unnecessary next step must not be suggested: {text}"
    );
}

#[test]
fn gz_sync_is_suggested_when_a_fast_forward_failed() {
    let summary = PullSummary {
        succeeded: 1,
        failed: vec!["alpha".to_owned()],
        not_fast_forwarded: 1,
    };

    let text = report_summary(messages(), &summary);
    assert!(
        text.contains("gz pull --rebase") && text.contains("gz pull --merge"),
        "both ways of resolving a divergence should be offered: {text}"
    );
    assert_eq!(text.lines().count(), 2, "1 行だけ添える: {text}");
}

#[test]
fn nothing_is_suggested_for_a_branch_that_was_never_attempted() {
    let summary = PullSummary {
        succeeded: 0,
        failed: vec!["main".to_owned()],
        not_fast_forwarded: 0,
    };

    let text = report_summary(messages(), &summary);
    assert!(
        !text.contains("gz sync"),
        "the failure was not a divergence: {text}"
    );
}

fn plain_texts(language: Language) -> Vec<&'static str> {
    let pull = language.messages().pull();

    vec![
        pull.targets_read_failed(),
        pull.no_candidates(),
        pull.header(),
        pull.single_target_reason(),
        pull.unmerged_section(),
        pull.fast_forward_guidance(),
        pull.partial_failure(),
    ]
}

fn texts_with_arguments(language: Language) -> Vec<(String, &'static str)> {
    let pull = language.messages().pull();

    vec![
        (pull.excluded_count(2), "2"),
        (pull.fixed_target("main"), "main"),
        (pull.selection_not_found("alpha, zulu"), "zulu"),
        (pull.skipped("origin", "alpha"), "origin"),
        (pull.skipped("origin", "alpha"), "alpha"),
        (pull.fetch_start_failed("upstream"), "upstream"),
        (pull.integration_start_failed("main"), "main"),
    ]
}

#[test]
fn every_pull_message_is_filled_in_for_both_languages() {
    for language in [Language::Japanese, Language::English] {
        for text in plain_texts(language) {
            assert!(!text.trim().is_empty(), "{language:?} left a message empty");
        }
    }
}

#[test]
fn every_pull_message_expands_its_arguments() {
    for language in [Language::Japanese, Language::English] {
        for (text, argument) in texts_with_arguments(language) {
            assert!(
                text.contains(argument),
                "{language:?} must mention `{argument}`: {text}"
            );
        }
    }
}

#[test]
fn the_pull_wording_is_translated() {
    for (japanese, english) in plain_texts(Language::Japanese)
        .into_iter()
        .zip(plain_texts(Language::English))
    {
        assert_ne!(japanese, english, "the wording must be translated");
    }

    for ((japanese, _), (english, _)) in texts_with_arguments(Language::Japanese)
        .into_iter()
        .zip(texts_with_arguments(Language::English))
    {
        assert_ne!(japanese, english, "the wording must be translated");
    }
}

#[test]
fn the_english_summary_is_translated_as_well() {
    let summary = PullSummary {
        succeeded: 1,
        failed: vec!["alpha".to_owned()],
        not_fast_forwarded: 1,
    };

    let japanese = summary_line(Language::Japanese.messages(), &summary);
    let english = summary_line(Language::English.messages(), &summary);

    assert_ne!(japanese, english, "the summary must be translated");
    assert!(
        english.contains('1') && english.contains("alpha"),
        "the counts and the failed branch should be shown: {english}"
    );
    assert_eq!(english.lines().count(), 1, "1 行に収める: {english}");
}

#[test]
fn pull_the_english_header_keeps_the_sections_on_one_line() {
    let header = pull_header(Language::English.messages(), &scan(targets(), 2));

    assert_eq!(header.lines().count(), 1, "1 行に収める: {header}");
    assert!(
        header.contains(HEADER_SEPARATOR),
        "the sections should be separated: {header}"
    );
    assert!(
        header.contains("fast-forward"),
        "the integration method is git vocabulary and stays as it is: {header}"
    );
    assert!(header.contains('2'), "the count should be shown: {header}");
}

#[test]
fn the_preview_label_states_the_age_of_the_information_in_both_languages() {
    for language in [Language::Japanese, Language::English] {
        let sections = sections(&preview_source(language.messages(), &target("main", true)));

        assert!(
            sections[0].0.contains("fetch"),
            "{language:?} should state when the information was taken: {label}",
            label = sections[0].0
        );
    }
}

#[test]
fn the_arguments_are_the_same_in_every_language() {
    let candidates = targets();
    let targets: Vec<&PullTarget> = candidates.iter().collect();

    let mut runs = Vec::new();
    for language in [Language::Japanese, Language::English] {
        let (calls, runner) = recording(succeed);
        let mut written = Vec::new();

        pull_each(language.messages(), &targets, &mut written, runner)
            .expect("a successful run should not fail");

        runs.push((
            recorded(&calls),
            String::from_utf8(written).expect("the progress should be utf-8"),
        ));
    }

    let [
        (japanese_calls, japanese_progress),
        (english_calls, english_progress),
    ] = runs.as_slice()
    else {
        panic!("both languages should have been run: {runs:?}");
    };
    assert_eq!(
        japanese_calls, english_calls,
        "the arguments handed to git must not depend on the language"
    );
    assert!(
        japanese_calls.contains(&mode_args(PullMode::FfOnly, &candidates[0].tracking_ref)),
        "the current branch keeps using the `gz sync` ff-only arguments: {japanese_calls:?}"
    );
    assert_eq!(
        japanese_progress, english_progress,
        "the progress lines carry numbers and branch names only"
    );
}

fn current_target() -> CurrentTarget {
    CurrentTarget {
        branch: "main".to_owned(),
        remote: "origin".to_owned(),
        reference: "refs/remotes/origin/main".to_owned(),
    }
}

#[test]
fn no_flag_integrates_by_fast_forward_only() {
    assert_eq!(
        PullMode::from_flags(messages(), false, false).expect("no flag is a valid combination"),
        PullMode::FfOnly
    );
}

#[test]
fn each_integration_flag_selects_its_own_mode() {
    assert_eq!(
        PullMode::from_flags(messages(), true, false).expect("--rebase is valid on its own"),
        PullMode::Rebase
    );
    assert_eq!(
        PullMode::from_flags(messages(), false, true).expect("--merge is valid on its own"),
        PullMode::Merge
    );
}

#[test]
fn combining_the_integration_flags_is_rejected() {
    let err = PullMode::from_flags(messages(), true, true)
        .expect_err("the modes are mutually exclusive");

    assert!(
        err.message(messages()).contains("同時に指定できません"),
        "unexpected error: {err:?}"
    );
}

#[test]
fn the_default_never_falls_back_to_merge_or_rebase() {
    let arguments = mode_args(PullMode::FfOnly, "refs/remotes/origin/main");

    assert_eq!(
        arguments,
        ["merge", "--ff-only", "refs/remotes/origin/main"]
    );
}

#[test]
fn merging_passes_the_tracking_reference_without_the_fast_forward_option() {
    assert_eq!(
        mode_args(PullMode::Merge, "refs/remotes/origin/main"),
        ["merge", "refs/remotes/origin/main"]
    );
}

#[test]
fn rebasing_replays_onto_the_tracking_reference() {
    assert_eq!(
        mode_args(PullMode::Rebase, "refs/remotes/origin/feature/login"),
        ["rebase", "refs/remotes/origin/feature/login"]
    );
}

#[test]
fn fetching_names_the_remote_and_nothing_else() {
    assert_eq!(remote_fetch_args("origin"), ["fetch", "origin"]);
}

#[test]
fn the_confirmation_names_the_upstream_the_count_and_the_branch() {
    let header = confirmation_header(messages(), &current_target(), 3, PullMode::FfOnly);

    assert!(
        header.contains("`refs/remotes/origin/main`"),
        "unexpected header: {header}"
    );
    assert!(header.contains("3 件"), "unexpected header: {header}");
    assert!(header.contains("`main`"), "unexpected header: {header}");
}

#[test]
fn only_the_rebase_confirmation_warns_about_the_rewritten_history() {
    let rebase = confirmation_header(messages(), &current_target(), 2, PullMode::Rebase);
    assert!(
        rebase.contains("コミットハッシュが変わります"),
        "a history rewrite must be spelled out: {rebase}"
    );

    for mode in [PullMode::FfOnly, PullMode::Merge] {
        let header = confirmation_header(messages(), &current_target(), 2, mode);
        assert!(
            !header.contains("コミットハッシュが変わります"),
            "{mode:?} does not rewrite history: {header}"
        );
    }
}

#[test]
fn the_history_note_belongs_to_the_rebase_mode_only() {
    let messages = messages();

    assert_eq!(
        PullMode::Rebase.note(messages),
        Some(messages.common().history_rewrite_note())
    );
    assert_eq!(PullMode::FfOnly.note(messages), None);
    assert_eq!(PullMode::Merge.note(messages), None);
}

#[test]
fn pull_the_confirmation_shows_the_command_that_runs() {
    let arguments = mode_args(PullMode::Rebase, "refs/remotes/origin/main");

    assert_eq!(
        command_display(&arguments),
        "git rebase refs/remotes/origin/main"
    );
}

#[test]
fn being_up_to_date_is_reported_without_an_error() {
    let text = report_up_to_date(messages(), &current_target(), 0);

    assert!(text.contains("最新です"), "unexpected message: {text}");
    assert!(
        !text.contains("push していない"),
        "there is nothing to push: {text}"
    );
}

#[test]
fn the_commits_that_are_not_pushed_yet_are_mentioned() {
    let message = up_to_date_message(messages(), &current_target(), 2);

    assert!(
        message.contains("最新です"),
        "unexpected message: {message}"
    );
    assert!(
        message.contains("2 件"),
        "the local commits should be counted: {message}"
    );
}

#[test]
fn every_upstream_message_is_filled_in_for_both_languages() {
    for language in [Language::Japanese, Language::English] {
        let upstream = language.messages().pull();

        assert!(
            !upstream.conflicting_modes().trim().is_empty(),
            "{language:?} left a message empty"
        );

        for (text, argument) in [
            (upstream.fetch_failed("origin"), "origin"),
            (
                upstream.tracking_ref_unavailable("main", "origin", "refs/heads/main"),
                "refs/heads/main",
            ),
            (
                upstream.unknown_remote("main", "https://example.com/x.git"),
                "https://example.com/x.git",
            ),
            (
                upstream.missing_tracking_ref("refs/remotes/origin/main", "origin", "main"),
                "refs/remotes/origin/main",
            ),
            (
                upstream.up_to_date("main", "refs/remotes/origin/main"),
                "refs/remotes/origin/main",
            ),
            (upstream.unpushed_commits(2), "2"),
            (
                upstream.integration_failed("refs/remotes/origin/main"),
                "refs/remotes/origin/main",
            ),
            (
                upstream.confirmation("refs/remotes/origin/main", 3, "main"),
                "3",
            ),
        ] {
            assert!(
                text.contains(argument),
                "{language:?} must mention `{argument}`: {text}"
            );
        }
    }
}

#[test]
fn the_upstream_wording_is_translated() {
    let japanese = Language::Japanese.messages().pull();
    let english = Language::English.messages().pull();

    assert_ne!(japanese.conflicting_modes(), english.conflicting_modes());
    assert_ne!(
        japanese.fetch_failed("origin"),
        english.fetch_failed("origin")
    );
    assert_ne!(
        japanese.tracking_ref_unavailable("main", "origin", "refs/heads/main"),
        english.tracking_ref_unavailable("main", "origin", "refs/heads/main")
    );
    assert_ne!(
        japanese.unknown_remote("main", "origin"),
        english.unknown_remote("main", "origin")
    );
    assert_ne!(
        japanese.missing_tracking_ref("refs/remotes/origin/main", "origin", "main"),
        english.missing_tracking_ref("refs/remotes/origin/main", "origin", "main")
    );
    assert_ne!(
        japanese.up_to_date("main", "refs/remotes/origin/main"),
        english.up_to_date("main", "refs/remotes/origin/main")
    );
    assert_ne!(japanese.unpushed_commits(2), english.unpushed_commits(2));
    assert_ne!(
        japanese.integration_failed("refs/remotes/origin/main"),
        english.integration_failed("refs/remotes/origin/main")
    );
    assert_ne!(
        japanese.confirmation("refs/remotes/origin/main", 3, "main"),
        english.confirmation("refs/remotes/origin/main", 3, "main")
    );
}

#[test]
fn the_english_count_agrees_with_the_noun_it_qualifies() {
    let english = Language::English.messages().pull();

    assert!(
        english
            .confirmation("refs/remotes/origin/main", 1, "main")
            .contains("1 commit "),
        "a single commit must not be pluralised: {text}",
        text = english.confirmation("refs/remotes/origin/main", 1, "main")
    );
    assert!(
        english
            .confirmation("refs/remotes/origin/main", 2, "main")
            .contains("2 commits "),
        "several commits must be pluralised: {text}",
        text = english.confirmation("refs/remotes/origin/main", 2, "main")
    );
    assert!(
        english.unpushed_commits(1).contains("1 commit has"),
        "the verb must agree as well: {text}",
        text = english.unpushed_commits(1)
    );
    assert!(
        english.unpushed_commits(3).contains("3 commits have"),
        "the verb must agree as well: {text}",
        text = english.unpushed_commits(3)
    );
}

#[test]
fn a_missing_tracking_reference_names_the_remote_and_the_branch() {
    let message = missing_tracking_message(messages(), &current_target());

    assert!(
        message.contains("refs/remotes/origin/main"),
        "unexpected message: {message}"
    );
    assert!(message.contains("origin"), "unexpected message: {message}");
    assert!(message.contains("main"), "unexpected message: {message}");
}
