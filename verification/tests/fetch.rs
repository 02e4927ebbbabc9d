use std::cell::RefCell;

use fuzgit::commands::fetch::phases::{
    summary_line, worker_count, CapturedRun, FetchSummary, ParallelPhase, ParallelResult,
    SerialPhase,
};
use fuzgit::commands::fetch::{
    all_remotes_preview, fetch_args, fetch_jobs, fixed_target_message, in_candidate_order, items,
    parse_fetch_jobs, preselect, preview_source, progress_line, report_line, report_target,
    resolve, sibling_cells, sibling_fetch_args, sibling_header, sibling_highlights, sibling_items,
    sibling_preview_source, sibling_tracking_args, FetchDecision, FetchTarget, PruneMode,
    SiblingsDecision, ALL_REMOTES_KEY, ALL_REMOTES_OPTION, DEFAULT_FETCH_JOBS, DETACHED_LABEL,
    NO_OPTIONAL_LOCKS, PRUNE_OPTION,
};
use fuzgit::commands::{aligned_candidates, COLUMN_SEPARATOR, HEADER_SEPARATOR};
use fuzgit::error::{Error, RunOutcome, StartFailure};
use fuzgit::finder::{FinderItem, Highlight, HighlightColor, PreviewSource};
use fuzgit::git::{
    branch_tracking_args, remote_tracking_refs_args, remote_url_args, SiblingRepository,
    SiblingScan, WorkPath,
};
use fuzgit::i18n::{Language, Messages};

fn messages() -> Messages {
    Language::Japanese.messages()
}

fn remotes() -> Vec<String> {
    ["origin", "upstream"]
        .into_iter()
        .map(str::to_owned)
        .collect()
}

#[test]
fn the_default_number_of_jobs_is_four() {
    assert_eq!(DEFAULT_FETCH_JOBS, 4);
}

#[test]
fn an_unset_fetch_jobs_setting_falls_back_to_the_default() {
    assert_eq!(
        parse_fetch_jobs(None).expect("an unset value must be accepted"),
        DEFAULT_FETCH_JOBS
    );
}

#[test]
fn an_empty_fetch_jobs_setting_is_treated_as_unset() {
    assert_eq!(
        parse_fetch_jobs(Some("")).expect("an empty value must be treated as unset"),
        DEFAULT_FETCH_JOBS
    );
}

#[test]
fn a_positive_fetch_jobs_setting_is_used_as_written() {
    for (value, expected) in [("1", 1), ("8", 8)] {
        let jobs = parse_fetch_jobs(Some(value)).expect("a positive integer must be accepted");
        assert_eq!(jobs, expected, "{value} must be used as written");
    }
}

#[test]
fn zero_jobs_is_rejected_instead_of_falling_back_to_the_default() {
    let error = parse_fetch_jobs(Some("0")).expect_err("zero must stop the command");

    match error {
        Error::InvalidFetchJobs { value } => assert_eq!(value, "0"),
        other => panic!("unexpected error: {other:?}"),
    }
}

#[test]
fn a_negative_fetch_jobs_setting_is_rejected() {
    let error =
        parse_fetch_jobs(Some("-1")).expect_err("a negative value must stop the command");

    match error {
        Error::InvalidFetchJobs { value } => assert_eq!(value, "-1"),
        other => panic!("unexpected error: {other:?}"),
    }
}

#[test]
fn a_fetch_jobs_setting_that_is_not_an_integer_is_rejected() {
    let error = parse_fetch_jobs(Some("abc")).expect_err("a non-integer must stop the command");

    match error {
        Error::InvalidFetchJobs { value } => assert_eq!(value, "abc"),
        other => panic!("unexpected error: {other:?}"),
    }
}

#[test]
fn the_number_of_jobs_is_read_from_the_repository_configuration() {
    let jobs = fetch_jobs(Some(b"8")).expect("the setting should be readable");

    assert_eq!(jobs, 8);
}

#[test]
fn an_unset_configuration_key_is_reported_as_absent() {
    assert_eq!(fetch_jobs(None), Ok(DEFAULT_FETCH_JOBS));
}

#[test]
fn an_invalid_configured_value_stops_before_anything_runs() {
    let error = fetch_jobs(Some(b"0")).expect_err("an invalid setting must stop the command");

    match error {
        Error::InvalidFetchJobs { value } => assert_eq!(value, "0"),
        other => panic!("unexpected error: {other:?}"),
    }
}

#[test]
fn fetching_a_remote_passes_its_name_as_it_was_listed() {
    assert_eq!(
        fetch_args(&FetchTarget::Remote("origin".to_owned()), PruneMode::Keep),
        ["fetch", "origin"]
    );
}

#[test]
fn fetching_everything_uses_the_all_option_instead_of_a_name() {
    let arguments = fetch_args(&FetchTarget::All, PruneMode::Keep);

    assert_eq!(arguments, ["fetch", ALL_REMOTES_OPTION]);
    assert!(
        !arguments.iter().any(|argument| argument == ALL_REMOTES_KEY),
        "the finder key must never reach git: {arguments:?}"
    );
}

#[test]
fn pruning_is_added_only_when_it_was_asked_for() {
    assert_eq!(
        fetch_args(&FetchTarget::Remote("origin".to_owned()), PruneMode::Prune),
        ["fetch", PRUNE_OPTION, "origin"]
    );
    assert_eq!(
        fetch_args(&FetchTarget::All, PruneMode::Prune),
        ["fetch", PRUNE_OPTION, ALL_REMOTES_OPTION]
    );
}

#[test]
fn the_tracking_references_are_left_alone_unless_pruning_was_asked_for() {
    assert_eq!(PruneMode::Keep.option(), None);
    assert_eq!(PruneMode::Prune.option(), Some(PRUNE_OPTION));
}

#[test]
fn a_remote_name_resolves_to_that_remote() {
    assert_eq!(
        resolve(messages(), &remotes(), "upstream").expect("a listed remote should resolve"),
        FetchTarget::Remote("upstream".to_owned())
    );
}

#[test]
fn the_fixed_key_resolves_to_every_remote() {
    assert_eq!(
        resolve(messages(), &remotes(), ALL_REMOTES_KEY).expect("the fixed key should resolve"),
        FetchTarget::All
    );
}

#[test]
fn a_name_outside_of_the_candidates_is_rejected() {
    let err = resolve(messages(), &remotes(), "elsewhere")
        .expect_err("an unknown remote must be rejected");

    assert!(
        err.message(messages()).contains("elsewhere"),
        "the unknown remote should be named: {err:?}"
    );
}

#[test]
fn the_label_of_the_fixed_candidate_is_not_mistaken_for_a_remote() {
    let label = messages().fetch().all_remotes_label();
    let remotes = vec![label.to_owned()];

    assert_eq!(
        resolve(messages(), &remotes, label).expect("the remote should resolve"),
        FetchTarget::Remote(label.to_owned())
    );
    assert_eq!(
        resolve(messages(), &remotes, ALL_REMOTES_KEY).expect("the fixed key should resolve"),
        FetchTarget::All
    );
}

#[test]
fn the_fixed_candidate_comes_after_the_remotes() {
    let items = items(messages(), &remotes());

    assert_eq!(
        items.iter().map(FinderItem::key).collect::<Vec<_>>(),
        ["origin", "upstream", ALL_REMOTES_KEY]
    );
}

#[test]
fn a_single_remote_is_fetched_without_starting_the_finder() {
    assert_eq!(
        FetchDecision::from_remotes(&["origin".to_owned()]),
        FetchDecision::Fixed(FetchTarget::Remote("origin".to_owned()))
    );
}

#[test]
fn several_remotes_are_left_to_the_finder() {
    assert_eq!(
        FetchDecision::from_remotes(&remotes()),
        FetchDecision::Choose
    );
}

#[test]
fn three_remotes_are_left_to_the_finder_as_well() {
    let remotes = ["origin", "upstream", "fork"].map(str::to_owned);

    assert_eq!(FetchDecision::from_remotes(&remotes), FetchDecision::Choose);
}

#[test]
fn no_remote_at_all_is_decided_before_any_selection() {
    assert_eq!(FetchDecision::from_remotes(&[]), FetchDecision::NoRemote);
}

#[test]
fn fetch_the_fixed_target_is_named_in_the_line_that_replaces_the_finder() {
    let message = fixed_target_message(messages(), &FetchTarget::Remote("origin".to_owned()));

    assert!(
        message.contains("origin"),
        "the remote should be named: {message}"
    );
    assert!(
        message.contains("選択を省略しました"),
        "the reason the finder was skipped should be given: {message}"
    );
    assert_eq!(message.lines().count(), 1, "1 行に収める: {message}");
}

#[test]
fn fetch_the_fixed_target_is_reported_to_the_given_writer() {
    let text = report_target(messages(), &FetchTarget::Remote("origin".to_owned()));

    assert_eq!(
        text,
        format!(
            "{message}\n",
            message =
                fixed_target_message(messages(), &FetchTarget::Remote("origin".to_owned()))
        )
    );
}

#[test]
fn the_fixed_target_of_a_single_remote_fetches_only_that_remote() {
    let FetchDecision::Fixed(target) = FetchDecision::from_remotes(&["origin".to_owned()])
    else {
        panic!("a single remote should be fixed without a selection");
    };

    assert_eq!(fetch_args(&target, PruneMode::Keep), ["fetch", "origin"]);
    assert_eq!(
        fetch_args(&target, PruneMode::Prune),
        ["fetch", PRUNE_OPTION, "origin"]
    );
}

fn sections(source: &PreviewSource) -> Vec<(String, Vec<String>)> {
    let PreviewSource::Composite(sections) = source else {
        panic!("unexpected preview: {source:?}");
    };

    sections
        .iter()
        .map(|(label, source)| {
            let PreviewSource::Git(arguments) = source else {
                panic!("`{label}` should run git: {source:?}");
            };
            (label.clone(), arguments.clone())
        })
        .collect()
}

#[test]
fn a_preview_reads_local_information_only() {
    let sections = sections(&preview_source(messages(), "origin"));

    assert_eq!(
        sections
            .iter()
            .map(|(label, _)| label.as_str())
            .collect::<Vec<_>>(),
        [
            messages().fetch().url_section(),
            messages().fetch().tracking_section()
        ]
    );
    assert_eq!(sections[0].1, remote_url_args("origin"));
    assert_eq!(sections[1].1, remote_tracking_refs_args("origin"));
}

#[test]
fn fetch_no_preview_reaches_the_network() {
    let previews = [
        preview_source(messages(), "origin"),
        all_remotes_preview(&remotes()),
    ];

    for preview in &previews {
        for (label, arguments) in sections(preview) {
            assert!(
                matches!(arguments[0].as_str(), "remote" | "for-each-ref"),
                "`{label}` must not reach the network: {arguments:?}"
            );
            assert!(
                !arguments.iter().any(|argument| argument == "fetch"
                    || argument == "ls-remote"
                    || argument == "--dry-run"),
                "`{label}` must not query the remote: {arguments:?}"
            );
        }
    }
}

#[test]
fn the_preview_of_every_remote_lists_each_url_under_its_own_name() {
    let sections = sections(&all_remotes_preview(&remotes()));

    assert_eq!(
        sections
            .iter()
            .map(|(label, _)| label.as_str())
            .collect::<Vec<_>>(),
        ["origin", "upstream"]
    );
    assert_eq!(sections[0].1, remote_url_args("origin"));
    assert_eq!(sections[1].1, remote_url_args("upstream"));
}

#[test]
fn the_target_is_named_in_the_failure_message() {
    assert_eq!(
        FetchTarget::Remote("origin".to_owned()).description(messages()),
        "リモート `origin`"
    );
    assert_eq!(
        FetchTarget::All.description(messages()),
        messages().fetch().all_remotes_label()
    );
}

fn sibling(name: &str, is_current: bool) -> SiblingRepository {
    SiblingRepository {
        workdir: WorkPath::Text(format!("/repos/{name}")),
        name: name.to_owned(),
        current_branch: Some("main".to_owned()),
        remotes: vec!["origin".to_owned()],
        is_current,
    }
}

fn siblings() -> Vec<SiblingRepository> {
    vec![
        sibling("mike", true),
        sibling("alpha", false),
        sibling("zulu", false),
    ]
}

fn sibling_line(candidate: &SiblingRepository) -> String {
    sibling_cells(candidate).join(COLUMN_SEPARATOR)
}

fn scan(candidates: Vec<SiblingRepository>, excluded: usize) -> SiblingScan {
    SiblingScan {
        candidates,
        excluded,
    }
}

fn keys(targets: &[&SiblingRepository]) -> Vec<String> {
    targets
        .iter()
        .map(|target| target.name.clone())
        .collect::<Vec<_>>()
}

fn subcommand(arguments: &[String]) -> &str {
    arguments
        .iter()
        .map(String::as_str)
        .find(|argument| !argument.starts_with('-'))
        .unwrap_or_default()
}

fn git_in_sections(source: &PreviewSource) -> Vec<(String, WorkPath, Vec<String>)> {
    let PreviewSource::Composite(sections) = source else {
        panic!("unexpected preview: {source:?}");
    };

    sections
        .iter()
        .map(|(label, source)| {
            let PreviewSource::GitIn { directory, args } = source else {
                panic!("`{label}` should run git in the sibling: {source:?}");
            };
            (label.clone(), directory.duplicate(), args.clone())
        })
        .collect()
}

fn destination_range(line: &str, content: &str) -> (usize, usize) {
    let trimmed = line.trim_end();
    (trimmed.len() - content.len(), trimmed.len())
}

#[test]
fn the_stream_destination_column_is_coloured() {
    let candidate = sibling("api", false);
    let lines = aligned_candidates(std::slice::from_ref(&candidate), sibling_cells);
    let (_, line) = &lines[0];
    let (start, end) = destination_range(line, "origin/main");

    assert_eq!(
        sibling_highlights(line, &candidate),
        [Highlight::new(start, end, HighlightColor::Blue)]
    );
}

#[test]
fn a_detached_repository_marks_its_state_instead() {
    let mut candidate = sibling("api", false);
    candidate.current_branch = None;
    let lines = aligned_candidates(std::slice::from_ref(&candidate), sibling_cells);
    let (_, line) = &lines[0];
    let (start, end) = destination_range(line, DETACHED_LABEL);

    assert_eq!(
        sibling_highlights(line, &candidate),
        [Highlight::new(start, end, HighlightColor::Yellow)]
    );
}

#[test]
fn the_coloured_range_survives_a_multibyte_directory_name() {
    let mut wide = sibling("日本語のリポジトリ", false);
    wide.remotes = vec!["origin".to_owned(), "upstream".to_owned()];
    let candidates = vec![wide, sibling("api", false)];
    let lines = aligned_candidates(&candidates, sibling_cells);

    for (candidate, line) in &lines {
        let content = sibling_cells(candidate)
            .pop()
            .expect("a candidate line has columns");
        let (start, end) = destination_range(line, &content);

        assert_eq!(
            sibling_highlights(line, candidate),
            [Highlight::new(start, end, HighlightColor::Blue)],
            "the destination column should be selected in {line:?}"
        );
    }
}

#[test]
fn a_candidate_line_pairs_every_remote_with_the_branch() {
    let mut candidate = sibling("alpha", false);
    candidate.remotes = vec!["origin".to_owned(), "upstream".to_owned()];

    let line = sibling_line(&candidate);

    assert_eq!(line, "alpha  origin/main, upstream/main");
}

#[test]
fn a_candidate_line_shows_the_directory_and_the_remote_branch() {
    let mut candidate = sibling("advent-calendar", false);
    candidate.current_branch = Some("master".to_owned());

    let line = sibling_line(&candidate);

    assert_eq!(line, "advent-calendar  origin/master");
}

#[test]
fn a_detached_head_is_shown_as_such_instead_of_a_branch() {
    let mut candidate = sibling("alpha", false);
    candidate.current_branch = None;

    let line = sibling_line(&candidate);

    assert!(
        line.contains(DETACHED_LABEL),
        "a detached HEAD should be named: {line}"
    );

    assert_eq!(line, "alpha  origin  detached HEAD");
}

#[test]
fn the_header_states_how_many_repositories_were_left_out() {
    let header = sibling_header(messages(), &scan(siblings(), 2), PruneMode::Keep);

    assert!(header.contains('2'), "the count should be shown: {header}");
    assert!(
        header.contains("除外"),
        "the exclusion should be named: {header}"
    );
    assert_eq!(header.lines().count(), 1, "1 行に収める: {header}");
}

#[test]
fn fetch_nothing_is_said_about_exclusions_when_there_were_none() {
    let header = sibling_header(messages(), &scan(siblings(), 0), PruneMode::Keep);

    assert!(
        !header.contains("除外"),
        "an exclusion must not be implied: {header}"
    );
}

#[test]
fn the_header_states_that_pruning_applies_to_every_selected_repository() {
    let pruning = sibling_header(messages(), &scan(siblings(), 0), PruneMode::Prune);
    let keeping = sibling_header(messages(), &scan(siblings(), 0), PruneMode::Keep);

    assert!(
        pruning.contains(messages().fetch().prune_scope_note()),
        "the scope of --prune should be shown: {pruning}"
    );
    assert!(
        !keeping.contains(PRUNE_OPTION),
        "--prune must not be implied when it was not asked for: {keeping}"
    );
}

#[test]
fn a_lone_current_repository_is_fetched_without_starting_the_finder() {
    assert_eq!(
        SiblingsDecision::from_candidates(&[sibling("mike", true)]),
        SiblingsDecision::Fixed
    );
}

#[test]
fn a_lone_sibling_is_still_offered_for_selection() {
    assert_eq!(
        SiblingsDecision::from_candidates(&[sibling("alpha", false)]),
        SiblingsDecision::Choose
    );
}

#[test]
fn several_candidates_are_left_to_the_finder() {
    assert_eq!(
        SiblingsDecision::from_candidates(&siblings()),
        SiblingsDecision::Choose
    );
}

#[test]
fn no_candidate_at_all_is_decided_before_any_selection() {
    assert_eq!(
        SiblingsDecision::from_candidates(&[]),
        SiblingsDecision::NoCandidate
    );
}

#[test]
fn only_the_current_repository_is_preselected() {
    let candidates = siblings();
    let lines = aligned_candidates(&candidates, sibling_cells);

    assert_eq!(
        preselect(&lines),
        vec!["mike   origin/main".to_owned()],
        "選択済みにするのは現在のリポジトリだけ: {lines:?}"
    );
}

#[test]
fn fetch_the_preselected_line_is_the_very_line_shown_in_the_list() {
    let candidates = vec![sibling("mike", true), sibling("advent-calendar", false)];
    let lines = aligned_candidates(&candidates, sibling_cells);

    let items = sibling_items(messages(), &lines)
        .expect("a utf-8 path should be usable as a key");
    let displayed: Vec<String> = items.iter().map(|item| item.text().to_owned()).collect();

    let preselected = preselect(&lines);
    assert_eq!(
        preselected.len(),
        1,
        "unexpected preselection: {preselected:?}"
    );
    for line in &preselected {
        assert!(
            displayed.contains(line),
            "the preselection must be one of the listed lines: {line:?} / {displayed:?}"
        );
    }

    assert!(
        !preselected.contains(&sibling_line(&candidates[0])),
        "the padding is what makes the two ways differ: {preselected:?}"
    );
}

#[test]
fn a_candidate_is_keyed_by_its_normalized_path() {
    let candidates = siblings();

    let lines = aligned_candidates(&candidates, sibling_cells);

    let items = sibling_items(messages(), &lines)
        .expect("a utf-8 path should be usable as a key");

    assert_eq!(
        items.iter().map(FinderItem::key).collect::<Vec<_>>(),
        ["/repos/mike", "/repos/alpha", "/repos/zulu"]
    );
}

#[test]
fn the_preview_takes_no_optional_locks() {
    let arguments = sibling_tracking_args();

    assert_eq!(
        arguments.first().map(String::as_str),
        Some(NO_OPTIONAL_LOCKS),
        "the option must come before the subcommand: {arguments:?}"
    );
    assert_eq!(arguments[1..], branch_tracking_args()[..]);
}

#[test]
fn no_sibling_preview_walks_the_work_tree() {
    let sections = git_in_sections(&sibling_preview_source(
        messages(),
        &sibling("alpha", false),
    ));

    for (label, _, arguments) in sections {
        assert!(
            matches!(subcommand(&arguments), "remote" | "for-each-ref"),
            "`{label}` must not walk the work tree: {arguments:?}"
        );
    }
}

#[test]
fn the_preview_runs_in_the_repository_of_the_candidate() {
    let candidate = sibling("alpha", false);

    let sections = git_in_sections(&sibling_preview_source(messages(), &candidate));

    for (label, directory, arguments) in &sections {
        assert_eq!(
            directory, &candidate.workdir,
            "`{label}` should run in the candidate's work tree"
        );
        assert!(
            !arguments
                .iter()
                .any(|argument| argument == candidate.workdir.shown()),
            "`{label}` must pass the directory as the cwd, not as an argument: {arguments:?}"
        );
    }

    assert_eq!(
        sections
            .iter()
            .map(|(label, _, _)| label.as_str())
            .collect::<Vec<_>>(),
        ["origin", messages().fetch().tracking_state_section()]
    );
}

#[test]
fn no_sibling_preview_reaches_the_network() {
    let sections = git_in_sections(&sibling_preview_source(
        messages(),
        &sibling("alpha", false),
    ));

    for (label, _, arguments) in sections {
        assert!(
            !arguments.iter().any(|argument| argument == "fetch"
                || argument == "ls-remote"
                || argument == "--dry-run"),
            "`{label}` must not query the remote: {arguments:?}"
        );
    }
}

#[test]
fn fetch_the_selection_is_put_back_into_candidate_order() {
    let candidates = siblings();

    let selected = vec!["/repos/zulu".to_owned(), "/repos/mike".to_owned()];

    let targets = in_candidate_order(messages(), &candidates, &selected)
        .expect("keys taken from the candidates should resolve");

    assert_eq!(keys(&targets), ["mike", "zulu"]);
}

#[test]
fn fetch_a_key_outside_of_the_candidates_is_rejected() {
    let candidates = siblings();
    let selected = vec!["/repos/mike".to_owned(), "/elsewhere/evil".to_owned()];

    let err = in_candidate_order(messages(), &candidates, &selected)
        .expect_err("an unknown repository must be rejected");

    assert!(
        err.message(messages()).contains("/elsewhere/evil"),
        "the unknown repository should be named: {err:?}"
    );
}

#[test]
fn a_partial_prefix_of_a_candidate_path_is_not_accepted() {
    let candidates = siblings();
    let selected = vec!["/repos/mik".to_owned()];

    assert!(
        in_candidate_order(messages(), &candidates, &selected).is_err(),
        "the key must match a candidate exactly"
    );
}

#[test]
fn every_sibling_is_fetched_from_all_of_its_remotes() {
    assert_eq!(
        sibling_fetch_args(PruneMode::Keep),
        ["fetch", ALL_REMOTES_OPTION]
    );
}

#[test]
fn pruning_applies_to_the_sibling_fetch_as_well() {
    assert_eq!(
        sibling_fetch_args(PruneMode::Prune),
        ["fetch", PRUNE_OPTION, ALL_REMOTES_OPTION]
    );
}

#[test]
fn the_progress_line_counts_from_one() {
    let candidates = siblings();

    assert_eq!(progress_line(0, 3, &candidates[0]), "[1/3] mike");
    assert_eq!(progress_line(1, 3, &candidates[2]), "[2/3] zulu");
    assert_eq!(progress_line(2, 3, &candidates[1]), "[3/3] alpha");
}

fn jobs(count: usize) -> usize {
    assert!(count > 0, "the test must ask for at least one job");
    count
}

fn name_of(directory: &str) -> String {
    directory.rsplit('/').next().unwrap_or_default().to_owned()
}

fn siblings_named(names: &[&str]) -> Vec<SiblingRepository> {
    names.iter().map(|name| sibling(name, false)).collect()
}

#[derive(Debug, Default, Clone, Copy)]
struct Concurrency {
    running: usize,
    peak: usize,
}

#[derive(Debug, Default)]
struct Recorder {
    calls: RefCell<Vec<(String, Vec<String>)>>,
    concurrency: RefCell<Concurrency>,
}

impl Recorder {
    fn enter(&self, directory: &str, args: &[String]) {
        self.calls
            .borrow_mut()
            .push((directory.to_owned(), args.to_vec()));

        let mut concurrency = self.concurrency.borrow_mut();
        concurrency.running += 1;
        concurrency.peak = concurrency.peak.max(concurrency.running);
    }

    fn leave(&self) {
        self.concurrency.borrow_mut().running -= 1;
    }

    fn names(&self) -> Vec<String> {
        self.calls
            .borrow()
            .iter()
            .map(|(directory, _)| name_of(directory))
            .collect()
    }

    fn count(&self) -> usize {
        self.calls.borrow().len()
    }

    fn peak(&self) -> usize {
        self.concurrency.borrow().peak
    }

    fn arguments(&self) -> Vec<Vec<String>> {
        self.calls
            .borrow()
            .iter()
            .map(|(_, arguments)| arguments.clone())
            .collect()
    }
}

fn silent_run() -> CapturedRun {
    CapturedRun {
        stdout: Vec::new(),
        stderr: Vec::new(),
    }
}

struct ParallelRunner<'a> {
    recorder: &'a Recorder,
    run: Box<dyn Fn(&str) -> ParallelResult + 'a>,
}

fn parallel_runner<'a>(recorder: &'a Recorder, failing: &'a [&'a str]) -> ParallelRunner<'a> {
    ParallelRunner {
        recorder,
        run: Box::new(move |name| {
            if failing.contains(&name) {
                ParallelResult::Failed
            } else {
                ParallelResult::Captured(silent_run())
            }
        }),
    }
}

fn parallel_runner_broken_at<'a>(
    recorder: &'a Recorder,
    at: &'a str,
    failure: impl Fn() -> StartFailure + 'a,
) -> ParallelRunner<'a> {
    ParallelRunner {
        recorder,
        run: Box::new(move |name| {
            if name == at {
                ParallelResult::NotStarted(failure())
            } else {
                ParallelResult::Captured(silent_run())
            }
        }),
    }
}

fn parallel_runner_without_git(recorder: &Recorder) -> ParallelRunner<'_> {
    ParallelRunner {
        recorder,
        run: Box::new(|_name| ParallelResult::NotStarted(StartFailure::GitNotFound)),
    }
}

fn parallel_runner_with_output(recorder: &Recorder) -> ParallelRunner<'_> {
    ParallelRunner {
        recorder,
        run: Box::new(|name| {
            ParallelResult::Captured(CapturedRun {
                stdout: format!("{name} stdout 1\n{name} stdout 2\n").into_bytes(),
                stderr: format!("{name} stderr 1\n{name} stderr 2\n").into_bytes(),
            })
        }),
    }
}

fn serial_runner<'a>(
    recorder: &'a Recorder,
    failing: &'a [&'a str],
) -> impl FnMut(&str, &[String]) -> RunOutcome + 'a {
    move |directory, args| {
        recorder.enter(directory, args);
        let outcome = if failing.contains(&name_of(directory).as_str()) {
            RunOutcome::Failed
        } else {
            RunOutcome::Succeeded
        };
        recorder.leave();

        outcome
    }
}

/// Runs both phases. Each worker holds one repository at a time, and the oldest claim is the
/// first to finish.
fn fetch_each(
    messages: Messages,
    targets: &[&SiblingRepository],
    prune: PruneMode,
    jobs: usize,
    written: &mut Vec<u8>,
    parallel: ParallelRunner<'_>,
    mut serial: impl FnMut(&str, &[String]) -> RunOutcome,
) -> Result<FetchSummary, Error> {
    let args = sibling_fetch_args(prune);
    let total = targets.len();
    let workers = worker_count(jobs, total);
    let mut phase = ParallelPhase::new(total);
    let mut held: Vec<usize> = Vec::new();
    loop {
        while held.len() < workers {
            let Some(index) = phase.claim() else { break };
            parallel
                .recorder
                .enter(targets[index].workdir.shown(), &args);
            held.push(index);
        }
        if held.is_empty() {
            break;
        }
        let index = held.remove(0);
        let result = (parallel.run)(&targets[index].name);
        parallel.recorder.leave();
        if let Some(block) = phase.record(messages, index, total, targets[index], result) {
            written.extend_from_slice(&block);
        }
    }
    let outcomes = phase.finish()?;

    let mut phase = SerialPhase::new(targets.to_vec(), &outcomes);
    if let Some(text) = phase.announcement(messages) {
        written.extend_from_slice(text.as_bytes());
    }
    while let Some((index, progress)) = phase.next() {
        written.extend_from_slice(format!("{progress}\n").as_bytes());
        let outcome = serial(targets[index].workdir.shown(), &args);
        phase.record(messages, outcome)?;
    }
    Ok(phase.summary())
}

fn lines_of(written: Vec<u8>) -> Vec<String> {
    String::from_utf8(written)
        .expect("the output should be utf-8")
        .lines()
        .map(str::to_owned)
        .collect()
}

#[test]
fn each_repository_is_fetched_in_candidate_order_with_the_same_arguments() {
    let candidates = siblings();
    let targets: Vec<&SiblingRepository> = candidates.iter().collect();
    let parallel_calls = Recorder::default();
    let serial_calls = Recorder::default();
    let mut written = Vec::new();

    let summary = fetch_each(
        messages(),
        &targets,
        PruneMode::Prune,
        jobs(1),
        &mut written,
        parallel_runner(&parallel_calls, &[]),
        serial_runner(&serial_calls, &[]),
    )
    .expect("a successful run should not fail");

    assert_eq!(summary.succeeded, 3);
    assert!(summary.failed.is_empty());
    assert_eq!(parallel_calls.names(), ["mike", "alpha", "zulu"]);
    for arguments in parallel_calls.arguments() {
        assert_eq!(arguments, sibling_fetch_args(PruneMode::Prune));
    }
    assert_eq!(
        serial_calls.count(),
        0,
        "nothing failed, so the serial phase must not run"
    );
}

#[test]
fn the_progress_of_every_repository_is_written_as_it_completes() {
    let candidates = siblings();
    let targets: Vec<&SiblingRepository> = candidates.iter().collect();
    let parallel_calls = Recorder::default();
    let serial_calls = Recorder::default();
    let mut written = Vec::new();

    fetch_each(
        messages(),
        &targets,
        PruneMode::Keep,
        jobs(1),
        &mut written,
        parallel_runner(&parallel_calls, &[]),
        serial_runner(&serial_calls, &[]),
    )
    .expect("the run should succeed");

    assert_eq!(
        lines_of(written),
        ["[1/3] mike", "[2/3] alpha", "[3/3] zulu"]
    );
}

#[test]
fn every_repository_goes_through_the_parallel_phase_exactly_once() {
    let candidates = siblings_named(&["alpha", "bravo", "charlie", "delta", "echo"]);
    let targets: Vec<&SiblingRepository> = candidates.iter().collect();
    let parallel_calls = Recorder::default();
    let serial_calls = Recorder::default();
    let mut written = Vec::new();

    let summary = fetch_each(
        messages(),
        &targets,
        PruneMode::Keep,
        jobs(3),
        &mut written,
        parallel_runner(&parallel_calls, &[]),
        serial_runner(&serial_calls, &[]),
    )
    .expect("a successful run should not fail");

    let mut names = parallel_calls.names();
    names.sort();
    assert_eq!(names, ["alpha", "bravo", "charlie", "delta", "echo"]);
    assert_eq!(summary.succeeded, 5);
}

#[test]
fn the_number_of_repositories_running_at_once_never_exceeds_the_limit() {
    let candidates = siblings_named(&["alpha", "bravo", "charlie", "delta", "echo", "foxtrot"]);
    let targets: Vec<&SiblingRepository> = candidates.iter().collect();
    let parallel_calls = Recorder::default();
    let serial_calls = Recorder::default();
    let mut written = Vec::new();

    fetch_each(
        messages(),
        &targets,
        PruneMode::Keep,
        jobs(2),
        &mut written,
        parallel_runner(&parallel_calls, &[]),
        serial_runner(&serial_calls, &[]),
    )
    .expect("a successful run should not fail");

    assert!(
        parallel_calls.peak() <= 2,
        "at most 2 repositories may run at once: {}",
        parallel_calls.peak()
    );
}

#[test]
fn only_the_repositories_that_failed_in_parallel_are_run_serially() {
    let candidates = siblings();
    let targets: Vec<&SiblingRepository> = candidates.iter().collect();
    let parallel_calls = Recorder::default();
    let serial_calls = Recorder::default();
    let mut written = Vec::new();

    fetch_each(
        messages(),
        &targets,
        PruneMode::Keep,
        jobs(3),
        &mut written,
        parallel_runner(&parallel_calls, &["alpha"]),
        serial_runner(&serial_calls, &[]),
    )
    .expect("a repository failure is recorded, not propagated");

    assert_eq!(parallel_calls.count(), 3);
    assert_eq!(
        serial_calls.names(),
        ["alpha"],
        "only the repository that failed may be run again"
    );
}

#[test]
fn a_repository_that_succeeds_in_the_serial_phase_is_counted_once() {
    let candidates = siblings();
    let targets: Vec<&SiblingRepository> = candidates.iter().collect();
    let parallel_calls = Recorder::default();
    let serial_calls = Recorder::default();
    let mut written = Vec::new();

    let summary = fetch_each(
        messages(),
        &targets,
        PruneMode::Keep,
        jobs(3),
        &mut written,
        parallel_runner(&parallel_calls, &["alpha"]),
        serial_runner(&serial_calls, &[]),
    )
    .expect("a repository failure is recorded, not propagated");

    assert_eq!(summary.succeeded, 3, "the retried repository counts once");
    assert!(
        summary.failed.is_empty(),
        "the parallel failure was recovered: {:?}",
        summary.failed
    );
}

#[test]
fn a_repository_that_fails_in_both_phases_is_listed_once_in_candidate_order() {
    let candidates = siblings();
    let targets: Vec<&SiblingRepository> = candidates.iter().collect();
    let parallel_calls = Recorder::default();
    let serial_calls = Recorder::default();
    let mut written = Vec::new();

    let summary = fetch_each(
        messages(),
        &targets,
        PruneMode::Keep,
        jobs(3),
        &mut written,
        parallel_runner(&parallel_calls, &["zulu", "alpha"]),
        serial_runner(&serial_calls, &["zulu", "alpha"]),
    )
    .expect("a repository failure is recorded, not propagated");

    assert_eq!(summary.succeeded, 1);
    assert_eq!(summary.failed, ["alpha", "zulu"]);
}

#[test]
fn a_failing_repository_does_not_stop_the_remaining_ones() {
    let candidates = siblings();
    let targets: Vec<&SiblingRepository> = candidates.iter().collect();
    let parallel_calls = Recorder::default();
    let serial_calls = Recorder::default();
    let mut written = Vec::new();

    let summary = fetch_each(
        messages(),
        &targets,
        PruneMode::Keep,
        jobs(1),
        &mut written,
        parallel_runner(&parallel_calls, &["alpha"]),
        serial_runner(&serial_calls, &["alpha"]),
    )
    .expect("a repository failure is recorded, not propagated");

    assert_eq!(summary.succeeded, 2);
    assert_eq!(summary.failed, ["alpha"]);
    assert_eq!(
        parallel_calls.count(),
        3,
        "every repository must be visited"
    );
}

#[test]
fn a_failure_to_start_git_stops_the_remaining_repositories() {
    let candidates = siblings();
    let targets: Vec<&SiblingRepository> = candidates.iter().collect();
    let parallel_calls = Recorder::default();
    let serial_calls = Recorder::default();
    let mut written = Vec::new();

    let err = fetch_each(
        messages(),
        &targets,
        PruneMode::Keep,
        jobs(1),
        &mut written,
        parallel_runner_broken_at(&parallel_calls, "alpha", || StartFailure::GitNotFound),
        serial_runner(&serial_calls, &[]),
    )
    .expect_err("a broken environment must stop the run");

    assert!(
        matches!(
            &err,
            Error::NotStarted {
                cause: StartFailure::GitNotFound,
                ..
            }
        ),
        "the reason should be kept: {err:?}"
    );
    assert_eq!(
        parallel_calls.count(),
        2,
        "the repositories after the failure must not be visited"
    );
    assert_eq!(
        serial_calls.count(),
        0,
        "a broken environment must not reach the serial phase"
    );
}

#[test]
fn a_spawn_failure_stops_the_run_as_well() {
    let candidates = siblings();
    let targets: Vec<&SiblingRepository> = candidates.iter().collect();
    let parallel_calls = Recorder::default();
    let serial_calls = Recorder::default();
    let mut written = Vec::new();

    let err = fetch_each(
        messages(),
        &targets,
        PruneMode::Keep,
        jobs(1),
        &mut written,
        parallel_runner_broken_at(&parallel_calls, "mike", || StartFailure::SpawnFailed {
            args: "fetch --all".to_owned(),
            reason: "denied".to_owned(),
        }),
        serial_runner(&serial_calls, &[]),
    )
    .expect_err("a broken environment must stop the run");

    assert!(
        err.message(messages()).contains("mike"),
        "the repository should be named: {err:?}"
    );
    assert_eq!(parallel_calls.count(), 1);
}

#[test]
fn a_broken_environment_leaves_the_untouched_repositories_alone() {
    let candidates = siblings_named(&["alpha", "bravo", "charlie", "delta", "echo", "foxtrot"]);
    let targets: Vec<&SiblingRepository> = candidates.iter().collect();
    let parallel_calls = Recorder::default();
    let serial_calls = Recorder::default();
    let mut written = Vec::new();

    let err = fetch_each(
        messages(),
        &targets,
        PruneMode::Keep,
        jobs(2),
        &mut written,
        parallel_runner_without_git(&parallel_calls),
        serial_runner(&serial_calls, &[]),
    )
    .expect_err("a broken environment must stop the run");

    assert!(
        matches!(
            &err,
            Error::NotStarted {
                cause: StartFailure::GitNotFound,
                ..
            }
        ),
        "the reason should be kept: {err:?}"
    );

    assert!(
        parallel_calls.count() <= 2,
        "at most one repository per worker may start: {}",
        parallel_calls.count()
    );
}

#[test]
fn the_output_of_one_repository_is_not_split_by_another() {
    let candidates = siblings_named(&["alpha", "bravo", "charlie", "delta"]);
    let targets: Vec<&SiblingRepository> = candidates.iter().collect();
    let parallel_calls = Recorder::default();
    let serial_calls = Recorder::default();
    let mut written = Vec::new();

    fetch_each(
        messages(),
        &targets,
        PruneMode::Keep,
        jobs(4),
        &mut written,
        parallel_runner_with_output(&parallel_calls),
        serial_runner(&serial_calls, &[]),
    )
    .expect("a successful run should not fail");

    let lines = lines_of(written);
    assert_eq!(
        lines.len(),
        4 * 5,
        "1 対象につき進捗行 1 行と本文 4 行: {lines:?}"
    );
    for block in lines.chunks(5) {
        let name = block[0]
            .rsplit(' ')
            .next()
            .expect("the progress line names the repository");
        for line in block {
            assert!(
                line.contains(name),
                "the block of `{name}` must not be split: {block:?}"
            );
        }
    }
}

#[test]
fn the_serial_phase_is_announced_before_it_starts() {
    let candidates = siblings();
    let targets: Vec<&SiblingRepository> = candidates.iter().collect();
    let parallel_calls = Recorder::default();
    let serial_calls = Recorder::default();
    let mut written = Vec::new();

    fetch_each(
        messages(),
        &targets,
        PruneMode::Keep,
        jobs(1),
        &mut written,
        parallel_runner(&parallel_calls, &["alpha"]),
        serial_runner(&serial_calls, &[]),
    )
    .expect("a repository failure is recorded, not propagated");

    let lines = lines_of(written);
    let notice = lines
        .iter()
        .position(|line| line == &messages().fetch().serial_fallback(1))
        .expect("the fallback must be announced");
    let retried = lines
        .iter()
        .position(|line| line == "[1/1] alpha")
        .expect("the retried repository should be shown");

    assert!(
        notice < retried,
        "the announcement must come first: {lines:?}"
    );
}

#[test]
fn nothing_is_announced_when_every_repository_succeeds() {
    let candidates = siblings();
    let targets: Vec<&SiblingRepository> = candidates.iter().collect();
    let parallel_calls = Recorder::default();
    let serial_calls = Recorder::default();
    let mut written = Vec::new();

    fetch_each(
        messages(),
        &targets,
        PruneMode::Keep,
        jobs(2),
        &mut written,
        parallel_runner(&parallel_calls, &[]),
        serial_runner(&serial_calls, &[]),
    )
    .expect("a successful run should not fail");

    let lines = lines_of(written);
    assert!(
        !lines.contains(&messages().fetch().serial_fallback(0)),
        "there is nothing to re-run: {lines:?}"
    );
    assert_eq!(
        lines.len(),
        3,
        "one progress line per repository: {lines:?}"
    );
}

#[test]
fn fetch_a_run_without_failures_is_a_success() {
    let summary = FetchSummary {
        succeeded: 3,
        failed: Vec::new(),
    };

    assert!(!summary.has_failure());
    assert_eq!(summary_line(messages(), &summary), "成功 3 件 / 失敗 0 件");
}

#[test]
fn the_summary_names_the_repositories_that_failed() {
    let summary = FetchSummary {
        succeeded: 1,
        failed: vec!["alpha".to_owned(), "zulu".to_owned()],
    };

    assert!(summary.has_failure());
    let line = summary_line(messages(), &summary);
    assert!(
        line.contains("成功 1 件 / 失敗 2 件"),
        "both counts should be shown: {line}"
    );
    assert!(
        line.contains("alpha") && line.contains("zulu"),
        "the failed repositories should be named: {line}"
    );
    assert_eq!(line.lines().count(), 1, "1 行に収める: {line}");
}

#[test]
fn a_line_is_written_to_the_given_writer() {
    let reason = messages().fetch().single_sibling_reason();

    assert_eq!(report_line(reason), format!("{reason}\n"));
}

fn plain_texts(language: Language) -> Vec<&'static str> {
    let fetch = language.messages().fetch();

    vec![
        fetch.remote_header_subject(),
        fetch.remote_header_outcome(),
        fetch.all_remotes_label(),
        fetch.no_remotes(),
        fetch.url_section(),
        fetch.tracking_section(),
        fetch.sibling_scan_failed(),
        fetch.no_sibling_candidates(),
        fetch.single_sibling_reason(),
        fetch.siblings_header(),
        fetch.prune_scope_note(),
        fetch.tracking_state_section(),
        fetch.partial_failure(),
    ]
}

fn texts_with_arguments(language: Language) -> Vec<(String, &'static str)> {
    let fetch = language.messages().fetch();

    vec![
        (fetch.remote_description("origin"), "origin"),
        (fetch.fixed_target("the remote `origin`"), "origin"),
        (fetch.fetch_failed("the remote `origin`"), "origin"),
        (fetch.selection_not_found("elsewhere"), "elsewhere"),
        (fetch.excluded_count(2), "2"),
        (fetch.path_not_utf8("/repos/alpha"), "/repos/alpha"),
        (
            fetch.sibling_selection_not_found("/repos/alpha, /repos/zulu"),
            "/repos/zulu",
        ),
        (fetch.sibling_start_failed("alpha"), "alpha"),
        (fetch.serial_fallback(2), "2"),
    ]
}

#[test]
fn every_fetch_message_is_filled_in_for_both_languages() {
    for language in [Language::Japanese, Language::English] {
        for text in plain_texts(language) {
            assert!(!text.trim().is_empty(), "{language:?} left a message empty");
        }
    }
}

#[test]
fn every_fetch_message_expands_its_arguments() {
    for language in [Language::Japanese, Language::English] {
        for (text, argument) in texts_with_arguments(language) {
            assert!(
                text.contains(argument),
                "{language:?} must mention `{argument}`: {text}"
            );
        }
    }
}

#[test]
fn the_fetch_wording_is_translated() {
    for (japanese, english) in plain_texts(Language::Japanese)
        .into_iter()
        .zip(plain_texts(Language::English))
    {
        assert_ne!(japanese, english, "the wording must be translated");
    }

    for ((japanese, _), (english, _)) in texts_with_arguments(Language::Japanese)
        .into_iter()
        .zip(texts_with_arguments(Language::English))
    {
        assert_ne!(japanese, english, "the wording must be translated");
    }
}

#[test]
fn the_english_summary_of_a_sibling_run_is_translated_as_well() {
    let summary = FetchSummary {
        succeeded: 1,
        failed: vec!["alpha".to_owned()],
    };

    let japanese = summary_line(Language::Japanese.messages(), &summary);
    let english = summary_line(Language::English.messages(), &summary);

    assert_ne!(japanese, english, "the summary must be translated");
    assert!(
        english.contains('1') && english.contains("alpha"),
        "the counts and the failed repository should be shown: {english}"
    );
    assert_eq!(english.lines().count(), 1, "1 行に収める: {english}");
}

#[test]
fn fetch_the_english_header_keeps_the_sections_on_one_line() {
    let header = sibling_header(
        Language::English.messages(),
        &scan(siblings(), 2),
        PruneMode::Prune,
    );

    assert_eq!(header.lines().count(), 1, "1 行に収める: {header}");
    assert!(
        header.contains(HEADER_SEPARATOR),
        "the sections should be separated: {header}"
    );
    assert!(
        header.contains(PRUNE_OPTION),
        "the option name is not translated: {header}"
    );
}
