use fuzgit::cli::{Command, LangOption};
use fuzgit::color::{OutputKind, OutputStream, Painter};
use fuzgit::commands::confirmation::is_affirmative;
use fuzgit::commands::fetch::phases::{
    worker_count, CapturedRun, Outcome, ParallelPhase, ParallelResult, SerialPhase,
};
use fuzgit::commands::fetch::{fetch_args, resolve, FetchTarget, PruneMode, ALL_REMOTES_KEY};
use fuzgit::commands::file_selection::{target_paths, FileCandidate};
use fuzgit::commands::pull::{integrate_args, PullRun, PullStep};
use fuzgit::commands::push::{push_args, UpstreamUpdate};
use fuzgit::commands::{
    align_columns, commit_highlights, commit_line, commit_menu, dispatch, in_progress,
    last_column_range, log, merge, pr, reflog,
};
use fuzgit::error::{Error, RunOutcome, StartFailure};
use fuzgit::finder::ANSI_RESET;
use fuzgit::gh::{split_tsv, unescape};
use fuzgit::git::{
    pathspec, CommitInfo, Operation, PullTarget, PushTarget, SiblingRepository, WorkPath,
};
use fuzgit::i18n::{Language, Messages};

const TABLE: &[u8] = b"From host:repo\n * [new branch]      one -> origin/one\n   1..2  two -> \
origin/two\nReceiving objects:  42%\rdone\n";

fn english() -> Messages {
    Language::English.messages()
}

fn chars(text: &str) -> Vec<char> {
    text.chars().collect()
}

fn repository(name: &str) -> SiblingRepository {
    SiblingRepository {
        workdir: WorkPath::Text(format!("/repos/{name}")),
        name: name.to_owned(),
        current_branch: None,
        remotes: vec!["origin".to_owned()],
        is_current: false,
    }
}

fn captured() -> ParallelResult {
    ParallelResult::Captured(CapturedRun {
        stdout: b"out\n".to_vec(),
        stderr: b"err\n".to_vec(),
    })
}

#[test]
fn an_output_is_painted_alike_however_it_arrives() {
    let mut whole = Vec::new();
    let mut stream = OutputStream::new(OutputKind::FetchTable);
    stream.push(TABLE, &mut whole);
    stream.flush(&mut whole);

    for at in 0..TABLE.len() {
        let mut pieces = Vec::new();
        let mut stream = OutputStream::new(OutputKind::FetchTable);
        stream.push(&TABLE[..at], &mut pieces);
        stream.push(&TABLE[at..], &mut pieces);
        stream.flush(&mut pieces);
        assert_eq!(pieces, whole, "split at {at}");
    }
}

#[test]
fn colours_are_all_that_is_added() {
    let painted = Painter::enabled().paint_output(OutputKind::FetchTable, TABLE);
    let mut plain = String::from_utf8(painted).expect("the sample is ASCII");
    assert_eq!(plain.matches(ANSI_RESET).count(), 1);
    while let Some(start) = plain.find('\u{1b}') {
        let end = start + plain[start..].find('m').expect("a colour ends");
        plain.replace_range(start..=end, "");
    }

    assert_eq!(plain.as_bytes(), TABLE);
}

#[test]
fn colours_follow_the_terminal_and_the_environment() {
    assert!(Painter::for_stream(true, None).is_enabled());
    assert!(Painter::for_stream(true, Some(b"")).is_enabled());
    assert!(!Painter::for_stream(true, Some(b"1")).is_enabled());
    assert!(!Painter::for_stream(false, None).is_enabled());
}

#[test]
fn a_field_survives_its_escapes() {
    let text = unescape(&chars(r"a\tb\nc\rd\\e\x"));

    assert_eq!(text.iter().collect::<String>(), "a\tb\nc\rd\\e\\x");
}

#[test]
fn a_record_survives() {
    assert_eq!(
        split_tsv(&chars("one\t\ttwo\\tand\\\\"), 3),
        Ok(vec!["one".to_owned(), String::new(), "two\tand\\".to_owned()])
    );
}

#[test]
fn columns_start_at_the_same_cell() {
    let row = |cells: [&str; 3]| cells.map(str::to_owned).to_vec();
    let lines = align_columns(&vec![
        row(["日本", "a", "x"]),
        row(["b", "語", "y"]),
        row(["", "", "z"]),
    ]);

    assert_eq!(lines, ["日本  a   x", "b     語  y", "          z"]);
    assert_eq!(last_column_range(&lines[0], "x"), (12, 13));
    assert_eq!(last_column_range("日本  ", "日本"), (0, 6));
}

#[test]
fn the_highlights_of_a_commit_match_its_line() {
    let commit = CommitInfo {
        id: "1f0c9a4b".to_owned(),
        short_id: "1f0c9a4".to_owned(),
        summary: "日本語".to_owned(),
        author: "author".to_owned(),
        time: "2024-01-02".to_owned(),
    };
    let line = commit_line(&commit);
    let parts: Vec<&str> = commit_highlights(&commit)
        .iter()
        .map(|part| &line[part.start..part.end])
        .collect();

    assert_eq!(parts, ["1f0c9a4", "2024-01-02"]);
}

#[test]
fn a_path_is_no_option_and_stays_apart() {
    assert_eq!(pathspec("--force"), ":(top,literal)--force");
    assert_ne!(pathspec("a"), pathspec("a "));

    let renamed = FileCandidate {
        display: "R  b".to_owned(),
        key: "b".to_owned(),
        paths: vec!["b".to_owned(), "a".to_owned()],
    };
    assert_eq!(
        target_paths(&[&renamed, &FileCandidate::from_path("a")]),
        ["b", "a"]
    );
}

#[test]
fn a_language_is_read_back() {
    for option in [LangOption::Ja, LangOption::En, LangOption::Auto] {
        assert_eq!(LangOption::from_spelling(option.spelling()), Some(option));
    }
    assert_eq!(LangOption::from_spelling("JA"), None);
}

#[test]
fn a_refusal_does_not_depend_on_the_language() {
    let command = Command::Reflog {
        restore: Some("recovered".to_owned()),
        action: true,
    };
    for language in [Language::Japanese, Language::English] {
        dispatch(language.messages(), Ok(()), &command).expect_err("the two exclude each other");
    }
}

#[test]
fn silence_is_no_consent() {
    assert!(!is_affirmative(""));
    assert!(!is_affirmative("\n"));
}

#[test]
fn keys_name_one_action() {
    for actions in [&log::MENU[..], &reflog::MENU[..]] {
        for (i, a) in actions.iter().enumerate() {
            for b in &actions[i + 1..] {
                assert_ne!(commit_menu::key(*a), commit_menu::key(*b));
            }
        }
    }
    for action in pr::MENU_ACTIONS {
        assert_eq!(
            pr::resolve_action(english(), pr::menu_key(action)),
            Ok(action)
        );
    }
}

#[test]
fn the_menu_of_an_operation_belongs_to_it() {
    for operation in [Operation::Merge, Operation::Rebase] {
        let japanese = in_progress::menu(Language::Japanese.messages(), operation);
        let english = in_progress::menu(english(), operation);
        assert_eq!(japanese.len(), english.len());
        for (a, b) in japanese.iter().zip(&english) {
            assert_eq!(a.key, b.key);
            assert_eq!(a.action, b.action);
            if let in_progress::MenuAction::Proceed(args) | in_progress::MenuAction::Abort(args) =
                &a.action
            {
                assert_eq!(args[0], in_progress::operation_name(operation));
            }
        }
    }
}

#[test]
fn a_written_list_of_requests_is_read_back() {
    let record = "7\tfeature\tmain\toctocat\ttrue\thttps://e.com/7\ta\\tb\tline\\nline";
    let output = format!("{record}\n{record}\n");
    let candidates = pr::parse(output.as_bytes(), false).expect("both have their fields");

    assert_eq!(candidates.len(), 2);
    for candidate in &candidates {
        assert_eq!(candidate.number, 7);
        assert_eq!(candidate.title, "a\tb");
        assert_eq!(candidate.body, "line\nline");
    }
}

#[test]
fn the_key_of_all_remotes_stays_out_of_git() {
    assert_eq!(
        resolve(english(), &vec!["origin".to_owned()], ALL_REMOTES_KEY),
        Ok(FetchTarget::All)
    );
    for prune in [PruneMode::Keep, PruneMode::Prune] {
        let args = fetch_args(&FetchTarget::All, prune);
        assert!(!args.contains(&ALL_REMOTES_KEY.to_owned()));
        assert_eq!(
            args.contains(&"--prune".to_owned()),
            prune == PruneMode::Prune
        );
    }
}

#[test]
fn a_phase_counts_what_is_done_and_knows_every_outcome() {
    let targets = [repository("alpha"), repository("bravo")];
    let mut phase = ParallelPhase::new(2);
    assert_eq!(phase.claim(), Some(0));
    assert_eq!(phase.claim(), Some(1));
    assert_eq!(phase.claim(), None);

    let block = phase.record(english(), 1, 2, &targets[1], captured());
    assert_eq!(block, Some(b"[1/2] bravo\nout\nerr\n".to_vec()));
    let block = phase.record(english(), 0, 2, &targets[0], ParallelResult::Failed);
    assert_eq!(block, Some(b"[2/2] alpha\n".to_vec()));
    let outcomes = phase.finish().expect("nothing stopped the phase");
    assert_eq!(outcomes, [Some(Outcome::Failed), Some(Outcome::Succeeded)]);

    let mut serial = SerialPhase::new(targets.iter().collect(), &outcomes);
    assert_eq!(serial.next(), Some((0, "[1/1] alpha".to_owned())));
    serial
        .record(english(), RunOutcome::Failed)
        .expect("git started");
    assert_eq!(serial.next(), None);
    let summary = serial.summary();
    assert_eq!((summary.succeeded, summary.failed), (1, vec!["alpha".to_owned()]));
}

#[test]
fn a_stopped_phase_takes_no_more_repositories() {
    let targets = [repository("alpha"), repository("bravo"), repository("charlie")];
    let mut phase = ParallelPhase::new(3);
    assert_eq!(phase.claim(), Some(0));
    assert_eq!(phase.claim(), Some(1));
    phase.record(
        english(),
        0,
        3,
        &targets[0],
        ParallelResult::NotStarted(StartFailure::GitNotFound),
    );
    assert_eq!(phase.claim(), None);
    phase.record(english(), 1, 3, &targets[1], captured());
    phase.stop(Error::Explained("later".to_owned()));

    assert!(matches!(
        phase.finish(),
        Err(Error::NotStarted {
            cause: StartFailure::GitNotFound,
            ..
        })
    ));
}

#[test]
fn a_run_tells_every_branch_once() {
    let target = |remote: &str, branch: &str, is_current| PullTarget {
        branch: branch.to_owned(),
        remote: remote.to_owned(),
        tracking_ref: format!("refs/remotes/{remote}/{branch}"),
        is_current,
    };
    let targets = [
        target("origin", "main", true),
        target("fork", "alpha", false),
        target("origin", "zulu", false),
    ];
    for (a, b) in targets.iter().zip(&targets) {
        assert!(!integrate_args(a).iter().any(|word| word.contains('+')));
        assert_eq!(integrate_args(a), integrate_args(b));
    }

    let mut run = PullRun::new(targets.iter().collect());
    let mut fetched = Vec::new();
    loop {
        match run.next(english()) {
            PullStep::Fetch(args) => {
                let failed = args[1] == "fork";
                fetched.push(args[1].clone());
                let outcome = if failed {
                    RunOutcome::Failed
                } else {
                    RunOutcome::Succeeded
                };
                run.record(english(), outcome).expect("git started");
            }
            PullStep::Skip { progress, reason } => {
                assert_eq!(fetched, ["fork", "origin"], "the remotes come first");
                assert_eq!(progress, "[2/3] alpha");
                assert!(reason.contains("fork"));
                run.skip();
            }
            PullStep::Integrate { args, .. } => {
                assert!(!args.iter().any(|word| word.contains("fork")));
                run.record(english(), RunOutcome::Succeeded)
                    .expect("git started");
            }
            PullStep::Done => break,
        }
    }
    let summary = run.summary();
    assert_eq!(summary.succeeded, 2);
    assert_eq!(summary.failed, ["alpha"]);
    assert_eq!(summary.not_fast_forwarded, 0);
}

#[test]
fn a_push_never_forces() {
    let target = PushTarget {
        remote: "origin".to_owned(),
        branch: "main".to_owned(),
        is_upstream: false,
        ahead_behind: None,
    };
    for upstream in [UpstreamUpdate::Keep, UpstreamUpdate::Configure] {
        let args = push_args(&target, upstream);
        assert!(!args
            .iter()
            .any(|word| word.starts_with("--force") || word == "-f" || word.starts_with('+')));
    }
}

#[test]
fn a_replay_is_the_reverse_of_a_merge() {
    assert_eq!(merge::merge_range("main"), "HEAD..main");
    assert_eq!(
        fuzgit::commands::rebase::replay_range("main"),
        "main..HEAD"
    );
}

#[test]
fn a_repository_that_did_not_open_is_told_before_anything_else() {
    let failure = || Error::NotStarted {
        explanation: "not opened".to_owned(),
        cause: StartFailure::GitNotFound,
    };
    let conflicting = Command::Diff {
        staged: true,
        head: true,
        upstream: false,
        branch: false,
        commit: false,
    };
    for command in [conflicting, Command::Pull, Command::Status, Command::Add] {
        for language in [Language::Japanese, Language::English] {
            assert_eq!(
                dispatch(language.messages(), Err(failure()), &command),
                Err(failure())
            );
        }
    }
}

#[test]
fn a_whole_phase_fetches_each_repository_once() {
    for jobs in 1..=4 {
        let targets = ["alpha", "bravo", "charlie", "delta"].map(repository);
        let total = targets.len();
        let mut phase = ParallelPhase::new(total);
        let mut running = Vec::new();
        let mut taken = Vec::new();
        let mut told = Vec::new();
        loop {
            while running.len() < worker_count(jobs, total) {
                let Some(index) = phase.claim() else { break };
                taken.push(index);
                running.push(index);
            }
            // What was taken last ends first.
            let Some(index) = running.pop() else { break };
            let result = if index % 2 == 0 {
                captured()
            } else {
                ParallelResult::Failed
            };
            let block = phase
                .record(english(), index, total, &targets[index], result)
                .expect("git started");
            let place = format!("[{}/4] {}\n", told.len() + 1, targets[index].name);
            assert!(block.starts_with(place.as_bytes()));
            told.push(index);
        }
        assert_eq!(taken, [0, 1, 2, 3]);
        told.sort_unstable();
        assert_eq!(told, [0, 1, 2, 3]);
        assert_eq!(
            phase.finish().expect("nothing stopped the phase"),
            [
                Some(Outcome::Succeeded),
                Some(Outcome::Failed),
                Some(Outcome::Succeeded),
                Some(Outcome::Failed)
            ]
        );
    }
}

#[test]
fn the_list_of_requests_writes_what_is_read() {
    for checks in [false, true] {
        let columns = pr::columns(checks);
        assert_eq!(columns.len(), pr::field_count(checks));
        let args = pr::list_args(checks);
        let row = args[7]
            .strip_prefix(".[] | [")
            .and_then(|rest| rest.strip_suffix("] | @tsv"))
            .expect("the row stands between brackets");
        let pieces: Vec<&str> = row.split(',').map(str::trim_start).collect();
        assert_eq!(pieces, columns);

        let values: Vec<String> = (0..columns.len()).map(|i| i.to_string()).collect();
        let read = pr::parse(values.join("\t").as_bytes(), checks).expect("it has its fields");
        assert_eq!(read[0].body, "7");
        assert_eq!(read[0].review_decision.as_deref(), checks.then_some("8"));
        for text in [&args[5], &args[7]] {
            assert!(text.contains("body"));
            assert_eq!(text.contains("reviewDecision"), checks);
            assert_eq!(text.contains("statusCheckRollup"), checks);
        }
    }
    let base = r#"(.number|tostring), .headRefName, .baseRefName, (.author.login // "-"), (.isDraft|tostring), .url, .title, .body"#;
    let rest = r#"(.reviewDecision // ""), ([.statusCheckRollup[]? | select((.conclusion // "") as $c | $c=="SUCCESS" or $c=="SKIPPED" or $c=="NEUTRAL" or (.state=="SUCCESS"))] | length | tostring), ([.statusCheckRollup[]? | select((.conclusion // "") as $c | $c=="FAILURE" or $c=="TIMED_OUT" or $c=="CANCELLED" or $c=="ACTION_REQUIRED" or $c=="STARTUP_FAILURE" or (.state=="FAILURE") or (.state=="ERROR"))] | length | tostring), ([.statusCheckRollup[]? | select(((.status // "") != "COMPLETED" and (.state // "") == "") or (.state=="PENDING"))] | length | tostring)"#;
    assert_eq!(pr::list_args(false)[7], format!(".[] | [{base}] | @tsv"));
    assert_eq!(
        pr::list_args(true)[7],
        format!(".[] | [{base}, {rest}] | @tsv")
    );
}

#[test]
fn an_unfinished_operation_comes_first() {
    assert_eq!(
        in_progress::start(english(), None),
        in_progress::Start::Proceed
    );
    for operation in [Operation::Merge, Operation::Rebase] {
        assert_eq!(
            in_progress::start(english(), Some(operation)),
            in_progress::Start::Resume {
                operation,
                picker: in_progress::picker(english(), operation),
            }
        );
    }
}
