use fuzgit::cli::{BranchCommand, Command, StashCommand};
use fuzgit::commands::commit_menu::{ActionPlan, MenuAction, Target};
use fuzgit::commands::fetch::{FetchScope, PruneMode};
use fuzgit::commands::fixup::{FixupKind, RebaseStart};
use fuzgit::commands::pull::{CurrentTarget, Integration, PullMode};
use fuzgit::commands::restore::RestoreTarget;
use fuzgit::commands::{
    add, branch, cherry_pick, commit, commit_menu, diff, dispatch, fetch, fixup, in_progress, log,
    merge, pr, pull, push, rebase, reflog, restore, BranchScope, Request, StashAction,
    UntrackedFiles,
};
use fuzgit::error::Error;
use fuzgit::finder::{Answer, PreviewSource, SelectionMode};
use fuzgit::git::{
    BranchInfo, CommitInfo, FileChange, GitRun, Operation, PullScan, PullTarget, PushTarget,
    ReflogEntry, SiblingRepository, SiblingScan, Upstream, WorkPath,
};
use fuzgit::i18n::{Language, Messages};

const ID: &str = "1f0c9a4b3d2e5f60718293a4b5c6d7e8f9012345";

fn messages() -> Messages {
    Language::English.messages()
}

fn words(args: &[&str]) -> Vec<String> {
    args.iter().map(|word| (*word).to_owned()).collect()
}

fn change(path: &str, code: &str) -> FileChange {
    let mut letters = code.chars();
    FileChange {
        path: path.to_owned(),
        original_path: None,
        index_status: letters.next().expect("two letters"),
        worktree_status: letters.next().expect("two letters"),
    }
}

fn commit_info(id: &str) -> CommitInfo {
    CommitInfo {
        id: id.to_owned(),
        short_id: id.chars().take(7).collect(),
        summary: "subject".to_owned(),
        author: "author".to_owned(),
        time: "2024-01-02".to_owned(),
    }
}

fn branch_info(name: &str, is_current: bool, is_remote: bool) -> BranchInfo {
    BranchInfo {
        name: name.to_owned(),
        is_current,
        is_remote,
    }
}

#[test]
fn the_selected_changes_are_staged() {
    let changes = [change("a.txt", " M"), change("b.txt", "??")];
    let picker = add::picker(Some("/work"), &changes).expect("there is a work tree");
    assert_eq!(picker.options.mode, SelectionMode::Multi);
    assert_eq!(picker.items.len(), 2);

    let run = add::run_on_selection(messages(), &changes, &words(&["b.txt"]))
        .expect("the key is that of a change");
    assert_eq!(run.args, ["add", "--", ":(top,literal)b.txt"]);

    add::run_on_selection(messages(), &changes, &words(&["c.txt"]))
        .expect_err("the key is unknown");
    assert_eq!(
        add::picker(None, &changes).expect_err("an untracked file is previewed from the work tree"),
        Error::NoWorktree
    );
}

#[test]
fn untracked_changes_are_staged_before_the_commit() {
    let changes = [change("a.txt", " M"), change("b.txt", "??")];
    let plan = commit::run_on_selection(
        messages(),
        Some("message"),
        &changes,
        &words(&["a.txt", "b.txt"]),
    )
    .expect("the keys are those of changes");

    assert_eq!(
        plan.stage.map(|run| run.args),
        Some(words(&["add", "--", ":(top,literal)b.txt"]))
    );
    assert_eq!(
        plan.commit.args,
        [
            "commit",
            "--message",
            "message",
            "--",
            ":(top,literal)a.txt",
            ":(top,literal)b.txt"
        ]
    );
    assert_eq!(plan.hint, None);

    let plan = commit::run_on_selection(messages(), None, &changes, &words(&["a.txt"]))
        .expect("the key is that of a change");
    assert_eq!(plan.stage, None);
    assert!(plan.hint.is_some());
}

#[test]
fn a_branch_is_switched_to_by_name() {
    let branches = [
        branch_info("main", true, false),
        branch_info("origin/feature", false, true),
    ];

    let run = branch::run_on_selection(messages(), &branches, "main").expect("it is a branch");
    assert_eq!(run.args, ["switch", "main"]);
    let run = branch::run_on_selection(messages(), &branches, "origin/feature")
        .expect("it is a branch of a remote");
    assert_eq!(run.args, ["switch", "feature"]);
    branch::run_on_selection(messages(), &branches, "other").expect_err("it is no branch");
}

#[test]
fn the_picked_commits_are_applied_from_the_oldest() {
    let candidates = [commit_info("ccc"), commit_info("bbb"), commit_info("aaa")];
    let run = cherry_pick::run_on_selection(messages(), &candidates, &words(&["ccc", "aaa"]))
        .expect("the hashes are those of candidates");

    assert_eq!(run.args, ["cherry-pick", "aaa", "ccc"]);
    assert_eq!(
        cherry_pick::run_on_commit(messages(), ID).args,
        ["cherry-pick", ID]
    );
}

#[test]
fn a_menu_action_runs_asks_or_prints() {
    let target = Target {
        id: ID,
        short_id: "1f0c9a4",
        label: "1f0c9a4 subject",
    };
    let plan = |action| commit_menu::run_action(messages(), action, &target);

    assert!(matches!(plan(MenuAction::Show), ActionPlan::Run(GitRun { args, .. })
        if args == commit_menu::show_args(ID)));
    assert!(matches!(plan(MenuAction::SwitchDetach), ActionPlan::Run(GitRun { args, .. })
        if args == commit_menu::switch_args(ID)));
    assert!(matches!(plan(MenuAction::CherryPick), ActionPlan::Run(GitRun { args, .. })
        if args == ["cherry-pick", ID]));
    assert!(matches!(plan(MenuAction::ResetHard), ActionPlan::Confirm { run, .. }
        if run.args == commit_menu::reset_args(ID)));
    assert_eq!(
        plan(MenuAction::PrintHash),
        ActionPlan::Print(format!("{ID}\n"))
    );

    commit_menu::run_on_selection(messages(), &target, &[MenuAction::Show], "print")
        .expect_err("the action is not in this menu");
    let picker = commit_menu::picker(messages(), &target, &log::MENU);
    assert_eq!(picker.items.len(), log::MENU.len());
}

#[test]
fn a_commit_of_the_history_is_printed_or_opens_the_menu() {
    let candidates = [commit_info(ID)];

    assert_eq!(
        log::run_on_selection(messages(), &candidates, ID, log::Decision::Print),
        Ok(log::Outcome::Print(format!("{ID}\n")))
    );
    assert_eq!(
        log::run_on_selection(messages(), &candidates, ID, log::Decision::Menu),
        Ok(log::Outcome::Menu {
            id: ID.to_owned(),
            short_id: "1f0c9a4".to_owned(),
            label: "1f0c9a4 2024-01-02 subject (author)".to_owned(),
        })
    );
    log::run_on_selection(messages(), &candidates, "1f0c9a4", log::Decision::Print)
        .expect_err("the key is the full hash");
}

#[test]
fn an_entry_of_the_reflog_becomes_a_branch() {
    let candidates = [ReflogEntry {
        index: 3,
        id: ID.to_owned(),
        message: "commit: first".to_owned(),
    }];
    let outcome = reflog::run_on_selection(
        messages(),
        &candidates,
        "HEAD@{3}",
        &reflog::Decision::Restore("recovered"),
    )
    .expect("the selector is that of the entry");

    match outcome {
        reflog::Outcome::Branch { run, created } => {
            assert_eq!(run.args, ["branch", "--", "recovered", ID]);
            assert!(created.contains("recovered"));
        }
        other => panic!("unexpected outcome: {other:?}"),
    }
    reflog::run_on_selection(messages(), &candidates, "HEAD@{4}", &reflog::Decision::Print)
        .expect_err("there is no such entry");
}

#[test]
fn a_fixup_is_committed_with_the_hint_for_its_rebase() {
    let commit = commit_info(ID);
    let plan = fixup::run_on_commit(messages(), FixupKind::Squash, &commit, Some(false))
        .expect("the commit was read");

    assert_eq!(plan.commit.args, ["commit", &format!("--squash={ID}")]);
    assert!(plan.hint.contains("--autosquash --root"));
}

#[test]
fn what_is_no_hash_has_no_parent() {
    for id in ["main", "1f0c9a4", "", "1f0c9a4b3d2e5f60718293a4b5c6d7e8f901234g"] {
        fixup::rebase_start(messages(), &commit_info(id), Some(true))
            .expect_err("the id is no full hash");
    }
    assert_eq!(
        fixup::rebase_start(messages(), &commit_info(ID), Some(true)),
        Ok(RebaseStart::Parent(ID.to_owned()))
    );
}

#[test]
fn only_changes_of_the_work_tree_are_confirmed_before_a_restore() {
    let changes = [change("a.txt", " M"), change("b.txt", " M")];
    let candidates = restore::change_candidates(RestoreTarget::Worktree, &changes);
    let plan = restore::run_on_selection(
        messages(),
        &candidates,
        RestoreTarget::Worktree,
        None,
        None,
        &words(&["a.txt"]),
    )
    .expect("the key is that of a candidate");
    assert_eq!(plan.run.args, ["restore", "--", ":(top,literal)a.txt"]);
    assert_eq!(
        plan.confirmation.map(|(_, targets)| targets),
        Some(words(&["a.txt"]))
    );

    let plan = restore::run_on_selection(
        messages(),
        &candidates,
        RestoreTarget::Index,
        None,
        None,
        &words(&["a.txt"]),
    )
    .expect("the key is that of a candidate");
    assert_eq!(plan.confirmation, None, "the index can be staged again");
}

#[test]
fn the_pickers_of_merge_and_rebase_offer_the_other_branches() {
    let branches = [branch_info("feature", false, false)];

    let picker = merge::picker(&branches).expect("there is a branch");
    assert_eq!(picker.options.mode, SelectionMode::Single);
    assert_eq!(picker.items[0].key(), "feature");
    assert_eq!(
        rebase::picker(&branches).expect("there is a branch").items[0].key(),
        "feature"
    );
    merge::find(&branches, "other").expect_err("it is no candidate");
}

#[test]
fn only_what_was_offered_reaches_git() {
    let branches = [
        branch_info("main", false, false),
        branch_info("feature", false, false),
    ];
    let clean = merge::ConflictPrediction::Clean;
    let merged = |key| {
        merge::run_on_selection(merge::MergeMode::NoFf, &branches, key, 2, &clean)
            .map(|plan| plan.run.args)
    };
    assert_eq!(merged("feature"), Ok(words(&["merge", "--no-ff", "feature"])));
    assert_eq!(
        merged("--abort"),
        Err(Error::Explained(
            "選択されたブランチ `--abort` が候補に見つかりません".to_owned()
        ))
    );

    let plan = rebase::run_on_selection(&branches, "main", 2).expect("it was offered");
    assert_eq!(plan.run.args, ["rebase", "main"]);
    assert_eq!(plan.target, "git rebase main");
    rebase::run_on_selection(&branches, "--abort", 2).expect_err("it was not offered");

    let compared = |base, target| diff::branch_range(messages(), &branches, base, target);
    let range = compared("main", "feature").expect("both were offered");
    assert_eq!(range.arguments, ["main", "feature"]);
    assert_eq!(range.description, "main → feature");
    let refused = compared("--one", "--two").expect_err("neither was offered");
    assert!(refused.message(messages()).contains("--one"));
    let refused = compared("main", "--two").expect_err("the second was not offered");
    assert!(refused.message(messages()).contains("--two"));

    let other = "2".repeat(40);
    let commits = [commit_info(ID), commit_info(&other)];
    let compared = |base: &str, target: &str| {
        diff::commit_range(messages(), &commits, base, target)
    };
    let range = compared(ID, &other).expect("both were offered");
    assert_eq!(range.arguments, [ID, other.as_str()]);
    assert_eq!(range.description, "1f0c9a4 → 2222222");
    let refused = compared("--one", &other).expect_err("the first was not offered");
    assert!(refused.message(messages()).contains("--one"));
    compared(ID, "1f0c9a4").expect_err("a short hash is no key");

    let remotes = words(&["origin", "fork"]);
    let fetched = |key| {
        fetch::run_on_selection(messages(), &remotes, key, PruneMode::Keep).map(|run| run.args)
    };
    assert_eq!(fetched("fork"), Ok(words(&["fetch", "fork"])));
    assert_eq!(
        fetched(fetch::ALL_REMOTES_KEY),
        Ok(words(&["fetch", "--all"]))
    );
    fetched("--upload-pack=x").expect_err("it was not offered");

    let fixed = |key| {
        fixup::run_on_selection(messages(), FixupKind::Fixup, &commits, key, Some(true))
            .map(|plan| plan.commit.args)
    };
    assert_eq!(fixed(ID), Ok(vec!["commit".to_owned(), format!("--fixup={ID}")]));
    fixed("HEAD").expect_err("it was not offered");

    let fields = ["7", "feature", "main", "octocat", "false", "https://e.com/7", "Title", "Body"];
    let requests = pr::parse(fields.join("\t").as_bytes(), false).expect("it has its fields");
    let here = pr::Target::Current;
    let planned = |key| {
        pr::run_on_selection(messages(), &requests, key, &here, pr::MenuAction::PrintNumber)
    };
    assert_eq!(planned("7"), Ok(pr::ActionPlan::Print("7\n".to_owned())));
    planned("8").expect_err("it was not offered");
}

#[test]
fn an_interrupted_operation_is_gone_on_with_or_given_up() {
    let step = in_progress::run_on_selection(messages(), Operation::Rebase, "skip")
        .expect("a rebase can skip");
    assert!(matches!(step, in_progress::Step::Run(run) if run.args == ["rebase", "--skip"]));
    let step = in_progress::run_on_selection(messages(), Operation::Merge, "abort")
        .expect("a merge can be given up");
    assert!(
        matches!(step, in_progress::Step::Confirm { run, target, .. }
            if run.args == ["merge", "--abort"] && target == "git merge --abort")
    );
    in_progress::run_on_selection(messages(), Operation::Merge, "skip")
        .expect_err("a merge cannot skip");

    let conflicts = [change("a.txt", "UU")];
    let run = in_progress::stage_resolved(messages(), &conflicts, &words(&["a.txt"]))
        .expect("the key is that of a conflict");
    assert_eq!(run.args, ["add", "--", ":(top,literal)a.txt"]);
}

#[test]
fn a_comparison_needs_files_that_differ() {
    let range = diff::DiffRange::staged(messages());

    assert!(matches!(
        diff::files_step(messages(), &range, &Vec::new()),
        diff::FilesStep::NoDiff(_)
    ));
    match diff::files_step(messages(), &range, &words(&["a.txt"])) {
        diff::FilesStep::Pick(picker) => assert_eq!(picker.items.len(), 1),
        other => panic!("unexpected step: {other:?}"),
    }
    let run = diff::run_on_selection(messages(), &range, &words(&["a.txt"]), &words(&["a.txt"]))
        .expect("the key is that of a file");
    assert_eq!(run.args, ["diff", "--staged", "--", ":(top,literal)a.txt"]);
}

#[test]
fn the_upstream_of_a_branch_is_compared_by_its_tracking_reference() {
    let upstream = Upstream {
        remote: "origin".to_owned(),
        merge_ref: "refs/heads/main".to_owned(),
    };
    let range = diff::upstream_range(messages(), Some("main"), Some(&upstream))
        .expect("a branch of a remote is followed");
    assert_eq!(range.arguments, ["HEAD", "refs/remotes/origin/main"]);

    let tag = Upstream {
        remote: "origin".to_owned(),
        merge_ref: "refs/tags/v1".to_owned(),
    };
    diff::upstream_range(messages(), Some("main"), Some(&tag))
        .expect_err("nothing follows a tag");
    diff::upstream_range(messages(), None, None).expect_err("no branch is checked out");
    diff::upstream_range(messages(), Some("main"), None).expect_err("nothing is followed");
}

#[test]
fn a_push_goes_where_it_was_picked() {
    let targets = [PushTarget {
        remote: "origin".to_owned(),
        branch: "main".to_owned(),
        is_upstream: true,
        ahead_behind: Some((1, 0)),
    }];
    let run = push::run_on_selection(
        messages(),
        &targets,
        "origin/main",
        push::UpstreamUpdate::Keep,
    )
    .expect("the key is that of a target");

    assert_eq!(run.args, ["push", "origin", "main"]);
    push::picker(messages(), &[]).expect_err("there is no remote");
}

#[test]
fn the_current_branch_is_integrated_after_consent() {
    let upstream = Upstream {
        remote: "origin".to_owned(),
        merge_ref: "refs/heads/main".to_owned(),
    };
    let target = pull::resolve_current_target(
        messages(),
        Some("main"),
        Some(&upstream),
        &words(&["origin"]),
    )
    .expect("the remote is known");
    assert_eq!(
        target,
        CurrentTarget {
            branch: "main".to_owned(),
            remote: "origin".to_owned(),
            reference: "refs/remotes/origin/main".to_owned(),
        }
    );
    assert_eq!(
        pull::fetch_current(messages(), &target).args,
        ["fetch", "origin"]
    );

    assert!(matches!(
        pull::integrate_current_branch(messages(), &target, PullMode::FfOnly, Some((2, 0))),
        Ok(Integration::UpToDate(_))
    ));
    match pull::integrate_current_branch(messages(), &target, PullMode::Rebase, Some((0, 3))) {
        Ok(Integration::Confirm { run, .. }) => {
            assert_eq!(run.args, ["rebase", "refs/remotes/origin/main"]);
        }
        other => panic!("unexpected step: {other:?}"),
    }
    pull::integrate_current_branch(messages(), &target, PullMode::Merge, None)
        .expect_err("the reference is not there");
    pull::resolve_current_target(messages(), Some("main"), Some(&upstream), &Vec::new())
        .expect_err("the remote is unknown");
    pull::resolve_current_target(messages(), None, None, &Vec::new())
        .expect_err("no branch is checked out");
}

#[test]
fn the_branches_to_pull_are_picked_where_there_are_several() {
    let target = |branch: &str, is_current| PullTarget {
        branch: branch.to_owned(),
        remote: "origin".to_owned(),
        tracking_ref: format!("refs/remotes/origin/{branch}"),
        is_current,
    };
    let scan = |targets| PullScan {
        targets,
        excluded: 0,
    };

    pull::choose_targets(messages(), &scan(Vec::new())).expect_err("nothing is followed");
    assert!(matches!(
        pull::choose_targets(messages(), &scan(vec![target("main", true)])),
        Ok(pull::PullChoice::Fixed(line)) if line.contains("main")
    ));
    match pull::choose_targets(
        messages(),
        &scan(vec![target("main", true), target("alpha", false)]),
    ) {
        Ok(pull::PullChoice::Choose(picker)) => {
            assert_eq!(picker.options.preselect, [picker.items[0].text()]);
        }
        other => panic!("unexpected choice: {other:?}"),
    }
}

#[test]
fn the_remote_to_fetch_is_picked_where_there_are_several() {
    fetch::choose_remote(messages(), &Vec::new()).expect_err("there is no remote");
    assert!(matches!(
        fetch::choose_remote(messages(), &words(&["origin"])),
        Ok(fetch::RemoteChoice::Fixed(fetch::FetchTarget::Remote(name), _)) if name == "origin"
    ));
    match fetch::choose_remote(messages(), &words(&["origin", "fork"])) {
        Ok(fetch::RemoteChoice::Choose(picker)) => assert_eq!(picker.items.len(), 3),
        other => panic!("unexpected choice: {other:?}"),
    }
    let run = fetch::run_on_target(messages(), &fetch::FetchTarget::All, PruneMode::Prune);
    assert_eq!(run.args, ["fetch", "--prune", "--all"]);
}

#[test]
fn a_repository_whose_path_is_no_text_cannot_be_offered() {
    let repository = |workdir, is_current| SiblingRepository {
        workdir,
        name: "alpha".to_owned(),
        current_branch: None,
        remotes: words(&["origin"]),
        is_current,
    };
    let scan = SiblingScan {
        candidates: vec![repository(
            WorkPath::Other {
                bytes: b"/repos/\xff".to_vec(),
                shown: "/repos/\u{fffd}".to_owned(),
            },
            false,
        )],
        excluded: 0,
    };
    let error = fetch::choose_siblings(messages(), &scan, PruneMode::Keep)
        .expect_err("the path is no key");
    assert!(error.message(messages()).contains("/repos/\u{fffd}"));
    let PreviewSource::Composite(sections) =
        fetch::sibling_preview_source(messages(), &scan.candidates[0])
    else {
        panic!("a repository is previewed in sections");
    };
    for (_, source) in &sections {
        assert!(
            matches!(source, PreviewSource::GitIn { directory, .. }
                if *directory == scan.candidates[0].workdir),
            "git runs in the directory itself, whatever is shown for it"
        );
    }

    let scan = SiblingScan {
        candidates: vec![repository(WorkPath::Text("/repos/alpha".to_owned()), true)],
        excluded: 0,
    };
    assert!(matches!(
        fetch::choose_siblings(messages(), &scan, PruneMode::Keep),
        Ok(fetch::SiblingChoice::Fixed(_))
    ));
}

#[test]
fn a_pull_request_is_checked_out_here_or_beside() {
    let fields = ["7", "feature", "main", "octocat", "false", "https://e.com/7", "Title", "Body"];
    let candidates = pr::parse(fields.join("\t").as_bytes(), false).expect("it has its fields");
    let candidate = pr::select(messages(), &candidates, "7").expect("the key is the number");

    let here = pr::perform(candidate, &pr::Target::Current, pr::MenuAction::Checkout);
    assert!(matches!(here, pr::ActionPlan::Run(run) if run.created.is_none()
        && run.args == ["pr", "checkout", "7"]));
    let destination = pr::Destination::NewWorktree {
        name: "feature".to_owned(),
        install: pr::InstallMode::Skip,
    };
    assert_eq!(
        pr::checkout(candidate, &destination.target("/work/feature")),
        pr::GhRun {
            args: words(&["pr", "checkout", "7", "--worktree", "/work/feature"]),
            created: Some(("/work/feature".to_owned(), pr::InstallMode::Skip)),
        }
    );
    assert_eq!(pr::Destination::Worktree.target("unused"), pr::Target::Current);
    assert_eq!(
        pr::perform(candidate, &pr::Target::Current, pr::MenuAction::PrintUrl),
        pr::ActionPlan::Print("https://e.com/7\n".to_owned())
    );
    assert_eq!(
        pr::resolve_action(messages(), pr::menu_key(pr::MenuAction::Diff)),
        Ok(pr::MenuAction::Diff)
    );
    pr::resolve_action(messages(), "merge").expect_err("there is no such action");
    pr::select(messages(), &candidates, "8").expect_err("there is no such request");
    pr::picker(messages(), &Vec::new(), false).expect_err("there is nothing to pick");
    assert_eq!(pr::menu(messages(), candidate).items.len(), 5);
}

#[test]
fn a_command_line_becomes_a_request() {
    let command = Command::Branch {
        all: true,
        command: None,
    };
    assert!(matches!(
        dispatch(messages(), Ok(()), &command),
        Ok(Request::SwitchBranch(BranchScope::All))
    ));
    let command = Command::Stash {
        command: StashCommand::Push {
            message: None,
            include_untracked: true,
        },
    };
    assert!(matches!(
        dispatch(messages(), Ok(()), &command),
        Ok(Request::StashPush(None, UntrackedFiles::Include))
    ));
    let command = Command::Stash {
        command: StashCommand::Pop,
    };
    assert!(matches!(
        dispatch(messages(), Ok(()), &command),
        Ok(Request::Stash(StashAction::Pop))
    ));
    let command = Command::Fetch {
        prune: true,
        siblings: true,
    };
    assert!(matches!(
        dispatch(messages(), Ok(()), &command),
        Ok(Request::Fetch(FetchScope::Siblings, PruneMode::Prune))
    ));
    let command = Command::Diff {
        staged: true,
        head: true,
        upstream: false,
        branch: false,
        commit: false,
    };
    dispatch(messages(), Ok(()), &command).expect_err("the modes exclude each other");
    let command = Command::Sync {
        rebase: true,
        merge: true,
    };
    dispatch(messages(), Ok(()), &command).expect_err("the modes exclude each other");
    let command = Command::Branch {
        all: false,
        command: Some(BranchCommand::Cleanup { into: None }),
    };
    assert!(matches!(
        dispatch(messages(), Ok(()), &command),
        Ok(Request::ManageBranch(BranchCommand::Cleanup { into: None }))
    ));
}

#[test]
fn a_menu_that_is_left_does_nothing() {
    let target = Target {
        id: ID,
        short_id: "1f0c9a4",
        label: "1f0c9a4 subject",
    };
    let follow = |answer| commit_menu::run_on_answer(messages(), &target, &log::MENU, answer);

    assert_eq!(follow(Answer::Aborted), Err(Error::Cancelled));
    assert_eq!(follow(Answer::Picked(Vec::new())), Err(Error::Cancelled));
    assert_eq!(
        follow(Answer::Picked(words(&["print"]))),
        Ok(ActionPlan::Print(format!("{ID}\n")))
    );
    follow(Answer::Picked(words(&["reset"]))).expect_err("the history offers no reset");
}

#[test]
fn an_answer_gives_its_keys_or_cancels() {
    assert_eq!(Answer::Aborted.keys(), Err(Error::Cancelled));
    assert_eq!(Answer::Aborted.key(), Err(Error::Cancelled));
    assert_eq!(
        Answer::Picked(words(&["a", "b"])).keys(),
        Ok(words(&["a", "b"]))
    );
    assert_eq!(Answer::Picked(words(&["a"])).key(), Ok("a".to_owned()));
    assert_eq!(Answer::Picked(Vec::new()).keys(), Ok(Vec::new()));
}

#[test]
fn a_file_is_previewed_by_the_paths_of_its_candidate() {
    let change = change("new.txt", "R ");
    let mut candidate = commit::to_candidate(&change);
    candidate.paths.push("old.txt".to_owned());
    let item = commit::to_item(None, &change, &candidate).expect("git knows the file");
    assert_eq!(
        item.preview,
        PreviewSource::Git(words(&[
            "diff",
            "--color=always",
            "HEAD",
            "--",
            ":(top,literal)new.txt",
            ":(top,literal)old.txt"
        ]))
    );
}

#[test]
fn what_could_not_be_read_is_named() {
    assert_eq!(
        merge::count_failed("topic"),
        "`topic` から取り込まれるコミット数の取得に失敗しました"
    );
    assert_eq!(
        rebase::count_failed("topic"),
        "`topic` の上に replay されるコミット数の取得に失敗しました"
    );
    assert_eq!(
        restore::files_read_failed("HEAD~1"),
        "`HEAD~1` のファイル一覧の取得に失敗しました"
    );
}
