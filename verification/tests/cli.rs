use std::path::{Path, PathBuf};

use fuzgit::cli::{
    localized_command, scan_lang_flag, ArgKind, ArgSpec, Bare, BranchCommand, Cli, Command,
    LangOption, ParsedArgs, ParsedCommand, StashCommand, WorktreeCommand, DEFAULT_COMMIT_LIMIT,
};
use fuzgit::git::WorkPath;
use fuzgit::i18n::resolve::resolve_language;
use fuzgit::i18n::Language;

/// The definition as the parser takes it.
fn command_of(language: Language) -> clap::Command {
    let definition = localized_command(language.messages());
    let lang = clap::Arg::new("lang")
        .long("lang")
        .global(true)
        .value_name("LANG")
        .value_parser(["ja", "en", "auto"])
        .help(definition.lang_help);
    clap::Command::new("gz")
        .about(definition.about)
        .arg_required_else_help(true)
        .subcommand_required(true)
        .arg(lang)
        .subcommands(definition.commands.iter().map(|spec| {
            clap::Command::new(spec.name)
                .about(spec.about)
                .args(spec.args.iter().map(argument))
                .args_conflicts_with_subcommands(spec.exclusive)
                .subcommand_required(spec.bare == Bare::ShowsHelp)
                .arg_required_else_help(spec.bare == Bare::ShowsHelp)
                .subcommands(spec.subcommands.iter().map(|below| {
                    clap::Command::new(below.name)
                        .about(below.about)
                        .args(below.args.iter().map(argument))
                }))
        }))
}

fn argument(spec: &ArgSpec) -> clap::Arg {
    let arg = clap::Arg::new(spec.id)
        .help(spec.help)
        .conflicts_with_all(spec.conflicts.clone());
    let long = spec.id.replace('_', "-");
    let arg = match spec.kind {
        ArgKind::Operand(name) => return arg.value_name(name).required(true),
        ArgKind::Path(name) => {
            return arg
                .value_name(name)
                .required(true)
                .value_parser(clap::builder::ValueParser::path_buf())
        }
        ArgKind::Flag => arg.long(long).action(clap::ArgAction::SetTrue),
        ArgKind::Value(name) => arg.long(long).value_name(name),
        ArgKind::Number(name) => arg
            .long(long)
            .value_name(name)
            .value_parser(|text: &str| text.parse::<usize>().map(|_| text.to_owned())),
    };
    match spec.short {
        Some(short) => arg.short(short),
        None => arg,
    }
}

fn work_path(path: &Path) -> WorkPath {
    match path.to_str() {
        Some(text) => WorkPath::Text(text.to_owned()),
        None => WorkPath::Other {
            bytes: path.as_os_str().as_encoded_bytes().to_vec(),
            shown: path.display().to_string(),
        },
    }
}

fn parsed_args(specs: &[ArgSpec], matches: &clap::ArgMatches) -> ParsedArgs {
    let mut args = ParsedArgs {
        flags: Vec::new(),
        values: Vec::new(),
        paths: Vec::new(),
    };
    for spec in specs {
        if spec.kind == ArgKind::Flag {
            if matches.get_flag(spec.id) {
                args.flags.push(spec.id.to_owned());
            }
        } else if matches!(spec.kind, ArgKind::Path(_)) {
            if let Some(path) = matches.get_one::<PathBuf>(spec.id) {
                args.paths.push((spec.id.to_owned(), work_path(path)));
            }
        } else if let Some(value) = matches.get_one::<String>(spec.id) {
            args.values.push((spec.id.to_owned(), value.clone()));
        }
    }
    args
}

/// Reads a command line by the definition in one language.
fn try_parse_in<I, T>(language: Language, argv: I) -> Result<Cli, clap::Error>
where
    I: IntoIterator<Item = T>,
    T: AsRef<str>,
{
    let argv: Vec<String> = argv.into_iter().map(|word| word.as_ref().to_owned()).collect();
    let matches = command_of(language).try_get_matches_from(argv)?;
    let lang = matches.get_one::<String>("lang").map(String::as_str);
    let (name, below) = matches.subcommand().expect("a command is required");
    let definition = localized_command(language.messages());
    let spec = definition
        .commands
        .iter()
        .find(|spec| spec.name == name)
        .expect("a parsed command is defined");
    let subcommand = below.subcommand().map(|(name, matches)| {
        let spec = spec
            .subcommands
            .iter()
            .find(|spec| spec.name == name)
            .expect("a parsed command is defined");
        (name.to_owned(), parsed_args(&spec.args, matches))
    });
    let parsed = ParsedCommand {
        name: name.to_owned(),
        args: parsed_args(&spec.args, below),
        subcommand,
    };
    Ok(Cli::from_parsed(lang, &parsed).expect("a command that parses is known"))
}

fn try_parse_from<I, T>(argv: I) -> Result<Cli, clap::Error>
where
    I: IntoIterator<Item = T>,
    T: AsRef<str>,
{
    try_parse_in(Language::English, argv)
}

fn contains_japanese(text: &str) -> bool {
    text.chars().any(|c| {
        matches!(c, '\u{3040}'..='\u{30ff}' | '\u{3400}'..='\u{9fff}' | '\u{ff00}'..='\u{ffef}')
    })
}

#[test]
fn cli_definition_is_valid() {
    command_of(Language::English).debug_assert();
}

#[test]
fn the_localized_definition_is_valid_in_every_language() {
    for language in [Language::Japanese, Language::English] {
        command_of(language).debug_assert();
    }
}

fn descriptions(command: &clap::Command) -> Vec<String> {
    let mut collected = Vec::new();

    if let Some(about) = command.get_about() {
        collected.push(about.to_string());
    }

    for argument in command.get_arguments() {
        let id = argument.get_id().as_str();
        if id == "help" || id == "version" {
            continue;
        }
        if let Some(help) = argument.get_help() {
            collected.push(help.to_string());
        }
    }

    for subcommand in command.get_subcommands() {
        if subcommand.get_name() == "help" {
            continue;
        }
        collected.extend(descriptions(subcommand));
    }

    collected
}

#[test]
fn the_derive_literals_stay_in_english() {
    for description in descriptions(&command_of(Language::English)) {
        assert!(
            !contains_japanese(&description),
            "the fallback must stay in english: {description}"
        );
    }
}

#[test]
fn the_localized_command_parses_the_same_arguments() {
    for argv in [
        vec!["gz", "branch", "--all"],
        vec!["gz", "log", "--limit", "5"],
        vec!["gz", "stash", "push", "-m", "作業中", "-u"],
        vec!["gz", "worktree", "add", "../feature"],
        vec!["gz", "--lang", "en", "diff", "--staged"],
    ] {
        let localized = try_parse_in(Language::Japanese, &argv)
            .unwrap_or_else(|err| panic!("{argv:?} should parse: {err}"));

        let plain = try_parse_in(Language::English, &argv)
            .unwrap_or_else(|err| panic!("{argv:?} should parse: {err}"));

        assert_eq!(
            format!("{localized:?}"),
            format!("{plain:?}"),
            "the localized definition must parse {argv:?} the same way"
        );
    }
}

#[test]
fn cherry_pick_is_exposed_as_kebab_case() {
    let cli = try_parse_from(["gz", "cherry-pick", "--branch", "feature"])
        .expect("cherry-pick should parse");

    match cli.command {
        Command::CherryPick { branch } => assert_eq!(branch.as_deref(), Some("feature")),
        other => panic!("unexpected subcommand: {other:?}"),
    }
}

#[test]
fn log_limit_defaults_to_the_documented_value() {
    let cli = try_parse_from(["gz", "log"]).expect("log should parse without options");

    match cli.command {
        Command::Log { limit, .. } => assert_eq!(limit, DEFAULT_COMMIT_LIMIT),
        other => panic!("unexpected subcommand: {other:?}"),
    }
}

#[test]
fn stash_requires_a_subcommand_so_that_help_is_shown() {
    let err = try_parse_from(["gz", "stash"]).expect_err("bare `gz stash` must show help");

    let message = err.to_string();
    for subcommand in ["push", "apply", "pop", "drop"] {
        assert!(
            message.contains(subcommand),
            "help should list `{subcommand}`: {message}"
        );
    }
}

#[test]
fn stash_push_takes_a_message_and_the_untracked_flag() {
    let cli = try_parse_from(["gz", "stash", "push", "-m", "作業中", "-u"])
        .expect("stash push should parse");

    match cli.command {
        Command::Stash {
            command:
                StashCommand::Push {
                    message,
                    include_untracked,
                },
        } => {
            assert_eq!(message.as_deref(), Some("作業中"));
            assert!(include_untracked);
        }
        other => panic!("unexpected subcommand: {other:?}"),
    }
}

#[test]
fn stash_push_defaults_to_tracked_changes_without_a_message() {
    let cli =
        try_parse_from(["gz", "stash", "push"]).expect("stash push should parse bare");

    match cli.command {
        Command::Stash {
            command:
                StashCommand::Push {
                    message,
                    include_untracked,
                },
        } => {
            assert_eq!(message, None);
            assert!(
                !include_untracked,
                "untracked files must be opt-in: they cannot be stashed without `-u`"
            );
        }
        other => panic!("unexpected subcommand: {other:?}"),
    }
}

#[test]
fn stash_exposes_apply_pop_and_drop_as_subcommands() {
    for (argument, expected) in [
        ("apply", StashCommand::Apply),
        ("pop", StashCommand::Pop),
        ("drop", StashCommand::Drop),
    ] {
        let cli = try_parse_from(["gz", "stash", argument])
            .unwrap_or_else(|err| panic!("`gz stash {argument}` should parse: {err}"));

        match cli.command {
            Command::Stash { command } => assert_eq!(command, expected),
            other => panic!("unexpected subcommand: {other:?}"),
        }
    }
}

#[test]
fn the_replaced_stash_flags_are_no_longer_accepted() {
    for flag in ["--pop", "--drop"] {
        assert!(
            try_parse_from(["gz", "stash", flag]).is_err(),
            "`gz stash {flag}` must be rejected after the move to subcommands"
        );
    }
}

#[test]
fn tag_switch_and_diff_are_mutually_exclusive() {
    try_parse_from(["gz", "tag", "--switch", "--diff"])
        .expect_err("--switch and --diff must not be combined");
}

#[test]
fn reflog_restore_takes_the_new_branch_name() {
    let cli = try_parse_from(["gz", "reflog", "--restore", "recovered"])
        .expect("reflog should parse");

    match cli.command {
        Command::Reflog { restore, .. } => assert_eq!(restore.as_deref(), Some("recovered")),
        other => panic!("unexpected subcommand: {other:?}"),
    }
}

#[test]
fn commit_takes_an_optional_message() {
    let cli = try_parse_from(["gz", "commit", "-m", "作業を保存"])
        .expect("commit should parse with a message");
    match cli.command {
        Command::Commit { message } => assert_eq!(message.as_deref(), Some("作業を保存")),
        other => panic!("unexpected subcommand: {other:?}"),
    }

    let cli = try_parse_from(["gz", "commit"]).expect("commit should parse bare");
    match cli.command {
        Command::Commit { message } => assert_eq!(message, None),
        other => panic!("unexpected subcommand: {other:?}"),
    }
}

#[test]
fn push_is_not_offered() {
    assert!(
        try_parse_from(["gz", "push"]).is_err(),
        "`gz push` must not be a subcommand"
    );
}

#[test]
fn fixup_takes_the_squash_flag() {
    let cli = try_parse_from(["gz", "fixup", "--squash"]).expect("fixup should parse");
    match cli.command {
        Command::Fixup { squash } => assert!(squash),
        other => panic!("unexpected subcommand: {other:?}"),
    }

    let cli = try_parse_from(["gz", "fixup"]).expect("fixup should parse bare");
    match cli.command {
        Command::Fixup { squash } => assert!(!squash),
        other => panic!("unexpected subcommand: {other:?}"),
    }
}

#[test]
fn merge_accepts_each_strategy_flag_on_its_own() {
    for (flag, expected) in [
        ("--no-ff", (true, false, false)),
        ("--squash", (false, true, false)),
        ("--ff-only", (false, false, true)),
    ] {
        let cli = try_parse_from(["gz", "merge", flag])
            .unwrap_or_else(|err| panic!("`gz merge {flag}` should parse: {err}"));

        match cli.command {
            Command::Merge {
                no_ff,
                squash,
                ff_only,
            } => assert_eq!((no_ff, squash, ff_only), expected),
            other => panic!("unexpected subcommand: {other:?}"),
        }
    }
}

#[test]
fn merge_strategy_flags_are_mutually_exclusive() {
    for flags in [
        ["--no-ff", "--squash"],
        ["--no-ff", "--ff-only"],
        ["--squash", "--ff-only"],
    ] {
        try_parse_from(["gz", "merge", flags[0], flags[1]]).unwrap_err();
    }
}

#[test]
fn rebase_takes_no_options() {
    let cli = try_parse_from(["gz", "rebase"]).expect("rebase should parse");

    assert!(matches!(cli.command, Command::Rebase));
}

#[test]
fn bare_branch_still_switches_branches() {
    let cli = try_parse_from(["gz", "branch"]).expect("bare `gz branch` should parse");

    match cli.command {
        Command::Branch { all, command } => {
            assert!(!all);
            assert_eq!(command, None, "サブコマンドなし＝切替");
        }
        other => panic!("unexpected subcommand: {other:?}"),
    }
}

#[test]
fn branch_all_still_includes_remote_branches() {
    for arguments in [["gz", "branch", "-a"], ["gz", "branch", "--all"]] {
        let cli = try_parse_from(arguments).expect("`gz branch --all` should parse");

        match cli.command {
            Command::Branch { all, command } => {
                assert!(all);
                assert_eq!(command, None);
            }
            other => panic!("unexpected subcommand: {other:?}"),
        }
    }
}

#[test]
fn branch_exposes_the_management_subcommands() {
    let cli = try_parse_from(["gz", "branch", "create", "feature", "--switch"])
        .expect("`gz branch create` should parse");
    match cli.command {
        Command::Branch { all, command } => {
            assert!(!all);
            assert_eq!(
                command,
                Some(BranchCommand::Create {
                    name: "feature".to_string(),
                    switch: true,
                })
            );
        }
        other => panic!("unexpected subcommand: {other:?}"),
    }

    let cli = try_parse_from(["gz", "branch", "delete", "--force", "--into", "main"])
        .expect("`gz branch delete` should parse");
    match cli.command {
        Command::Branch { command, .. } => assert_eq!(
            command,
            Some(BranchCommand::Delete {
                force: true,
                into: Some("main".to_string()),
            })
        ),
        other => panic!("unexpected subcommand: {other:?}"),
    }

    let cli =
        try_parse_from(["gz", "branch", "cleanup"]).expect("`gz branch cleanup` parses");
    match cli.command {
        Command::Branch { command, .. } => {
            assert_eq!(command, Some(BranchCommand::Cleanup { into: None }));
        }
        other => panic!("unexpected subcommand: {other:?}"),
    }
}

#[test]
fn branch_create_requires_a_name() {
    try_parse_from(["gz", "branch", "create"])
        .expect_err("the new branch name is required");
}

#[test]
fn the_switch_flags_cannot_be_combined_with_a_management_subcommand() {
    try_parse_from(["gz", "branch", "--all", "create", "feature"])
        .expect_err("`--all` and a subcommand must not be combined");
}

#[test]
fn revert_takes_the_no_edit_flag() {
    let cli = try_parse_from(["gz", "revert", "--no-edit"]).expect("revert should parse");
    match cli.command {
        Command::Revert { no_edit } => assert!(no_edit),
        other => panic!("unexpected subcommand: {other:?}"),
    }

    let cli = try_parse_from(["gz", "revert"]).expect("revert should parse bare");
    match cli.command {
        Command::Revert { no_edit } => assert!(!no_edit),
        other => panic!("unexpected subcommand: {other:?}"),
    }
}

#[test]
fn status_takes_no_options() {
    let cli = try_parse_from(["gz", "status"]).expect("status should parse");

    assert!(matches!(cli.command, Command::Status));
}

#[test]
fn diff_defaults_to_the_unstaged_comparison() {
    let cli = try_parse_from(["gz", "diff"]).expect("diff should parse bare");

    match cli.command {
        Command::Diff {
            staged,
            head,
            upstream,
            branch,
            commit,
        } => assert_eq!(
            (staged, head, upstream, branch, commit),
            (false, false, false, false, false)
        ),
        other => panic!("unexpected subcommand: {other:?}"),
    }
}

#[test]
fn diff_accepts_each_comparison_mode_on_its_own() {
    for (flag, expected) in [
        ("--staged", (true, false, false, false, false)),
        ("--head", (false, true, false, false, false)),
        ("--upstream", (false, false, true, false, false)),
        ("--branch", (false, false, false, true, false)),
        ("--commit", (false, false, false, false, true)),
    ] {
        let cli = try_parse_from(["gz", "diff", flag])
            .unwrap_or_else(|err| panic!("`gz diff {flag}` should parse: {err}"));

        match cli.command {
            Command::Diff {
                staged,
                head,
                upstream,
                branch,
                commit,
            } => assert_eq!((staged, head, upstream, branch, commit), expected),
            other => panic!("unexpected subcommand: {other:?}"),
        }
    }
}

#[test]
fn diff_comparison_modes_are_mutually_exclusive() {
    let modes = ["--staged", "--head", "--upstream", "--branch", "--commit"];
    for (index, first) in modes.iter().enumerate() {
        for second in &modes[index + 1..] {
            assert!(
                try_parse_from(["gz", "diff", first, second]).is_err(),
                "`gz diff {first} {second}` must be rejected"
            );
        }
    }
}

#[test]
fn the_short_options_follow_git() {
    let cli =
        try_parse_from(["gz", "restore", "-S"]).expect("`gz restore -S` should parse");
    match cli.command {
        Command::Restore { staged, source } => {
            assert!(staged, "-S should mean --staged");
            assert_eq!(source, None, "-S must not be mistaken for --source");
        }
        other => panic!("unexpected subcommand: {other:?}"),
    }

    let cli = try_parse_from(["gz", "restore", "-s", "HEAD~1"])
        .expect("`gz restore -s` should still take a value");
    match cli.command {
        Command::Restore { staged, source } => {
            assert_eq!(source.as_deref(), Some("HEAD~1"));
            assert!(!staged, "-s must not enable --staged");
        }
        other => panic!("unexpected subcommand: {other:?}"),
    }

    let cli = try_parse_from(["gz", "sync", "-r"]).expect("`gz sync -r` should parse");
    match cli.command {
        Command::Sync { rebase, merge } => assert_eq!((rebase, merge), (true, false)),
        other => panic!("unexpected subcommand: {other:?}"),
    }

    let cli = try_parse_from(["gz", "branch", "delete", "-f"])
        .expect("`gz branch delete -f` should parse");
    match cli.command {
        Command::Branch {
            command: Some(BranchCommand::Delete { force, .. }),
            ..
        } => assert!(force),
        other => panic!("unexpected subcommand: {other:?}"),
    }
}

#[test]
fn the_options_without_a_git_counterpart_have_no_short_form() {
    for arguments in [
        ["gz", "tag", "-d"],
        ["gz", "tag", "-s"],
        ["gz", "fixup", "-s"],
        ["gz", "sync", "-m"],
    ] {
        assert!(
            try_parse_from(arguments).is_err(),
            "{arguments:?} must not be accepted as a short form"
        );
    }
}

#[test]
fn fetch_takes_the_prune_flag() {
    for argument in ["--prune", "-p"] {
        let cli = try_parse_from(["gz", "fetch", argument])
            .unwrap_or_else(|err| panic!("`gz fetch {argument}` should parse: {err}"));
        match cli.command {
            Command::Fetch { prune, .. } => assert!(prune, "`{argument}` should enable it"),
            other => panic!("unexpected subcommand: {other:?}"),
        }
    }

    let cli = try_parse_from(["gz", "fetch"]).expect("fetch should parse bare");
    match cli.command {
        Command::Fetch { prune, .. } => assert!(!prune),
        other => panic!("unexpected subcommand: {other:?}"),
    }
}

#[test]
fn fetch_takes_the_siblings_flag_in_both_spellings() {
    for argument in ["--siblings", "-s"] {
        let cli = try_parse_from(["gz", "fetch", argument])
            .unwrap_or_else(|err| panic!("`gz fetch {argument}` should parse: {err}"));
        match cli.command {
            Command::Fetch { siblings, .. } => {
                assert!(siblings, "`{argument}` should enable it")
            }
            other => panic!("unexpected subcommand: {other:?}"),
        }
    }
}

#[test]
fn fetch_targets_only_the_current_repository_by_default() {
    let cli = try_parse_from(["gz", "fetch"]).expect("fetch should parse bare");

    match cli.command {
        Command::Fetch { siblings, .. } => assert!(!siblings),
        other => panic!("unexpected subcommand: {other:?}"),
    }
}

#[test]
fn fetch_accepts_pruning_together_with_siblings() {
    let cli = try_parse_from(["gz", "fetch", "--prune", "--siblings"])
        .expect("`gz fetch --prune --siblings` should parse");

    match cli.command {
        Command::Fetch { prune, siblings } => assert_eq!((prune, siblings), (true, true)),
        other => panic!("unexpected subcommand: {other:?}"),
    }
}

#[test]
fn pull_takes_no_options_and_no_target_argument() {
    let cli = try_parse_from(["gz", "pull"]).expect("pull should parse bare");
    assert!(matches!(cli.command, Command::Pull));

    for arguments in [
        ["gz", "pull", "--rebase"],
        ["gz", "pull", "--merge"],
        ["gz", "pull", "--siblings"],
        ["gz", "pull", "--prune"],
        ["gz", "pull", "main"],
    ] {
        let parsed = try_parse_from(arguments);
        assert!(parsed.is_err(), "`{arguments:?}` must be rejected");
    }
}

#[test]
fn sync_defaults_to_fast_forward_only() {
    let cli = try_parse_from(["gz", "sync"]).expect("sync should parse bare");

    match cli.command {
        Command::Sync { rebase, merge } => assert_eq!((rebase, merge), (false, false)),
        other => panic!("unexpected subcommand: {other:?}"),
    }
}

#[test]
fn sync_integration_modes_are_mutually_exclusive() {
    let cli = try_parse_from(["gz", "sync", "--rebase"]).expect("sync --rebase parses");
    match cli.command {
        Command::Sync { rebase, merge } => assert_eq!((rebase, merge), (true, false)),
        other => panic!("unexpected subcommand: {other:?}"),
    }

    let cli = try_parse_from(["gz", "sync", "--merge"]).expect("sync --merge parses");
    match cli.command {
        Command::Sync { rebase, merge } => assert_eq!((rebase, merge), (false, true)),
        other => panic!("unexpected subcommand: {other:?}"),
    }

    try_parse_from(["gz", "sync", "--rebase", "--merge"])
        .expect_err("--rebase and --merge must not be combined");
}

#[test]
fn bare_worktree_lists_instead_of_requiring_a_subcommand() {
    let cli = try_parse_from(["gz", "worktree"]).expect("bare `gz worktree` should parse");

    match cli.command {
        Command::Worktree { command } => assert_eq!(command, None),
        other => panic!("unexpected subcommand: {other:?}"),
    }
}

#[test]
fn worktree_exposes_add_remove_and_prune() {
    let cli = try_parse_from(["gz", "worktree", "add", "../feature"])
        .expect("`gz worktree add` should parse");
    match cli.command {
        Command::Worktree { command } => assert_eq!(
            command,
            Some(WorktreeCommand::Add {
                path: WorkPath::Text("../feature".to_owned()),
            })
        ),
        other => panic!("unexpected subcommand: {other:?}"),
    }

    for (argument, expected) in [
        ("remove", WorktreeCommand::Remove),
        ("prune", WorktreeCommand::Prune),
    ] {
        let cli = try_parse_from(["gz", "worktree", argument])
            .unwrap_or_else(|err| panic!("`gz worktree {argument}` should parse: {err}"));

        match cli.command {
            Command::Worktree { command } => assert_eq!(command, Some(expected)),
            other => panic!("unexpected subcommand: {other:?}"),
        }
    }
}

#[test]
fn worktree_add_requires_a_path() {
    try_parse_from(["gz", "worktree", "add"])
        .expect_err("the worktree path is required (no automatic suggestion)");
}

#[test]
fn no_arguments_is_rejected_so_that_help_is_shown() {
    let err = try_parse_from(["gz"]).expect_err("bare `gz` must show help");

    assert!(
        err.to_string().contains("branch"),
        "help should list subcommands: {err}"
    );
}

fn lang_value(option: LangOption) -> &'static str {
    match option {
        LangOption::Ja => "ja",
        LangOption::En => "en",
        LangOption::Auto => "auto",
    }
}

#[test]
fn the_lang_flag_is_read_alike_by_the_prescan_and_by_clap() {
    for argv in [
        vec!["gz", "--lang", "ja", "log"],
        vec!["gz", "--lang=ja", "log"],
        vec!["gz", "log", "--lang", "en"],
        vec!["gz", "log", "--lang=auto"],
    ] {
        let scanned = scan_lang_flag(&argv.iter().map(|word| (*word).to_owned()).collect::<Vec<_>>());
        let parsed = try_parse_from(&argv)
            .unwrap_or_else(|err| panic!("{argv:?} should parse: {err}"))
            .lang;

        assert_eq!(
            scanned.as_deref(),
            parsed.map(lang_value),
            "the prescan and clap must agree on {argv:?}"
        );
    }
}

#[test]
fn the_lang_flag_is_not_read_after_the_argument_terminator() {
    let argv = ["gz", "log", "--", "--lang", "ja"];

    let scanned = scan_lang_flag(&argv.iter().map(|word| (*word).to_owned()).collect::<Vec<_>>());

    assert_eq!(scanned, None);
    try_parse_from(argv).expect_err("`gz log` takes no operands");
}

#[test]
fn the_lang_flag_is_available_on_every_subcommand() {
    for subcommand in ["branch", "status", "worktree"] {
        try_parse_from(["gz", subcommand, "--lang", "en"])
            .unwrap_or_else(|err| panic!("`gz {subcommand} --lang en` should parse: {err}"));
    }
}

#[test]
fn the_strongest_known_request_decides_the_language() {
    let resolved = |flag, variable, setting, locale| {
        resolve_language(&[flag, variable, setting], locale)
    };

    assert_eq!(
        resolved(Some("en"), Some("ja"), None, Some("ja_JP.UTF-8")),
        Language::English
    );
    assert_eq!(
        resolved(None, Some("ja"), Some("en"), None),
        Language::Japanese
    );
    assert_eq!(
        resolved(Some("auto"), Some("en"), None, Some("ja_JP.UTF-8")),
        Language::Japanese,
        "the locale decides for auto"
    );
    assert_eq!(
        resolved(Some("fr"), None, Some("ja"), None),
        Language::Japanese,
        "an unknown spelling asks for nothing"
    );
    assert_eq!(resolved(None, None, None, Some("C")), Language::English);
    assert_eq!(resolved(None, None, None, None), Language::English);
}

#[test]
fn every_command_that_is_defined_is_known() {
    let empty = || ParsedArgs {
        flags: Vec::new(),
        values: Vec::new(),
        paths: Vec::new(),
    };
    for language in [Language::Japanese, Language::English] {
        for spec in localized_command(language.messages()).commands {
            let parsed = |subcommand| ParsedCommand {
                name: spec.name.to_owned(),
                args: empty(),
                subcommand,
            };
            assert_eq!(
                Command::from_parsed(&parsed(None)).is_some(),
                spec.bare == Bare::Runs,
                "{}",
                spec.name
            );
            for below in &spec.subcommands {
                let mut args = empty();
                for arg in &below.args {
                    if matches!(arg.kind, ArgKind::Operand(_)) {
                        args.values.push((arg.id.to_owned(), "value".to_owned()));
                    }
                    if matches!(arg.kind, ArgKind::Path(_)) {
                        let path = WorkPath::Text("value".to_owned());
                        args.paths.push((arg.id.to_owned(), path));
                    }
                }
                let parsed = parsed(Some((below.name.to_owned(), args)));
                assert!(Command::from_parsed(&parsed).is_some(), "{}", below.name);
            }
        }
    }
}

#[test]
fn what_is_not_defined_is_not_known() {
    let parsed = |name: &str, values: Vec<(String, String)>| ParsedCommand {
        name: name.to_owned(),
        args: ParsedArgs {
            flags: Vec::new(),
            values,
            paths: Vec::new(),
        },
        subcommand: None,
    };

    assert_eq!(Command::from_parsed(&parsed("push", Vec::new())), None);
    assert_eq!(
        Command::from_parsed(&parsed(
            "log",
            vec![("limit".to_owned(), "many".to_owned())]
        )),
        None
    );
    assert_eq!(Cli::from_parsed(Some("fr"), &parsed("add", Vec::new())), None);
}

#[test]
fn a_path_that_is_no_text_is_taken_byte_for_byte() {
    let path = || WorkPath::Other {
        bytes: b"../\xff".to_vec(),
        shown: "../\u{fffd}".to_owned(),
    };
    let mut args = ParsedArgs {
        flags: Vec::new(),
        values: Vec::new(),
        paths: vec![("path".to_owned(), path())],
    };
    let parsed = |args| ParsedCommand {
        name: "worktree".to_owned(),
        args: ParsedArgs {
            flags: Vec::new(),
            values: Vec::new(),
            paths: Vec::new(),
        },
        subcommand: Some(("add".to_owned(), args)),
    };
    assert_eq!(args.path("path"), Some(path()));
    assert_eq!(args.path("name"), None);
    args.paths
        .push(("path".to_owned(), WorkPath::Text("later".to_owned())));
    assert_eq!(
        Command::from_parsed(&parsed(args)),
        Some(Command::Worktree {
            command: Some(WorktreeCommand::Add { path: path() }),
        })
    );
    let none = ParsedArgs {
        flags: Vec::new(),
        values: vec![("path".to_owned(), "text".to_owned())],
        paths: Vec::new(),
    };
    assert_eq!(Command::from_parsed(&parsed(none)), None, "a path is needed");
}
