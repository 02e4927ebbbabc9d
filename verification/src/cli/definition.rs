//! The command line: its commands, their arguments and what the help says of them.

use vstd::prelude::*;

use crate::cli::{
    arg, arg_view, arg_views, command_views, names_branch_command, names_command, names_stash_command,
    names_worktree_command, subcommand_views, ArgKind, ArgSpec,
    ArgView, Bare, CommandSpec, CommandView, Definition, DefinitionView, KindView, ParsedArgs,
    ParsedCommand, SubcommandSpec, SubcommandView,
};
use crate::i18n::cli::CliMessages;
use crate::i18n::Messages;
use crate::text::number_of;

verus! {

/// `gz branch create`.
pub open spec fn branch_create_view(cli: CliMessages) -> SubcommandView {
    SubcommandView {
        name: "create"@,
        about: cli.branch_create_about_text(),
        args: seq![
            arg_view(KindView::Operand("NAME"@), "name"@, None, Seq::empty(), cli.branch_create_name_help_text()),
            arg_view(KindView::Flag, "switch"@, None, Seq::empty(), cli.branch_create_switch_help_text()),
        ],
    }
}

/// `gz branch create`.
fn branch_create_command(cli: CliMessages) -> (command: SubcommandSpec)
    ensures
        command@ == branch_create_view(cli),
{
    let mut args: Vec<ArgSpec> = Vec::new();
    args.push(arg(ArgKind::Operand("NAME"), "name", None, &[], cli.branch_create_name_help()));
    args.push(arg(ArgKind::Flag, "switch", None, &[], cli.branch_create_switch_help()));
    assert(arg_views(args@) =~~= branch_create_view(cli).args);
    SubcommandSpec { name: "create", about: cli.branch_create_about(), args }
}

/// `gz branch delete`.
pub open spec fn branch_delete_view(cli: CliMessages) -> SubcommandView {
    SubcommandView {
        name: "delete"@,
        about: cli.branch_delete_about_text(),
        args: seq![
            arg_view(KindView::Flag, "force"@, Some('f'), Seq::empty(), cli.branch_delete_force_help_text()),
            arg_view(KindView::Value("BRANCH"@), "into"@, None, Seq::empty(), cli.branch_delete_into_help_text()),
        ],
    }
}

/// `gz branch delete`.
fn branch_delete_command(cli: CliMessages) -> (command: SubcommandSpec)
    ensures
        command@ == branch_delete_view(cli),
{
    let mut args: Vec<ArgSpec> = Vec::new();
    args.push(arg(ArgKind::Flag, "force", Some('f'), &[], cli.branch_delete_force_help()));
    args.push(arg(ArgKind::Value("BRANCH"), "into", None, &[], cli.branch_delete_into_help()));
    assert(arg_views(args@) =~~= branch_delete_view(cli).args);
    SubcommandSpec { name: "delete", about: cli.branch_delete_about(), args }
}

/// `gz branch cleanup`.
pub open spec fn branch_cleanup_view(cli: CliMessages) -> SubcommandView {
    SubcommandView {
        name: "cleanup"@,
        about: cli.branch_cleanup_about_text(),
        args: seq![
            arg_view(KindView::Value("BRANCH"@), "into"@, None, Seq::empty(), cli.branch_cleanup_into_help_text()),
        ],
    }
}

/// `gz branch cleanup`.
fn branch_cleanup_command(cli: CliMessages) -> (command: SubcommandSpec)
    ensures
        command@ == branch_cleanup_view(cli),
{
    let mut args: Vec<ArgSpec> = Vec::new();
    args.push(arg(ArgKind::Value("BRANCH"), "into", None, &[], cli.branch_cleanup_into_help()));
    assert(arg_views(args@) =~~= branch_cleanup_view(cli).args);
    SubcommandSpec { name: "cleanup", about: cli.branch_cleanup_about(), args }
}

/// `gz branch`.
pub open spec fn branch_view(cli: CliMessages) -> CommandView {
    CommandView {
        name: "branch"@,
        about: cli.branch_about_text(),
        args: seq![
            arg_view(KindView::Flag, "all"@, Some('a'), Seq::empty(), cli.branch_all_help_text()),
        ],
        subcommands: seq![branch_create_view(cli), branch_delete_view(cli), branch_cleanup_view(cli)],
        exclusive: true,
        bare: Bare::Runs,
    }
}

/// `gz branch`.
fn localize_branch(cli: CliMessages) -> (command: CommandSpec)
    ensures
        command@ == branch_view(cli),
{
    let mut args: Vec<ArgSpec> = Vec::new();
    args.push(arg(ArgKind::Flag, "all", Some('a'), &[], cli.branch_all_help()));
    assert(arg_views(args@) =~~= branch_view(cli).args);
    let mut subcommands: Vec<SubcommandSpec> = Vec::new();
    subcommands.push(branch_create_command(cli));
    subcommands.push(branch_delete_command(cli));
    subcommands.push(branch_cleanup_command(cli));
    assert(subcommand_views(subcommands@) =~= branch_view(cli).subcommands);
    CommandSpec {
        name: "branch",
        about: cli.branch_about(),
        args,
        subcommands,
        exclusive: true,
        bare: Bare::Runs,
    }
}

/// `gz log`.
pub open spec fn log_view(cli: CliMessages) -> CommandView {
    CommandView {
        name: "log"@,
        about: cli.log_about_text(),
        args: seq![
            arg_view(KindView::Number("N"@), "limit"@, Some('n'), Seq::empty(), cli.log_limit_help_text()),
            arg_view(KindView::Flag, "action"@, None, Seq::empty(), cli.log_action_help_text()),
        ],
        subcommands: Seq::empty(),
        exclusive: false,
        bare: Bare::Runs,
    }
}

/// `gz log`.
fn log_command(cli: CliMessages) -> (command: CommandSpec)
    ensures
        command@ == log_view(cli),
{
    let mut args: Vec<ArgSpec> = Vec::new();
    args.push(arg(ArgKind::Number("N"), "limit", Some('n'), &[], cli.log_limit_help()));
    args.push(arg(ArgKind::Flag, "action", None, &[], cli.log_action_help()));
    assert(arg_views(args@) =~~= log_view(cli).args);
    let subcommands: Vec<SubcommandSpec> = Vec::new();
    assert(subcommand_views(subcommands@) =~= log_view(cli).subcommands);
    CommandSpec {
        name: "log",
        about: cli.log_about(),
        args,
        subcommands,
        exclusive: false,
        bare: Bare::Runs,
    }
}

/// `gz cherry-pick`.
pub open spec fn cherry_pick_view(cli: CliMessages) -> CommandView {
    CommandView {
        name: "cherry-pick"@,
        about: cli.cherry_pick_about_text(),
        args: seq![
            arg_view(KindView::Value("BRANCH"@), "branch"@, Some('b'), Seq::empty(), cli.cherry_pick_branch_help_text()),
        ],
        subcommands: Seq::empty(),
        exclusive: false,
        bare: Bare::Runs,
    }
}

/// `gz cherry-pick`.
fn cherry_pick_command(cli: CliMessages) -> (command: CommandSpec)
    ensures
        command@ == cherry_pick_view(cli),
{
    let mut args: Vec<ArgSpec> = Vec::new();
    args.push(arg(ArgKind::Value("BRANCH"), "branch", Some('b'), &[], cli.cherry_pick_branch_help()));
    assert(arg_views(args@) =~~= cherry_pick_view(cli).args);
    let subcommands: Vec<SubcommandSpec> = Vec::new();
    assert(subcommand_views(subcommands@) =~= cherry_pick_view(cli).subcommands);
    CommandSpec {
        name: "cherry-pick",
        about: cli.cherry_pick_about(),
        args,
        subcommands,
        exclusive: false,
        bare: Bare::Runs,
    }
}

/// `gz restore`.
pub open spec fn restore_view(cli: CliMessages) -> CommandView {
    CommandView {
        name: "restore"@,
        about: cli.restore_about_text(),
        args: seq![
            arg_view(KindView::Value("REV"@), "source"@, Some('s'), Seq::empty(), cli.restore_source_help_text()),
            arg_view(KindView::Flag, "staged"@, Some('S'), Seq::empty(), cli.restore_staged_help_text()),
        ],
        subcommands: Seq::empty(),
        exclusive: false,
        bare: Bare::Runs,
    }
}

/// `gz restore`.
fn restore_command(cli: CliMessages) -> (command: CommandSpec)
    ensures
        command@ == restore_view(cli),
{
    let mut args: Vec<ArgSpec> = Vec::new();
    args.push(arg(ArgKind::Value("REV"), "source", Some('s'), &[], cli.restore_source_help()));
    args.push(arg(ArgKind::Flag, "staged", Some('S'), &[], cli.restore_staged_help()));
    assert(arg_views(args@) =~~= restore_view(cli).args);
    let subcommands: Vec<SubcommandSpec> = Vec::new();
    assert(subcommand_views(subcommands@) =~= restore_view(cli).subcommands);
    CommandSpec {
        name: "restore",
        about: cli.restore_about(),
        args,
        subcommands,
        exclusive: false,
        bare: Bare::Runs,
    }
}

/// `gz add`.
pub open spec fn add_view(cli: CliMessages) -> CommandView {
    CommandView {
        name: "add"@,
        about: cli.add_about_text(),
        args: Seq::empty(),
        subcommands: Seq::empty(),
        exclusive: false,
        bare: Bare::Runs,
    }
}

/// `gz add`.
fn add_command(cli: CliMessages) -> (command: CommandSpec)
    ensures
        command@ == add_view(cli),
{
    let args: Vec<ArgSpec> = Vec::new();
    assert(arg_views(args@) =~~= add_view(cli).args);
    let subcommands: Vec<SubcommandSpec> = Vec::new();
    assert(subcommand_views(subcommands@) =~= add_view(cli).subcommands);
    CommandSpec {
        name: "add",
        about: cli.add_about(),
        args,
        subcommands,
        exclusive: false,
        bare: Bare::Runs,
    }
}

/// `gz stash push`.
pub open spec fn stash_push_view(cli: CliMessages) -> SubcommandView {
    SubcommandView {
        name: "push"@,
        about: cli.stash_push_about_text(),
        args: seq![
            arg_view(KindView::Value("MESSAGE"@), "message"@, Some('m'), Seq::empty(), cli.stash_push_message_help_text()),
            arg_view(KindView::Flag, "include_untracked"@, Some('u'), Seq::empty(), cli.stash_push_include_untracked_help_text()),
        ],
    }
}

/// `gz stash push`.
fn stash_push_command(cli: CliMessages) -> (command: SubcommandSpec)
    ensures
        command@ == stash_push_view(cli),
{
    let mut args: Vec<ArgSpec> = Vec::new();
    args.push(arg(ArgKind::Value("MESSAGE"), "message", Some('m'), &[], cli.stash_push_message_help()));
    args.push(arg(ArgKind::Flag, "include_untracked", Some('u'), &[], cli.stash_push_include_untracked_help()));
    assert(arg_views(args@) =~~= stash_push_view(cli).args);
    SubcommandSpec { name: "push", about: cli.stash_push_about(), args }
}

/// `gz stash apply`.
pub open spec fn stash_apply_view(cli: CliMessages) -> SubcommandView {
    SubcommandView {
        name: "apply"@,
        about: cli.stash_apply_about_text(),
        args: Seq::empty(),
    }
}

/// `gz stash apply`.
fn stash_apply_command(cli: CliMessages) -> (command: SubcommandSpec)
    ensures
        command@ == stash_apply_view(cli),
{
    let args: Vec<ArgSpec> = Vec::new();
    assert(arg_views(args@) =~~= stash_apply_view(cli).args);
    SubcommandSpec { name: "apply", about: cli.stash_apply_about(), args }
}

/// `gz stash pop`.
pub open spec fn stash_pop_view(cli: CliMessages) -> SubcommandView {
    SubcommandView {
        name: "pop"@,
        about: cli.stash_pop_about_text(),
        args: Seq::empty(),
    }
}

/// `gz stash pop`.
fn stash_pop_command(cli: CliMessages) -> (command: SubcommandSpec)
    ensures
        command@ == stash_pop_view(cli),
{
    let args: Vec<ArgSpec> = Vec::new();
    assert(arg_views(args@) =~~= stash_pop_view(cli).args);
    SubcommandSpec { name: "pop", about: cli.stash_pop_about(), args }
}

/// `gz stash drop`.
pub open spec fn stash_drop_view(cli: CliMessages) -> SubcommandView {
    SubcommandView {
        name: "drop"@,
        about: cli.stash_drop_about_text(),
        args: Seq::empty(),
    }
}

/// `gz stash drop`.
fn stash_drop_command(cli: CliMessages) -> (command: SubcommandSpec)
    ensures
        command@ == stash_drop_view(cli),
{
    let args: Vec<ArgSpec> = Vec::new();
    assert(arg_views(args@) =~~= stash_drop_view(cli).args);
    SubcommandSpec { name: "drop", about: cli.stash_drop_about(), args }
}

/// `gz stash`.
pub open spec fn stash_view(cli: CliMessages) -> CommandView {
    CommandView {
        name: "stash"@,
        about: cli.stash_about_text(),
        args: Seq::empty(),
        subcommands: seq![stash_push_view(cli), stash_apply_view(cli), stash_pop_view(cli), stash_drop_view(cli)],
        exclusive: false,
        bare: Bare::ShowsHelp,
    }
}

/// `gz stash`.
fn localize_stash(cli: CliMessages) -> (command: CommandSpec)
    ensures
        command@ == stash_view(cli),
{
    let args: Vec<ArgSpec> = Vec::new();
    assert(arg_views(args@) =~~= stash_view(cli).args);
    let mut subcommands: Vec<SubcommandSpec> = Vec::new();
    subcommands.push(stash_push_command(cli));
    subcommands.push(stash_apply_command(cli));
    subcommands.push(stash_pop_command(cli));
    subcommands.push(stash_drop_command(cli));
    assert(subcommand_views(subcommands@) =~= stash_view(cli).subcommands);
    CommandSpec {
        name: "stash",
        about: cli.stash_about(),
        args,
        subcommands,
        exclusive: false,
        bare: Bare::ShowsHelp,
    }
}

/// `gz tag`.
pub open spec fn tag_view(cli: CliMessages) -> CommandView {
    CommandView {
        name: "tag"@,
        about: cli.tag_about_text(),
        args: seq![
            arg_view(KindView::Flag, "switch"@, None, seq!["diff"@], cli.tag_switch_help_text()),
            arg_view(KindView::Flag, "diff"@, None, seq!["switch"@], cli.tag_diff_help_text()),
        ],
        subcommands: Seq::empty(),
        exclusive: false,
        bare: Bare::Runs,
    }
}

/// `gz tag`.
fn tag_command(cli: CliMessages) -> (command: CommandSpec)
    ensures
        command@ == tag_view(cli),
{
    let mut args: Vec<ArgSpec> = Vec::new();
    args.push(arg(ArgKind::Flag, "switch", None, &["diff"], cli.tag_switch_help()));
    args.push(arg(ArgKind::Flag, "diff", None, &["switch"], cli.tag_diff_help()));
    assert(arg_views(args@) =~~= tag_view(cli).args);
    let subcommands: Vec<SubcommandSpec> = Vec::new();
    assert(subcommand_views(subcommands@) =~= tag_view(cli).subcommands);
    CommandSpec {
        name: "tag",
        about: cli.tag_about(),
        args,
        subcommands,
        exclusive: false,
        bare: Bare::Runs,
    }
}

/// `gz reflog`.
pub open spec fn reflog_view(cli: CliMessages) -> CommandView {
    CommandView {
        name: "reflog"@,
        about: cli.reflog_about_text(),
        args: seq![
            arg_view(KindView::Value("NAME"@), "restore"@, None, Seq::empty(), cli.reflog_restore_help_text()),
            arg_view(KindView::Flag, "action"@, None, Seq::empty(), cli.reflog_action_help_text()),
        ],
        subcommands: Seq::empty(),
        exclusive: false,
        bare: Bare::Runs,
    }
}

/// `gz reflog`.
fn reflog_command(cli: CliMessages) -> (command: CommandSpec)
    ensures
        command@ == reflog_view(cli),
{
    let mut args: Vec<ArgSpec> = Vec::new();
    args.push(arg(ArgKind::Value("NAME"), "restore", None, &[], cli.reflog_restore_help()));
    args.push(arg(ArgKind::Flag, "action", None, &[], cli.reflog_action_help()));
    assert(arg_views(args@) =~~= reflog_view(cli).args);
    let subcommands: Vec<SubcommandSpec> = Vec::new();
    assert(subcommand_views(subcommands@) =~= reflog_view(cli).subcommands);
    CommandSpec {
        name: "reflog",
        about: cli.reflog_about(),
        args,
        subcommands,
        exclusive: false,
        bare: Bare::Runs,
    }
}

/// `gz commit`.
pub open spec fn commit_view(cli: CliMessages) -> CommandView {
    CommandView {
        name: "commit"@,
        about: cli.commit_about_text(),
        args: seq![
            arg_view(KindView::Value("MESSAGE"@), "message"@, Some('m'), Seq::empty(), cli.commit_message_help_text()),
        ],
        subcommands: Seq::empty(),
        exclusive: false,
        bare: Bare::Runs,
    }
}

/// `gz commit`.
fn commit_command(cli: CliMessages) -> (command: CommandSpec)
    ensures
        command@ == commit_view(cli),
{
    let mut args: Vec<ArgSpec> = Vec::new();
    args.push(arg(ArgKind::Value("MESSAGE"), "message", Some('m'), &[], cli.commit_message_help()));
    assert(arg_views(args@) =~~= commit_view(cli).args);
    let subcommands: Vec<SubcommandSpec> = Vec::new();
    assert(subcommand_views(subcommands@) =~= commit_view(cli).subcommands);
    CommandSpec {
        name: "commit",
        about: cli.commit_about(),
        args,
        subcommands,
        exclusive: false,
        bare: Bare::Runs,
    }
}

/// `gz fixup`.
pub open spec fn fixup_view(cli: CliMessages) -> CommandView {
    CommandView {
        name: "fixup"@,
        about: cli.fixup_about_text(),
        args: seq![
            arg_view(KindView::Flag, "squash"@, None, Seq::empty(), cli.fixup_squash_help_text()),
        ],
        subcommands: Seq::empty(),
        exclusive: false,
        bare: Bare::Runs,
    }
}

/// `gz fixup`.
fn fixup_command(cli: CliMessages) -> (command: CommandSpec)
    ensures
        command@ == fixup_view(cli),
{
    let mut args: Vec<ArgSpec> = Vec::new();
    args.push(arg(ArgKind::Flag, "squash", None, &[], cli.fixup_squash_help()));
    assert(arg_views(args@) =~~= fixup_view(cli).args);
    let subcommands: Vec<SubcommandSpec> = Vec::new();
    assert(subcommand_views(subcommands@) =~= fixup_view(cli).subcommands);
    CommandSpec {
        name: "fixup",
        about: cli.fixup_about(),
        args,
        subcommands,
        exclusive: false,
        bare: Bare::Runs,
    }
}

/// `gz merge`.
pub open spec fn merge_view(cli: CliMessages) -> CommandView {
    CommandView {
        name: "merge"@,
        about: cli.merge_about_text(),
        args: seq![
            arg_view(KindView::Flag, "no_ff"@, None, seq!["squash"@, "ff_only"@], cli.merge_no_ff_help_text()),
            arg_view(KindView::Flag, "squash"@, None, seq!["no_ff"@, "ff_only"@], cli.merge_squash_help_text()),
            arg_view(KindView::Flag, "ff_only"@, None, seq!["no_ff"@, "squash"@], cli.merge_ff_only_help_text()),
        ],
        subcommands: Seq::empty(),
        exclusive: false,
        bare: Bare::Runs,
    }
}

/// `gz merge`.
fn merge_command(cli: CliMessages) -> (command: CommandSpec)
    ensures
        command@ == merge_view(cli),
{
    let mut args: Vec<ArgSpec> = Vec::new();
    args.push(arg(ArgKind::Flag, "no_ff", None, &["squash", "ff_only"], cli.merge_no_ff_help()));
    args.push(arg(ArgKind::Flag, "squash", None, &["no_ff", "ff_only"], cli.merge_squash_help()));
    args.push(arg(ArgKind::Flag, "ff_only", None, &["no_ff", "squash"], cli.merge_ff_only_help()));
    assert(arg_views(args@) =~~= merge_view(cli).args);
    let subcommands: Vec<SubcommandSpec> = Vec::new();
    assert(subcommand_views(subcommands@) =~= merge_view(cli).subcommands);
    CommandSpec {
        name: "merge",
        about: cli.merge_about(),
        args,
        subcommands,
        exclusive: false,
        bare: Bare::Runs,
    }
}

/// `gz rebase`.
pub open spec fn rebase_view(cli: CliMessages) -> CommandView {
    CommandView {
        name: "rebase"@,
        about: cli.rebase_about_text(),
        args: Seq::empty(),
        subcommands: Seq::empty(),
        exclusive: false,
        bare: Bare::Runs,
    }
}

/// `gz rebase`.
fn rebase_command(cli: CliMessages) -> (command: CommandSpec)
    ensures
        command@ == rebase_view(cli),
{
    let args: Vec<ArgSpec> = Vec::new();
    assert(arg_views(args@) =~~= rebase_view(cli).args);
    let subcommands: Vec<SubcommandSpec> = Vec::new();
    assert(subcommand_views(subcommands@) =~= rebase_view(cli).subcommands);
    CommandSpec {
        name: "rebase",
        about: cli.rebase_about(),
        args,
        subcommands,
        exclusive: false,
        bare: Bare::Runs,
    }
}

/// `gz revert`.
pub open spec fn revert_view(cli: CliMessages) -> CommandView {
    CommandView {
        name: "revert"@,
        about: cli.revert_about_text(),
        args: seq![
            arg_view(KindView::Flag, "no_edit"@, None, Seq::empty(), cli.revert_no_edit_help_text()),
        ],
        subcommands: Seq::empty(),
        exclusive: false,
        bare: Bare::Runs,
    }
}

/// `gz revert`.
fn revert_command(cli: CliMessages) -> (command: CommandSpec)
    ensures
        command@ == revert_view(cli),
{
    let mut args: Vec<ArgSpec> = Vec::new();
    args.push(arg(ArgKind::Flag, "no_edit", None, &[], cli.revert_no_edit_help()));
    assert(arg_views(args@) =~~= revert_view(cli).args);
    let subcommands: Vec<SubcommandSpec> = Vec::new();
    assert(subcommand_views(subcommands@) =~= revert_view(cli).subcommands);
    CommandSpec {
        name: "revert",
        about: cli.revert_about(),
        args,
        subcommands,
        exclusive: false,
        bare: Bare::Runs,
    }
}

/// `gz status`.
pub open spec fn status_view(cli: CliMessages) -> CommandView {
    CommandView {
        name: "status"@,
        about: cli.status_about_text(),
        args: Seq::empty(),
        subcommands: Seq::empty(),
        exclusive: false,
        bare: Bare::Runs,
    }
}

/// `gz status`.
fn status_command(cli: CliMessages) -> (command: CommandSpec)
    ensures
        command@ == status_view(cli),
{
    let args: Vec<ArgSpec> = Vec::new();
    assert(arg_views(args@) =~~= status_view(cli).args);
    let subcommands: Vec<SubcommandSpec> = Vec::new();
    assert(subcommand_views(subcommands@) =~= status_view(cli).subcommands);
    CommandSpec {
        name: "status",
        about: cli.status_about(),
        args,
        subcommands,
        exclusive: false,
        bare: Bare::Runs,
    }
}

/// `gz diff`.
pub open spec fn diff_view(cli: CliMessages) -> CommandView {
    CommandView {
        name: "diff"@,
        about: cli.diff_about_text(),
        args: seq![
            arg_view(KindView::Flag, "staged"@, None, seq!["head"@, "upstream"@, "branch"@, "commit"@], cli.diff_staged_help_text()),
            arg_view(KindView::Flag, "head"@, None, seq!["staged"@, "upstream"@, "branch"@, "commit"@], cli.diff_head_help_text()),
            arg_view(KindView::Flag, "upstream"@, None, seq!["staged"@, "head"@, "branch"@, "commit"@], cli.diff_upstream_help_text()),
            arg_view(KindView::Flag, "branch"@, None, seq!["staged"@, "head"@, "upstream"@, "commit"@], cli.diff_branch_help_text()),
            arg_view(KindView::Flag, "commit"@, None, seq!["staged"@, "head"@, "upstream"@, "branch"@], cli.diff_commit_help_text()),
        ],
        subcommands: Seq::empty(),
        exclusive: false,
        bare: Bare::Runs,
    }
}

/// `gz diff`.
fn diff_command(cli: CliMessages) -> (command: CommandSpec)
    ensures
        command@ == diff_view(cli),
{
    let mut args: Vec<ArgSpec> = Vec::new();
    args.push(arg(ArgKind::Flag, "staged", None, &["head", "upstream", "branch", "commit"], cli.diff_staged_help()));
    args.push(arg(ArgKind::Flag, "head", None, &["staged", "upstream", "branch", "commit"], cli.diff_head_help()));
    args.push(arg(ArgKind::Flag, "upstream", None, &["staged", "head", "branch", "commit"], cli.diff_upstream_help()));
    args.push(arg(ArgKind::Flag, "branch", None, &["staged", "head", "upstream", "commit"], cli.diff_branch_help()));
    args.push(arg(ArgKind::Flag, "commit", None, &["staged", "head", "upstream", "branch"], cli.diff_commit_help()));
    assert(arg_views(args@) =~~= diff_view(cli).args);
    let subcommands: Vec<SubcommandSpec> = Vec::new();
    assert(subcommand_views(subcommands@) =~= diff_view(cli).subcommands);
    CommandSpec {
        name: "diff",
        about: cli.diff_about(),
        args,
        subcommands,
        exclusive: false,
        bare: Bare::Runs,
    }
}

/// `gz fetch`.
pub open spec fn fetch_view(cli: CliMessages) -> CommandView {
    CommandView {
        name: "fetch"@,
        about: cli.fetch_about_text(),
        args: seq![
            arg_view(KindView::Flag, "prune"@, Some('p'), Seq::empty(), cli.fetch_prune_help_text()),
            arg_view(KindView::Flag, "siblings"@, Some('s'), Seq::empty(), cli.fetch_siblings_help_text()),
        ],
        subcommands: Seq::empty(),
        exclusive: false,
        bare: Bare::Runs,
    }
}

/// `gz fetch`.
fn fetch_command(cli: CliMessages) -> (command: CommandSpec)
    ensures
        command@ == fetch_view(cli),
{
    let mut args: Vec<ArgSpec> = Vec::new();
    args.push(arg(ArgKind::Flag, "prune", Some('p'), &[], cli.fetch_prune_help()));
    args.push(arg(ArgKind::Flag, "siblings", Some('s'), &[], cli.fetch_siblings_help()));
    assert(arg_views(args@) =~~= fetch_view(cli).args);
    let subcommands: Vec<SubcommandSpec> = Vec::new();
    assert(subcommand_views(subcommands@) =~= fetch_view(cli).subcommands);
    CommandSpec {
        name: "fetch",
        about: cli.fetch_about(),
        args,
        subcommands,
        exclusive: false,
        bare: Bare::Runs,
    }
}

/// `gz pull`.
pub open spec fn pull_view(cli: CliMessages) -> CommandView {
    CommandView {
        name: "pull"@,
        about: cli.pull_about_text(),
        args: Seq::empty(),
        subcommands: Seq::empty(),
        exclusive: false,
        bare: Bare::Runs,
    }
}

/// `gz pull`.
fn pull_command(cli: CliMessages) -> (command: CommandSpec)
    ensures
        command@ == pull_view(cli),
{
    let args: Vec<ArgSpec> = Vec::new();
    assert(arg_views(args@) =~~= pull_view(cli).args);
    let subcommands: Vec<SubcommandSpec> = Vec::new();
    assert(subcommand_views(subcommands@) =~= pull_view(cli).subcommands);
    CommandSpec {
        name: "pull",
        about: cli.pull_about(),
        args,
        subcommands,
        exclusive: false,
        bare: Bare::Runs,
    }
}

/// `gz sync`.
pub open spec fn sync_view(cli: CliMessages) -> CommandView {
    CommandView {
        name: "sync"@,
        about: cli.sync_about_text(),
        args: seq![
            arg_view(KindView::Flag, "rebase"@, Some('r'), seq!["merge"@], cli.sync_rebase_help_text()),
            arg_view(KindView::Flag, "merge"@, None, seq!["rebase"@], cli.sync_merge_help_text()),
        ],
        subcommands: Seq::empty(),
        exclusive: false,
        bare: Bare::Runs,
    }
}

/// `gz sync`.
fn sync_command(cli: CliMessages) -> (command: CommandSpec)
    ensures
        command@ == sync_view(cli),
{
    let mut args: Vec<ArgSpec> = Vec::new();
    args.push(arg(ArgKind::Flag, "rebase", Some('r'), &["merge"], cli.sync_rebase_help()));
    args.push(arg(ArgKind::Flag, "merge", None, &["rebase"], cli.sync_merge_help()));
    assert(arg_views(args@) =~~= sync_view(cli).args);
    let subcommands: Vec<SubcommandSpec> = Vec::new();
    assert(subcommand_views(subcommands@) =~= sync_view(cli).subcommands);
    CommandSpec {
        name: "sync",
        about: cli.sync_about(),
        args,
        subcommands,
        exclusive: false,
        bare: Bare::Runs,
    }
}

/// `gz worktree add`.
pub open spec fn worktree_add_view(cli: CliMessages) -> SubcommandView {
    SubcommandView {
        name: "add"@,
        about: cli.worktree_add_about_text(),
        args: seq![
            arg_view(KindView::Path("PATH"@), "path"@, None, Seq::empty(), cli.worktree_add_path_help_text()),
        ],
    }
}

/// `gz worktree add`.
fn worktree_add_command(cli: CliMessages) -> (command: SubcommandSpec)
    ensures
        command@ == worktree_add_view(cli),
{
    let mut args: Vec<ArgSpec> = Vec::new();
    args.push(arg(ArgKind::Path("PATH"), "path", None, &[], cli.worktree_add_path_help()));
    assert(arg_views(args@) =~~= worktree_add_view(cli).args);
    SubcommandSpec { name: "add", about: cli.worktree_add_about(), args }
}

/// `gz worktree remove`.
pub open spec fn worktree_remove_view(cli: CliMessages) -> SubcommandView {
    SubcommandView {
        name: "remove"@,
        about: cli.worktree_remove_about_text(),
        args: Seq::empty(),
    }
}

/// `gz worktree remove`.
fn worktree_remove_command(cli: CliMessages) -> (command: SubcommandSpec)
    ensures
        command@ == worktree_remove_view(cli),
{
    let args: Vec<ArgSpec> = Vec::new();
    assert(arg_views(args@) =~~= worktree_remove_view(cli).args);
    SubcommandSpec { name: "remove", about: cli.worktree_remove_about(), args }
}

/// `gz worktree prune`.
pub open spec fn worktree_prune_view(cli: CliMessages) -> SubcommandView {
    SubcommandView {
        name: "prune"@,
        about: cli.worktree_prune_about_text(),
        args: Seq::empty(),
    }
}

/// `gz worktree prune`.
fn worktree_prune_command(cli: CliMessages) -> (command: SubcommandSpec)
    ensures
        command@ == worktree_prune_view(cli),
{
    let args: Vec<ArgSpec> = Vec::new();
    assert(arg_views(args@) =~~= worktree_prune_view(cli).args);
    SubcommandSpec { name: "prune", about: cli.worktree_prune_about(), args }
}

/// `gz worktree`.
pub open spec fn worktree_view(cli: CliMessages) -> CommandView {
    CommandView {
        name: "worktree"@,
        about: cli.worktree_about_text(),
        args: Seq::empty(),
        subcommands: seq![worktree_add_view(cli), worktree_remove_view(cli), worktree_prune_view(cli)],
        exclusive: false,
        bare: Bare::Runs,
    }
}

/// `gz worktree`.
fn localize_worktree(cli: CliMessages) -> (command: CommandSpec)
    ensures
        command@ == worktree_view(cli),
{
    let args: Vec<ArgSpec> = Vec::new();
    assert(arg_views(args@) =~~= worktree_view(cli).args);
    let mut subcommands: Vec<SubcommandSpec> = Vec::new();
    subcommands.push(worktree_add_command(cli));
    subcommands.push(worktree_remove_command(cli));
    subcommands.push(worktree_prune_command(cli));
    assert(subcommand_views(subcommands@) =~= worktree_view(cli).subcommands);
    CommandSpec {
        name: "worktree",
        about: cli.worktree_about(),
        args,
        subcommands,
        exclusive: false,
        bare: Bare::Runs,
    }
}

/// All commands, in the order of the help.
pub open spec fn commands_of(cli: CliMessages) -> Seq<CommandView> {
    seq![
        branch_view(cli),
        log_view(cli),
        cherry_pick_view(cli),
        restore_view(cli),
        add_view(cli),
        stash_view(cli),
        tag_view(cli),
        reflog_view(cli),
        commit_view(cli),
        fixup_view(cli),
        merge_view(cli),
        rebase_view(cli),
        revert_view(cli),
        status_view(cli),
        diff_view(cli),
        fetch_view(cli),
        pull_view(cli),
        sync_view(cli),
        worktree_view(cli),
    ]
}

/// The whole command line in the language of the messages.
pub open spec fn definition_of(messages: Messages) -> DefinitionView {
    DefinitionView {
        about: messages.cli().about_text(),
        lang_help: messages.cli().lang_help_text(),
        commands: commands_of(messages.cli()),
    }
}

/// Builds the whole command line in the language of the messages. What the help says is
/// settled before anything is parsed.
pub fn localized_command(messages: Messages) -> (definition: Definition)
    ensures
        definition@ == definition_of(messages),
{
    let cli = messages.cli();
    let mut commands: Vec<CommandSpec> = Vec::new();
    commands.push(localize_branch(cli));
    commands.push(log_command(cli));
    commands.push(cherry_pick_command(cli));
    commands.push(restore_command(cli));
    commands.push(add_command(cli));
    commands.push(localize_stash(cli));
    commands.push(tag_command(cli));
    commands.push(reflog_command(cli));
    commands.push(commit_command(cli));
    commands.push(fixup_command(cli));
    commands.push(merge_command(cli));
    commands.push(rebase_command(cli));
    commands.push(revert_command(cli));
    commands.push(status_command(cli));
    commands.push(diff_command(cli));
    commands.push(fetch_command(cli));
    commands.push(pull_command(cli));
    commands.push(sync_command(cli));
    commands.push(localize_worktree(cli));
    assert(command_views(commands@) =~= commands_of(cli));
    Definition { about: cli.about(), lang_help: cli.lang_help(), commands }
}

/// An argument without what the help says of it.
pub open spec fn bare_arg(arg: ArgView) -> ArgView {
    ArgView { help: Seq::empty(), ..arg }
}

/// A command below another without what the help says.
pub open spec fn bare_subcommand(command: SubcommandView) -> SubcommandView {
    SubcommandView {
        name: command.name,
        about: Seq::empty(),
        args: command.args.map_values(|arg: ArgView| bare_arg(arg)),
    }
}

/// A command without what the help says.
pub open spec fn bare_command(command: CommandView) -> CommandView {
    CommandView {
        name: command.name,
        about: Seq::empty(),
        args: command.args.map_values(|arg: ArgView| bare_arg(arg)),
        subcommands: command.subcommands.map_values(
            |below: SubcommandView| bare_subcommand(below),
        ),
        exclusive: command.exclusive,
        bare: command.bare,
    }
}

/// What is parsed does not depend on the language: it changes what the help says, and nothing
/// of the commands and their arguments.
pub proof fn law_the_language_changes_the_help_alone(a: Messages, b: Messages)
    ensures
        definition_of(a).commands.map_values(|command: CommandView| bare_command(command))
            == definition_of(b).commands.map_values(|command: CommandView| bare_command(command)),
{
    let left = definition_of(a).commands;
    let right = definition_of(b).commands;
    assert forall|i: int| 0 <= i < left.len() implies bare_command(#[trigger] left[i])
        == bare_command(right[i]) by {
        assert(bare_command(left[i]).args =~~= bare_command(right[i]).args);
        assert(bare_command(left[i]).subcommands =~~= bare_command(right[i]).subcommands);
    }
    assert(left.map_values(|command: CommandView| bare_command(command)) =~= right.map_values(
        |command: CommandView| bare_command(command),
    ));
}

/// Whether arguments are what a parser hands on: operands and paths are there, and numbers are
/// numbers.
pub open spec fn meets(specs: Seq<ArgView>, args: ParsedArgs) -> bool {
    forall|k: int|
        0 <= k < specs.len() ==> match (#[trigger] specs[k]).kind {
            KindView::Operand(_) => args.value_of(specs[k].id) is Some,
            KindView::Path(_) => args.path_of(specs[k].id) is Some,
            KindView::Number(_) => args.value_of(specs[k].id) matches Some(text) ==> number_of(
                text,
            ) is Some,
            _ => true,
        }
}

/// Whether a command that was given is a defined one, with what it needs.
pub open spec fn admits(command: CommandView, parsed: ParsedCommand) -> bool {
    &&& parsed.name@ == command.name
    &&& meets(command.args, parsed.args)
    &&& match parsed.subcommand {
        Some((below, given)) => exists|j: int|
            {
                &&& 0 <= j < command.subcommands.len()
                &&& (#[trigger] command.subcommands[j]).name == below@
                &&& meets(command.subcommands[j].args, given)
            },
        None => command.bare == Bare::Runs,
    }
}

/// Whatever is defined is known: a command line that the definition admits is always read.
pub proof fn law_what_is_defined_is_known(messages: Messages, parsed: ParsedCommand, i: int)
    requires
        0 <= i < definition_of(messages).commands.len(),
        admits(definition_of(messages).commands[i], parsed),
    ensures
        names_command(parsed),
{
    let command = definition_of(messages).commands[i];
    let name = command.name;
    lemma_names_differ(messages, i);
    if i == 1 {
        assert(command.args[0].id == "limit"@);
    }
    if let Some((below, given)) = parsed.subcommand {
        let j = choose|j: int|
            {
                &&& 0 <= j < command.subcommands.len()
                &&& (#[trigger] command.subcommands[j]).name == below@
                &&& meets(command.subcommands[j].args, given)
            };
        let chosen = command.subcommands[j];
        assert(chosen.name == below@);
        assert(meets(chosen.args, given));
        if i == 0 {
            reveal_strlit("create");
            reveal_strlit("delete");
            reveal_strlit("cleanup");
            assert("create"@[0] == 'c' && "delete"@[0] == 'd');
            if j == 0 {
                assert(chosen.args[0].id == "name"@);
                assert(chosen.args[0].kind is Operand);
                assert(given.value_of("name"@) is Some);
            } else if j == 1 {
                assert(below@ == "delete"@);
            } else {
                assert(j == 2);
                assert(below@ == "cleanup"@);
            }
            assert(names_branch_command(below@, given));
        }
        if i == 5 {
            assert(names_stash_command(below@));
        }
        if i == 18 {
            reveal_strlit("add");
            reveal_strlit("remove");
            reveal_strlit("prune");
            if j == 0 {
                assert(chosen.args[0].id == "path"@);
            }
            assert(names_worktree_command(below@, given));
        }
    }
}

/// The commands that have commands below them, and the one that takes a number, are not named
/// like any other.
proof fn lemma_names_differ(messages: Messages, i: int)
    requires
        0 <= i < definition_of(messages).commands.len(),
    ensures
        ({
            let name = definition_of(messages).commands[i].name;
            &&& name == "branch"@ <==> i == 0
            &&& name == "log"@ <==> i == 1
            &&& name == "stash"@ <==> i == 5
            &&& name == "worktree"@ <==> i == 18
        }),
{
    reveal_strlit("branch");
    reveal_strlit("log");
    reveal_strlit("stash");
    reveal_strlit("worktree");
    reveal_strlit("cherry-pick");
    reveal_strlit("restore");
    reveal_strlit("add");
    reveal_strlit("tag");
    reveal_strlit("reflog");
    reveal_strlit("commit");
    reveal_strlit("fixup");
    reveal_strlit("merge");
    reveal_strlit("rebase");
    reveal_strlit("revert");
    reveal_strlit("status");
    reveal_strlit("diff");
    reveal_strlit("fetch");
    reveal_strlit("pull");
    reveal_strlit("sync");
    assert("branch"@.len() == 6 && "branch"@[0] == 'b');
    assert("log"@.len() == 3 && "log"@[0] == 'l');
    assert("stash"@.len() == 5 && "stash"@[0] == 's');
    assert("worktree"@.len() == 8 && "worktree"@[0] == 'w');
    assert("cherry-pick"@.len() == 11 && "cherry-pick"@[0] == 'c');
    assert("restore"@.len() == 7 && "restore"@[0] == 'r');
    assert("add"@.len() == 3 && "add"@[0] == 'a');
    assert("tag"@.len() == 3 && "tag"@[0] == 't');
    assert("reflog"@.len() == 6 && "reflog"@[0] == 'r');
    assert("commit"@.len() == 6 && "commit"@[0] == 'c');
    assert("fixup"@.len() == 5 && "fixup"@[0] == 'f');
    assert("merge"@.len() == 5 && "merge"@[0] == 'm');
    assert("rebase"@.len() == 6 && "rebase"@[0] == 'r');
    assert("revert"@.len() == 6 && "revert"@[0] == 'r');
    assert("status"@.len() == 6 && "status"@[0] == 's');
    assert("diff"@.len() == 4 && "diff"@[0] == 'd');
    assert("fetch"@.len() == 5 && "fetch"@[0] == 'f');
    assert("pull"@.len() == 4 && "pull"@[0] == 'p');
    assert("sync"@.len() == 4 && "sync"@[0] == 's');
}

/// The flags that exclude each other do so both ways, and each of them excludes all the others: a
/// comparison takes one mode, a merge one, an integration one, and so does what is done with a
/// tag.
pub proof fn law_modes_exclude_each_other(messages: Messages, i: int, a: int, b: int)
    requires
        i == 6 || i == 10 || i == 14 || i == 17,
        0 <= a < definition_of(messages).commands[i].args.len(),
        0 <= b < definition_of(messages).commands[i].args.len(),
        a != b,
    ensures
        ({
            let command = definition_of(messages).commands[i];
            &&& command.args[a].kind is Flag
            &&& command.args[a].conflicts.contains(command.args[b].id)
            &&& command.args[a].conflicts.len() == command.args.len() - 1
        }),
{
    let command = definition_of(messages).commands[i];
    let conflicts = command.args[a].conflicts;
    if i == 14 {
        if b < a {
            assert(conflicts[b] == command.args[b].id);
        } else {
            assert(conflicts[b - 1] == command.args[b].id);
        }
    } else if i == 10 {
        if b < a {
            assert(conflicts[b] == command.args[b].id);
        } else {
            assert(conflicts[b - 1] == command.args[b].id);
        }
    } else {
        assert(conflicts[0] == command.args[b].id);
    }
}

/// What a command takes is what is read of it: the names of its arguments are those of what it
/// asks for, and the short spellings are theirs.
pub proof fn law_a_command_takes_what_is_read_of_it(messages: Messages)
    ensures
        ({
            let commands = definition_of(messages).commands;
            let fetch = commands[15].args;
            let diff = commands[14].args;
            let merge = commands[10].args;
            let sync = commands[17].args;
            let restore = commands[3].args;
            &&& commands[15].name == "fetch"@ && fetch.len() == 2
            &&& fetch[0].id == "prune"@ && fetch[0].short == Some('p')
            &&& fetch[1].id == "siblings"@ && fetch[1].short == Some('s')
            &&& commands[14].name == "diff"@ && diff.len() == 5
            &&& diff[0].id == "staged"@ && diff[1].id == "head"@ && diff[2].id == "upstream"@
            &&& diff[3].id == "branch"@ && diff[4].id == "commit"@
            &&& commands[10].name == "merge"@ && merge.len() == 3
            &&& merge[0].id == "no_ff"@ && merge[1].id == "squash"@ && merge[2].id == "ff_only"@
            &&& commands[17].name == "sync"@ && sync.len() == 2
            &&& sync[0].id == "rebase"@ && sync[0].short == Some('r') && sync[1].id == "merge"@
            &&& commands[3].name == "restore"@ && restore.len() == 2
            &&& restore[0].id == "source"@ && restore[0].short == Some('s')
            &&& restore[1].id == "staged"@ && restore[1].short == Some('S')
            &&& commands[16].name == "pull"@ && commands[16].args.len() == 0
            &&& commands[12].name == "revert"@ && commands[12].args[0].id == "no_edit"@
            &&& commands[9].name == "fixup"@ && commands[9].args[0].id == "squash"@
            &&& commands[8].name == "commit"@ && commands[8].args[0].id == "message"@
                && commands[8].args[0].short == Some('m')
            &&& commands[1].name == "log"@ && commands[1].args[0].id == "limit"@
                && commands[1].args[0].short == Some('n') && commands[1].args[0].kind is Number
            &&& commands[0].name == "branch"@ && commands[0].args[0].id == "all"@
                && commands[0].args[0].short == Some('a')
            &&& commands[2].name == "cherry-pick"@ && commands[2].args[0].id == "branch"@
                && commands[2].args[0].short == Some('b')
        }),
{
}

/// The commands below a command take what is read of them, under their own names.
pub proof fn law_a_command_below_takes_what_is_read_of_it(messages: Messages, definition: Definition)
    requires
        call_ensures(localized_command, (messages,), definition),
    ensures
        ({
            let commands = definition@.commands;
            let branch = commands[0].subcommands;
            let stash = commands[5].subcommands;
            let worktree = commands[18].subcommands;
            &&& commands.len() == 19
            &&& commands[0].name == "branch"@ && branch.len() == 3
            &&& branch[0].name == "create"@ && branch[0].args.len() == 2
            &&& branch[0].args[0].kind is Operand && branch[0].args[0].id == "name"@
            &&& branch[0].args[1].kind is Flag && branch[0].args[1].id == "switch"@
            &&& branch[1].name == "delete"@ && branch[1].args.len() == 2
            &&& branch[1].args[0].kind is Flag && branch[1].args[0].id == "force"@
                && branch[1].args[0].short == Some('f')
            &&& branch[1].args[1].kind is Value && branch[1].args[1].id == "into"@
            &&& branch[2].name == "cleanup"@ && branch[2].args.len() == 1
            &&& branch[2].args[0].kind is Value && branch[2].args[0].id == "into"@
            &&& commands[5].name == "stash"@ && stash.len() == 4
            &&& stash[0].name == "push"@ && stash[0].args.len() == 2
            &&& stash[0].args[0].kind is Value && stash[0].args[0].id == "message"@
                && stash[0].args[0].short == Some('m')
            &&& stash[0].args[1].kind is Flag && stash[0].args[1].id == "include_untracked"@
                && stash[0].args[1].short == Some('u')
            &&& stash[1].name == "apply"@ && stash[2].name == "pop"@ && stash[3].name == "drop"@
            &&& commands[18].name == "worktree"@ && worktree.len() == 3
            &&& worktree[0].name == "add"@ && worktree[0].args.len() == 1
            &&& worktree[0].args[0].kind is Path && worktree[0].args[0].id == "path"@
            &&& worktree[1].name == "remove"@ && worktree[2].name == "prune"@
        }),
{
}

/// A command that is given alone runs, but for the one that cannot know what to do: that shows its
/// help. The flag of a command that has others below it does not go with them.
pub proof fn law_a_command_runs_alone(messages: Messages, definition: Definition, i: int)
    requires
        call_ensures(localized_command, (messages,), definition),
        0 <= i < definition@.commands.len(),
    ensures
        ({
            let command = definition@.commands[i];
            &&& command.bare is ShowsHelp <==> command.name == "stash"@
            &&& command.exclusive <==> command.name == "branch"@
            &&& command.subcommands.len() > 0 <==> command.name == "branch"@ || command.name
                == "stash"@ || command.name == "worktree"@
        }),
{
    lemma_command_names_differ();
}

proof fn lemma_command_names_differ()
    ensures
        forall|i: int, messages: Messages|
            0 <= i < 19 ==> ((#[trigger] definition_of(messages).commands[i]).name == "stash"@ <==> i
                == 5),
        forall|i: int, messages: Messages|
            0 <= i < 19 ==> ((#[trigger] definition_of(messages).commands[i]).name == "branch"@ <==> i
                == 0),
        forall|i: int, messages: Messages|
            0 <= i < 19 ==> ((#[trigger] definition_of(messages).commands[i]).name == "worktree"@ <==> i
                == 18),
{
    reveal_strlit("branch");
    reveal_strlit("log");
    reveal_strlit("cherry-pick");
    reveal_strlit("restore");
    reveal_strlit("add");
    reveal_strlit("stash");
    reveal_strlit("tag");
    reveal_strlit("reflog");
    reveal_strlit("commit");
    reveal_strlit("fixup");
    reveal_strlit("merge");
    reveal_strlit("rebase");
    reveal_strlit("revert");
    reveal_strlit("status");
    reveal_strlit("diff");
    reveal_strlit("fetch");
    reveal_strlit("pull");
    reveal_strlit("sync");
    reveal_strlit("worktree");
    assert("branch"@[0] == 'b');
    assert("stash"@[0] == 's' && "stash"@.len() == 5);
    assert("worktree"@[0] == 'w');
    assert("commit"@[0] == 'c' && "rebase"@[0] == 'r' && "revert"@[0] == 'r' && "status"@.len() == 6);
    assert("status"@[0] == 's');
    assert("merge"@[0] == 'm' && "fixup"@[0] == 'f' && "fetch"@[0] == 'f');
}

/// What the help says of a command and of an argument is about that command and that argument.
pub proof fn law_the_help_is_about_what_it_stands_by(messages: Messages, definition: Definition)
    requires
        call_ensures(localized_command, (messages,), definition),
    ensures
        ({
            let cli = messages.cli();
            let commands = definition@.commands;
            &&& definition@.about == cli.about_text() && definition@.lang_help
                == cli.lang_help_text()
            &&& commands[0].about == cli.branch_about_text()
            &&& commands[0].args[0].help == cli.branch_all_help_text()
            &&& commands[0].subcommands[0].about == cli.branch_create_about_text()
            &&& commands[0].subcommands[1].about == cli.branch_delete_about_text()
            &&& commands[0].subcommands[2].about == cli.branch_cleanup_about_text()
            &&& commands[1].about == cli.log_about_text()
            &&& commands[1].args[0].help == cli.log_limit_help_text()
            &&& commands[1].args[1].help == cli.log_action_help_text()
            &&& commands[2].about == cli.cherry_pick_about_text()
            &&& commands[3].about == cli.restore_about_text()
            &&& commands[3].args[0].help == cli.restore_source_help_text()
            &&& commands[3].args[1].help == cli.restore_staged_help_text()
            &&& commands[4].about == cli.add_about_text()
            &&& commands[5].about == cli.stash_about_text()
            &&& commands[5].subcommands[0].about == cli.stash_push_about_text()
            &&& commands[5].subcommands[1].about == cli.stash_apply_about_text()
            &&& commands[5].subcommands[2].about == cli.stash_pop_about_text()
            &&& commands[5].subcommands[3].about == cli.stash_drop_about_text()
            &&& commands[6].about == cli.tag_about_text()
            &&& commands[6].args[0].help == cli.tag_switch_help_text()
            &&& commands[6].args[1].help == cli.tag_diff_help_text()
            &&& commands[7].about == cli.reflog_about_text()
            &&& commands[7].args[0].help == cli.reflog_restore_help_text()
            &&& commands[7].args[1].help == cli.reflog_action_help_text()
            &&& commands[8].about == cli.commit_about_text()
            &&& commands[9].about == cli.fixup_about_text()
            &&& commands[10].about == cli.merge_about_text()
            &&& commands[10].args[0].help == cli.merge_no_ff_help_text()
            &&& commands[10].args[1].help == cli.merge_squash_help_text()
            &&& commands[10].args[2].help == cli.merge_ff_only_help_text()
            &&& commands[11].about == cli.rebase_about_text()
            &&& commands[12].about == cli.revert_about_text()
            &&& commands[13].about == cli.status_about_text()
            &&& commands[14].about == cli.diff_about_text()
            &&& commands[14].args[0].help == cli.diff_staged_help_text()
            &&& commands[14].args[1].help == cli.diff_head_help_text()
            &&& commands[14].args[2].help == cli.diff_upstream_help_text()
            &&& commands[14].args[3].help == cli.diff_branch_help_text()
            &&& commands[14].args[4].help == cli.diff_commit_help_text()
            &&& commands[15].about == cli.fetch_about_text()
            &&& commands[15].args[0].help == cli.fetch_prune_help_text()
            &&& commands[15].args[1].help == cli.fetch_siblings_help_text()
            &&& commands[16].about == cli.pull_about_text()
            &&& commands[17].about == cli.sync_about_text()
            &&& commands[17].args[0].help == cli.sync_rebase_help_text()
            &&& commands[17].args[1].help == cli.sync_merge_help_text()
            &&& commands[18].about == cli.worktree_about_text()
            &&& commands[18].subcommands[0].about == cli.worktree_add_about_text()
            &&& commands[18].subcommands[1].about == cli.worktree_remove_about_text()
            &&& commands[18].subcommands[2].about == cli.worktree_prune_about_text()
        }),
{
}

} // verus!
