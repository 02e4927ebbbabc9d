//! Messages that several commands share.

use vstd::prelude::*;

use crate::i18n::{holds, is_english, is_japanese, lemma_holds, Language};
use crate::text::{concat3, concat4, concat5, decimal, decimal_text};

verus! {

/// Messages that several commands share.
#[derive(Debug, Clone, Copy, PartialEq, Eq)]
pub struct CommonMessages {
    pub language: Language,
}

impl CommonMessages {
    pub open spec fn changed_files_read_failed_text(self) -> Seq<char> {
        match self.language {
            Language::Japanese => "変更ファイルの一覧を取得できませんでした"@,
            Language::English => "could not read the changed files"@,
        }
    }

    /// The changed files could not be read.
    pub fn changed_files_read_failed(self) -> (text: &'static str)
        ensures
            text@ == self.changed_files_read_failed_text(),
    {
        match self.language {
            Language::Japanese => "変更ファイルの一覧を取得できませんでした",
            Language::English => "could not read the changed files",
        }
    }

    pub open spec fn branch_list_read_failed_text(self) -> Seq<char> {
        match self.language {
            Language::Japanese => "ブランチの一覧を取得できませんでした"@,
            Language::English => "could not read the branches"@,
        }
    }

    /// The branches could not be read.
    pub fn branch_list_read_failed(self) -> (text: &'static str)
        ensures
            text@ == self.branch_list_read_failed_text(),
    {
        match self.language {
            Language::Japanese => "ブランチの一覧を取得できませんでした",
            Language::English => "could not read the branches",
        }
    }

    pub open spec fn commit_history_read_failed_text(self) -> Seq<char> {
        match self.language {
            Language::Japanese => "コミット履歴を取得できませんでした"@,
            Language::English => "could not read the commit history"@,
        }
    }

    /// The history could not be read.
    pub fn commit_history_read_failed(self) -> (text: &'static str)
        ensures
            text@ == self.commit_history_read_failed_text(),
    {
        match self.language {
            Language::Japanese => "コミット履歴を取得できませんでした",
            Language::English => "could not read the commit history",
        }
    }

    pub open spec fn remote_list_read_failed_text(self) -> Seq<char> {
        match self.language {
            Language::Japanese => "リモートの一覧を取得できませんでした"@,
            Language::English => "could not read the remotes"@,
        }
    }

    /// The remotes could not be read.
    pub fn remote_list_read_failed(self) -> (text: &'static str)
        ensures
            text@ == self.remote_list_read_failed_text(),
    {
        match self.language {
            Language::Japanese => "リモートの一覧を取得できませんでした",
            Language::English => "could not read the remotes",
        }
    }

    pub open spec fn current_branch_read_failed_text(self) -> Seq<char> {
        match self.language {
            Language::Japanese => "現在のブランチを取得できませんでした"@,
            Language::English => "could not read the current branch"@,
        }
    }

    /// The current branch could not be read.
    pub fn current_branch_read_failed(self) -> (text: &'static str)
        ensures
            text@ == self.current_branch_read_failed_text(),
    {
        match self.language {
            Language::Japanese => "現在のブランチを取得できませんでした",
            Language::English => "could not read the current branch",
        }
    }

    pub open spec fn upstream_read_failed_text(self, branch: Seq<char>) -> Seq<char> {
        match self.language {
            Language::Japanese => "ブランチ `"@ + branch + "` の upstream を取得できませんでした"@,
            Language::English => "could not read the upstream of `"@ + branch + "`"@,
        }
    }

    /// The upstream could not be read.
    pub fn upstream_read_failed(self, branch: &str) -> (text: String)
        ensures
            text@ == self.upstream_read_failed_text(branch@),
    {
        match self.language {
            Language::Japanese => concat3("ブランチ `", branch, "` の upstream を取得できませんでした"),
            Language::English => concat3("could not read the upstream of `", branch, "`"),
        }
    }

    pub open spec fn commit_hash_parse_failed_text(self, id: Seq<char>) -> Seq<char> {
        match self.language {
            Language::Japanese => "コミットハッシュ `"@ + id + "` を解釈できませんでした"@,
            Language::English => "could not parse the commit hash `"@ + id + "`"@,
        }
    }

    /// A commit hash is not one.
    pub fn commit_hash_parse_failed(self, id: &str) -> (text: String)
        ensures
            text@ == self.commit_hash_parse_failed_text(id@),
    {
        match self.language {
            Language::Japanese => concat3("コミットハッシュ `", id, "` を解釈できませんでした"),
            Language::English => concat3("could not parse the commit hash `", id, "`"),
        }
    }

    pub open spec fn commit_read_failed_text(self, id: Seq<char>) -> Seq<char> {
        match self.language {
            Language::Japanese => "コミット `"@ + id + "` を読み取れませんでした"@,
            Language::English => "could not read the commit `"@ + id + "`"@,
        }
    }

    /// A commit could not be read.
    pub fn commit_read_failed(self, id: &str) -> (text: String)
        ensures
            text@ == self.commit_read_failed_text(id@),
    {
        match self.language {
            Language::Japanese => concat3("コミット `", id, "` を読み取れませんでした"),
            Language::English => concat3("could not read the commit `", id, "`"),
        }
    }

    pub open spec fn command_run_failed_text(self, command: Seq<char>) -> Seq<char> {
        match self.language {
            Language::Japanese => "`"@ + command + "` の実行に失敗しました"@,
            Language::English => "`"@ + command + "` failed"@,
        }
    }

    /// A git command failed.
    pub fn command_run_failed(self, command: &str) -> (text: String)
        ensures
            text@ == self.command_run_failed_text(command@),
    {
        match self.language {
            Language::Japanese => concat3("`", command, "` の実行に失敗しました"),
            Language::English => concat3("`", command, "` failed"),
        }
    }

    pub open spec fn switch_failed_text(self, branch: Seq<char>) -> Seq<char> {
        match self.language {
            Language::Japanese => "ブランチ `"@ + branch + "` への切り替えに失敗しました"@,
            Language::English => "could not switch to the branch `"@ + branch + "`"@,
        }
    }

    /// Switching to a branch failed.
    pub fn switch_failed(self, branch: &str) -> (text: String)
        ensures
            text@ == self.switch_failed_text(branch@),
    {
        match self.language {
            Language::Japanese => concat3("ブランチ `", branch, "` への切り替えに失敗しました"),
            Language::English => concat3("could not switch to the branch `", branch, "`"),
        }
    }

    pub open spec fn stdout_write_failed_text(self) -> Seq<char> {
        match self.language {
            Language::Japanese => "標準出力への書き込みに失敗しました"@,
            Language::English => "could not write to the standard output"@,
        }
    }

    /// Writing to the standard output failed.
    pub fn stdout_write_failed(self) -> (text: &'static str)
        ensures
            text@ == self.stdout_write_failed_text(),
    {
        match self.language {
            Language::Japanese => "標準出力への書き込みに失敗しました",
            Language::English => "could not write to the standard output",
        }
    }

    pub open spec fn stderr_write_failed_text(self) -> Seq<char> {
        match self.language {
            Language::Japanese => "標準エラーへの書き込みに失敗しました"@,
            Language::English => "could not write to the standard error"@,
        }
    }

    /// Writing to the standard error failed.
    pub fn stderr_write_failed(self) -> (text: &'static str)
        ensures
            text@ == self.stderr_write_failed_text(),
    {
        match self.language {
            Language::Japanese => "標準エラーへの書き込みに失敗しました",
            Language::English => "could not write to the standard error",
        }
    }

    pub open spec fn run_summary_text(self, succeeded: usize, failed: usize) -> Seq<char> {
        match self.language {
            Language::Japanese => "成功 "@ + decimal(succeeded as nat) + " 件 / 失敗 "@ + decimal(failed as nat) + " 件"@,
            Language::English => decimal(succeeded as nat) + " succeeded / "@ + decimal(failed as nat) + " failed"@,
        }
    }

    /// How many targets succeeded and failed.
    pub fn run_summary(self, succeeded: usize, failed: usize) -> (text: String)
        ensures
            text@ == self.run_summary_text(succeeded, failed),
    {
        match self.language {
            Language::Japanese => concat5("成功 ", decimal_text(succeeded).as_str(), " 件 / 失敗 ", decimal_text(failed).as_str(), " 件"),
            Language::English => concat4(decimal_text(succeeded).as_str(), " succeeded / ", decimal_text(failed).as_str(), " failed"),
        }
    }

    pub open spec fn failed_targets_text(self, targets: Seq<char>) -> Seq<char> {
        match self.language {
            Language::Japanese => "（"@ + targets + "）"@,
            Language::English => " ("@ + targets + ")"@,
        }
    }

    /// Which targets failed.
    pub fn failed_targets(self, targets: &str) -> (text: String)
        ensures
            text@ == self.failed_targets_text(targets@),
    {
        match self.language {
            Language::Japanese => concat3("（", targets, "）"),
            Language::English => concat3(" (", targets, ")"),
        }
    }

    pub open spec fn history_rewrite_note_text(self) -> Seq<char> {
        match self.language {
            Language::Japanese => "rebase はコミットを作り直すため、コミットハッシュが変わります"@,
            Language::English => "a rebase rewrites commits, so their hashes change"@,
        }
    }

    /// A rebase changes commit hashes.
    pub fn history_rewrite_note(self) -> (text: &'static str)
        ensures
            text@ == self.history_rewrite_note_text(),
    {
        match self.language {
            Language::Japanese => "rebase はコミットを作り直すため、コミットハッシュが変わります",
            Language::English => "a rebase rewrites commits, so their hashes change",
        }
    }

    pub open spec fn detached_head_without_upstream_text(self) -> Seq<char> {
        match self.language {
            Language::Japanese => "detached HEAD のため upstream がありません"@,
            Language::English => "a detached HEAD has no upstream"@,
        }
    }

    /// A detached HEAD has no upstream.
    pub fn detached_head_without_upstream(self) -> (text: &'static str)
        ensures
            text@ == self.detached_head_without_upstream_text(),
    {
        match self.language {
            Language::Japanese => "detached HEAD のため upstream がありません",
            Language::English => "a detached HEAD has no upstream",
        }
    }

    pub open spec fn upstream_not_configured_text(self, branch: Seq<char>) -> Seq<char> {
        match self.language {
            Language::Japanese => "ブランチ `"@ + branch + "` には upstream が設定されていません"@,
            Language::English => "the branch `"@ + branch + "` has no upstream"@,
        }
    }

    /// A branch has no upstream.
    pub fn upstream_not_configured(self, branch: &str) -> (text: String)
        ensures
            text@ == self.upstream_not_configured_text(branch@),
    {
        match self.language {
            Language::Japanese => concat3("ブランチ `", branch, "` には upstream が設定されていません"),
            Language::English => concat3("the branch `", branch, "` has no upstream"),
        }
    }

    pub open spec fn ahead_behind_failed_text(self, reference: Seq<char>) -> Seq<char> {
        match self.language {
            Language::Japanese => "`"@ + reference + "` との差を取得できませんでした"@,
            Language::English => "could not compare with `"@ + reference + "`"@,
        }
    }

    /// The distance to a reference could not be read.
    pub fn ahead_behind_failed(self, reference: &str) -> (text: String)
        ensures
            text@ == self.ahead_behind_failed_text(reference@),
    {
        match self.language {
            Language::Japanese => concat3("`", reference, "` との差を取得できませんでした"),
            Language::English => concat3("could not compare with `", reference, "`"),
        }
    }

    pub open spec fn invalid_fetch_jobs_text(self, value: Seq<char>) -> Seq<char> {
        match self.language {
            Language::Japanese => "`fuzgit.fetchJobs` の値 `"@ + value + "` が不正です。1 以上の整数を設定してください"@,
            Language::English => "the value `"@ + value + "` of `fuzgit.fetchJobs` is invalid; set a positive integer"@,
        }
    }

    /// A number of jobs is not one.
    pub fn invalid_fetch_jobs(self, value: &str) -> (text: String)
        ensures
            text@ == self.invalid_fetch_jobs_text(value@),
    {
        match self.language {
            Language::Japanese => concat3("`fuzgit.fetchJobs` の値 `", value, "` が不正です。1 以上の整数を設定してください"),
            Language::English => concat3("the value `", value, "` of `fuzgit.fetchJobs` is invalid; set a positive integer"),
        }
    }

    pub open spec fn gh_output_malformed_text(self, expected: usize, found: usize) -> Seq<char> {
        match self.language {
            Language::Japanese => "gh の出力のフィールド数が想定と異なります（想定 "@ + decimal(expected as nat) + " / 実際 "@ + decimal(found as nat) + "）"@,
            Language::English => "the output of gh has "@ + decimal(found as nat) + " fields where "@ + decimal(expected as nat) + " were expected"@,
        }
    }

    /// The output of gh has other fields than were asked for.
    pub fn gh_output_malformed(self, expected: usize, found: usize) -> (text: String)
        ensures
            text@ == self.gh_output_malformed_text(expected, found),
    {
        match self.language {
            Language::Japanese => concat5("gh の出力のフィールド数が想定と異なります（想定 ", decimal_text(expected).as_str(), " / 実際 ", decimal_text(found).as_str(), "）"),
            Language::English => concat5("the output of gh has ", decimal_text(found).as_str(), " fields where ", decimal_text(expected).as_str(), " were expected"),
        }
    }

    pub open spec fn no_worktree_text(self) -> Seq<char> {
        match self.language {
            Language::Japanese => "作業ツリーのないリポジトリでは実行できません"@,
            Language::English => "this repository has no work tree"@,
        }
    }

    /// There is no work tree.
    pub fn no_worktree(self) -> (text: &'static str)
        ensures
            text@ == self.no_worktree_text(),
    {
        match self.language {
            Language::Japanese => "作業ツリーのないリポジトリでは実行できません",
            Language::English => "this repository has no work tree",
        }
    }

    pub open spec fn command_not_implemented_text(self, command: Seq<char>) -> Seq<char> {
        match self.language {
            Language::Japanese => "`"@ + command + "` はまだ実装されていません"@,
            Language::English => "`"@ + command + "` is not implemented yet"@,
        }
    }

    /// A command does nothing yet.
    pub fn command_not_implemented(self, command: &str) -> (text: String)
        ensures
            text@ == self.command_not_implemented_text(command@),
    {
        match self.language {
            Language::Japanese => concat3("`", command, "` はまだ実装されていません"),
            Language::English => concat3("`", command, "` is not implemented yet"),
        }
    }
}

/// What succeeded is counted before what failed.
pub proof fn law_success_is_counted_first(
    messages: CommonMessages,
    succeeded: usize,
    failed: usize,
    text: String,
)
    requires
        call_ensures(CommonMessages::run_summary, (messages, succeeded, failed), text),
    ensures
        (decimal(succeeded as nat) + " succeeded / "@ + decimal(failed as nat) + " failed"@ == text@)
            || ("成功 "@ + decimal(succeeded as nat) + " 件 / 失敗 "@ + decimal(failed as nat)
            + " 件"@ == text@),
{
}

/// What is said in Japanese begins or ends in Japanese.
pub proof fn law_japanese_is_spoken(
    messages: CommonMessages,
    branch: Seq<char>,
    id: Seq<char>,
    command: Seq<char>,
    succeeded: usize,
    failed: usize,
    targets: Seq<char>,
    reference: Seq<char>,
    value: Seq<char>,
    expected: usize,
    found: usize,
)
    requires
        messages.language is Japanese,
    ensures
        is_japanese(messages.changed_files_read_failed_text()),
        is_japanese(messages.branch_list_read_failed_text()),
        is_japanese(messages.commit_history_read_failed_text()),
        is_japanese(messages.remote_list_read_failed_text()),
        is_japanese(messages.current_branch_read_failed_text()),
        is_japanese(messages.upstream_read_failed_text(branch)),
        is_japanese(messages.commit_hash_parse_failed_text(id)),
        is_japanese(messages.commit_read_failed_text(id)),
        is_japanese(messages.command_run_failed_text(command)),
        is_japanese(messages.switch_failed_text(branch)),
        is_japanese(messages.stdout_write_failed_text()),
        is_japanese(messages.stderr_write_failed_text()),
        is_japanese(messages.run_summary_text(succeeded, failed)),
        is_japanese(messages.failed_targets_text(targets)),
        is_japanese(messages.history_rewrite_note_text()),
        is_japanese(messages.detached_head_without_upstream_text()),
        is_japanese(messages.upstream_not_configured_text(branch)),
        is_japanese(messages.ahead_behind_failed_text(reference)),
        is_japanese(messages.invalid_fetch_jobs_text(value)),
        is_japanese(messages.gh_output_malformed_text(expected, found)),
        is_japanese(messages.no_worktree_text()),
        is_japanese(messages.command_not_implemented_text(command)),
{
    reveal_strlit("変更ファイルの一覧を取得できませんでした");
    reveal_strlit("ブランチの一覧を取得できませんでした");
    reveal_strlit("コミット履歴を取得できませんでした");
    reveal_strlit("リモートの一覧を取得できませんでした");
    reveal_strlit("現在のブランチを取得できませんでした");
    reveal_strlit("ブランチ `");
    reveal_strlit("コミットハッシュ `");
    reveal_strlit("コミット `");
    reveal_strlit("` の実行に失敗しました");
    reveal_strlit("標準出力への書き込みに失敗しました");
    reveal_strlit("標準エラーへの書き込みに失敗しました");
    reveal_strlit("成功 ");
    reveal_strlit("（");
    reveal_strlit("rebase はコミットを作り直すため、コミットハッシュが変わります");
    reveal_strlit("detached HEAD のため upstream がありません");
    reveal_strlit("` との差を取得できませんでした");
    reveal_strlit("` が不正です。1 以上の整数を設定してください");
    reveal_strlit("）");
    reveal_strlit("作業ツリーのないリポジトリでは実行できません");
    reveal_strlit("` はまだ実装されていません");
}

/// What is said in English begins and ends in plain letters.
pub proof fn law_english_is_spoken(
    messages: CommonMessages,
    branch: Seq<char>,
    id: Seq<char>,
    command: Seq<char>,
    targets: Seq<char>,
    reference: Seq<char>,
    value: Seq<char>,
    expected: usize,
    found: usize,
)
    requires
        messages.language is English,
    ensures
        is_english(messages.changed_files_read_failed_text()),
        is_english(messages.branch_list_read_failed_text()),
        is_english(messages.commit_history_read_failed_text()),
        is_english(messages.remote_list_read_failed_text()),
        is_english(messages.current_branch_read_failed_text()),
        is_english(messages.upstream_read_failed_text(branch)),
        is_english(messages.commit_hash_parse_failed_text(id)),
        is_english(messages.commit_read_failed_text(id)),
        is_english(messages.command_run_failed_text(command)),
        is_english(messages.switch_failed_text(branch)),
        is_english(messages.stdout_write_failed_text()),
        is_english(messages.stderr_write_failed_text()),
        is_english(messages.failed_targets_text(targets)),
        is_english(messages.history_rewrite_note_text()),
        is_english(messages.detached_head_without_upstream_text()),
        is_english(messages.upstream_not_configured_text(branch)),
        is_english(messages.ahead_behind_failed_text(reference)),
        is_english(messages.invalid_fetch_jobs_text(value)),
        is_english(messages.gh_output_malformed_text(expected, found)),
        is_english(messages.no_worktree_text()),
        is_english(messages.command_not_implemented_text(command)),
{
    reveal_strlit("could not read the changed files");
    reveal_strlit("could not read the branches");
    reveal_strlit("could not read the commit history");
    reveal_strlit("could not read the remotes");
    reveal_strlit("could not read the current branch");
    reveal_strlit("could not read the upstream of `");
    reveal_strlit("`");
    reveal_strlit("could not parse the commit hash `");
    reveal_strlit("could not read the commit `");
    reveal_strlit("` failed");
    reveal_strlit("could not switch to the branch `");
    reveal_strlit("could not write to the standard output");
    reveal_strlit("could not write to the standard error");
    reveal_strlit(" (");
    reveal_strlit(")");
    reveal_strlit("a rebase rewrites commits, so their hashes change");
    reveal_strlit("a detached HEAD has no upstream");
    reveal_strlit("the branch `");
    reveal_strlit("` has no upstream");
    reveal_strlit("could not compare with `");
    reveal_strlit("the value `");
    reveal_strlit("` of `fuzgit.fetchJobs` is invalid; set a positive integer");
    reveal_strlit("the output of gh has ");
    reveal_strlit(" were expected");
    reveal_strlit("this repository has no work tree");
    reveal_strlit("` is not implemented yet");
}

/// What a message is given stands in it, in either language.
pub proof fn law_what_is_named_is_there(
    messages: CommonMessages,
    branch: Seq<char>,
    id: Seq<char>,
    command: Seq<char>,
    succeeded: usize,
    failed: usize,
    targets: Seq<char>,
    reference: Seq<char>,
    value: Seq<char>,
    expected: usize,
    found: usize,
)
    ensures
        holds(messages.upstream_read_failed_text(branch), branch),
        holds(messages.commit_hash_parse_failed_text(id), id),
        holds(messages.commit_read_failed_text(id), id),
        holds(messages.command_run_failed_text(command), command),
        holds(messages.switch_failed_text(branch), branch),
        holds(messages.run_summary_text(succeeded, failed), decimal(succeeded as nat)),
        holds(messages.run_summary_text(succeeded, failed), decimal(failed as nat)),
        holds(messages.failed_targets_text(targets), targets),
        holds(messages.upstream_not_configured_text(branch), branch),
        holds(messages.ahead_behind_failed_text(reference), reference),
        holds(messages.invalid_fetch_jobs_text(value), value),
        holds(messages.gh_output_malformed_text(expected, found), decimal(expected as nat)),
        holds(messages.gh_output_malformed_text(expected, found), decimal(found as nat)),
        holds(messages.command_not_implemented_text(command), command),
{
    match messages.language {
        Language::Japanese => {
            lemma_holds(messages.upstream_read_failed_text(branch), branch, "ブランチ `"@.len() as int);
            lemma_holds(messages.commit_hash_parse_failed_text(id), id, "コミットハッシュ `"@.len() as int);
            lemma_holds(messages.commit_read_failed_text(id), id, "コミット `"@.len() as int);
            lemma_holds(messages.command_run_failed_text(command), command, "`"@.len() as int);
            lemma_holds(messages.switch_failed_text(branch), branch, "ブランチ `"@.len() as int);
            lemma_holds(messages.run_summary_text(succeeded, failed), decimal(succeeded as nat), "成功 "@.len() as int);
            lemma_holds(messages.run_summary_text(succeeded, failed), decimal(failed as nat), ("成功 "@ + decimal(succeeded as nat) + " 件 / 失敗 "@).len() as int);
            lemma_holds(messages.failed_targets_text(targets), targets, "（"@.len() as int);
            lemma_holds(messages.upstream_not_configured_text(branch), branch, "ブランチ `"@.len() as int);
            lemma_holds(messages.ahead_behind_failed_text(reference), reference, "`"@.len() as int);
            lemma_holds(messages.invalid_fetch_jobs_text(value), value, "`fuzgit.fetchJobs` の値 `"@.len() as int);
            lemma_holds(messages.gh_output_malformed_text(expected, found), decimal(expected as nat), "gh の出力のフィールド数が想定と異なります（想定 "@.len() as int);
            lemma_holds(messages.gh_output_malformed_text(expected, found), decimal(found as nat), ("gh の出力のフィールド数が想定と異なります（想定 "@ + decimal(expected as nat) + " / 実際 "@).len() as int);
            lemma_holds(messages.command_not_implemented_text(command), command, "`"@.len() as int);
        },
        Language::English => {
            lemma_holds(messages.upstream_read_failed_text(branch), branch, "could not read the upstream of `"@.len() as int);
            lemma_holds(messages.commit_hash_parse_failed_text(id), id, "could not parse the commit hash `"@.len() as int);
            lemma_holds(messages.commit_read_failed_text(id), id, "could not read the commit `"@.len() as int);
            lemma_holds(messages.command_run_failed_text(command), command, "`"@.len() as int);
            lemma_holds(messages.switch_failed_text(branch), branch, "could not switch to the branch `"@.len() as int);
            lemma_holds(messages.run_summary_text(succeeded, failed), decimal(succeeded as nat), 0);
            lemma_holds(messages.run_summary_text(succeeded, failed), decimal(failed as nat), (decimal(succeeded as nat) + " succeeded / "@).len() as int);
            lemma_holds(messages.failed_targets_text(targets), targets, " ("@.len() as int);
            lemma_holds(messages.upstream_not_configured_text(branch), branch, "the branch `"@.len() as int);
            lemma_holds(messages.ahead_behind_failed_text(reference), reference, "could not compare with `"@.len() as int);
            lemma_holds(messages.invalid_fetch_jobs_text(value), value, "the value `"@.len() as int);
            lemma_holds(messages.gh_output_malformed_text(expected, found), decimal(expected as nat), ("the output of gh has "@ + decimal(found as nat) + " fields where "@).len() as int);
            lemma_holds(messages.gh_output_malformed_text(expected, found), decimal(found as nat), "the output of gh has "@.len() as int);
            lemma_holds(messages.command_not_implemented_text(command), command, "`"@.len() as int);
        },
    }
}

} // verus!
