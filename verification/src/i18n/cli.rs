//! Help texts of the command line.

use vstd::prelude::*;

use crate::i18n::{is_english, is_japanese, Language};

verus! {

/// Help texts of the command line.
#[derive(Debug, Clone, Copy, PartialEq, Eq)]
pub struct CliMessages {
    pub language: Language,
}

impl CliMessages {
    pub open spec fn about_text(self) -> Seq<char> {
        match self.language {
            Language::Japanese => "fuzzy finder で「選ぶ」「探す」「辿る」git 操作 CLI"@,
            Language::English => "A git CLI that lets you pick, search, and trace with a fuzzy finder"@,
        }
    }

    /// What `gz` is.
    pub fn about(self) -> (text: &'static str)
        ensures
            text@ == self.about_text(),
    {
        match self.language {
            Language::Japanese => "fuzzy finder で「選ぶ」「探す」「辿る」git 操作 CLI",
            Language::English => "A git CLI that lets you pick, search, and trace with a fuzzy finder",
        }
    }

    pub open spec fn lang_help_text(self) -> Seq<char> {
        match self.language {
            Language::Japanese => "表示言語（省略時は FUZGIT_LANG / git config fuzgit.lang / ロケールに従う）"@,
            Language::English => "Display language (falls back to FUZGIT_LANG / git config fuzgit.lang / the locale)"@,
        }
    }

    /// `--lang`.
    pub fn lang_help(self) -> (text: &'static str)
        ensures
            text@ == self.lang_help_text(),
    {
        match self.language {
            Language::Japanese => "表示言語（省略時は FUZGIT_LANG / git config fuzgit.lang / ロケールに従う）",
            Language::English => "Display language (falls back to FUZGIT_LANG / git config fuzgit.lang / the locale)",
        }
    }

    pub open spec fn branch_about_text(self) -> Seq<char> {
        match self.language {
            Language::Japanese => "ブランチを選んで切り替える（サブコマンドで作成・削除・整理）"@,
            Language::English => "Pick a branch and switch to it (subcommands also create, delete and tidy up)"@,
        }
    }

    /// `gz branch`.
    pub fn branch_about(self) -> (text: &'static str)
        ensures
            text@ == self.branch_about_text(),
    {
        match self.language {
            Language::Japanese => "ブランチを選んで切り替える（サブコマンドで作成・削除・整理）",
            Language::English => "Pick a branch and switch to it (subcommands also create, delete and tidy up)",
        }
    }

    pub open spec fn branch_all_help_text(self) -> Seq<char> {
        match self.language {
            Language::Japanese => "リモート追跡ブランチも候補に含める"@,
            Language::English => "Include remote-tracking branches in the candidates"@,
        }
    }

    /// `gz branch --all`.
    pub fn branch_all_help(self) -> (text: &'static str)
        ensures
            text@ == self.branch_all_help_text(),
    {
        match self.language {
            Language::Japanese => "リモート追跡ブランチも候補に含める",
            Language::English => "Include remote-tracking branches in the candidates",
        }
    }

    pub open spec fn branch_create_about_text(self) -> Seq<char> {
        match self.language {
            Language::Japanese => "起点を選んで新しいブランチを作成する"@,
            Language::English => "Pick a starting point and create a new branch"@,
        }
    }

    /// `gz branch create`.
    pub fn branch_create_about(self) -> (text: &'static str)
        ensures
            text@ == self.branch_create_about_text(),
    {
        match self.language {
            Language::Japanese => "起点を選んで新しいブランチを作成する",
            Language::English => "Pick a starting point and create a new branch",
        }
    }

    pub open spec fn branch_create_name_help_text(self) -> Seq<char> {
        match self.language {
            Language::Japanese => "作成するブランチの名前"@,
            Language::English => "Name of the branch to create"@,
        }
    }

    /// Its name.
    pub fn branch_create_name_help(self) -> (text: &'static str)
        ensures
            text@ == self.branch_create_name_help_text(),
    {
        match self.language {
            Language::Japanese => "作成するブランチの名前",
            Language::English => "Name of the branch to create",
        }
    }

    pub open spec fn branch_create_switch_help_text(self) -> Seq<char> {
        match self.language {
            Language::Japanese => "作成したブランチへ切り替える"@,
            Language::English => "Switch to the branch after creating it"@,
        }
    }

    /// `--switch`.
    pub fn branch_create_switch_help(self) -> (text: &'static str)
        ensures
            text@ == self.branch_create_switch_help_text(),
    {
        match self.language {
            Language::Japanese => "作成したブランチへ切り替える",
            Language::English => "Switch to the branch after creating it",
        }
    }

    pub open spec fn branch_delete_about_text(self) -> Seq<char> {
        match self.language {
            Language::Japanese => "ブランチを選んで削除する"@,
            Language::English => "Pick a branch and delete it"@,
        }
    }

    /// `gz branch delete`.
    pub fn branch_delete_about(self) -> (text: &'static str)
        ensures
            text@ == self.branch_delete_about_text(),
    {
        match self.language {
            Language::Japanese => "ブランチを選んで削除する",
            Language::English => "Pick a branch and delete it",
        }
    }

    pub open spec fn branch_delete_force_help_text(self) -> Seq<char> {
        match self.language {
            Language::Japanese => "マージされていないブランチも削除する（`git branch -D`）"@,
            Language::English => "Delete a branch even when it is not merged (`git branch -D`)"@,
        }
    }

    /// `--force`.
    pub fn branch_delete_force_help(self) -> (text: &'static str)
        ensures
            text@ == self.branch_delete_force_help_text(),
    {
        match self.language {
            Language::Japanese => "マージされていないブランチも削除する（`git branch -D`）",
            Language::English => "Delete a branch even when it is not merged (`git branch -D`)",
        }
    }

    pub open spec fn branch_delete_into_help_text(self) -> Seq<char> {
        match self.language {
            Language::Japanese => "マージ済みかどうかを判定する基準のブランチ（既定は HEAD）"@,
            Language::English => "Branch that `merged` is judged against (defaults to HEAD)"@,
        }
    }

    /// `--into`.
    pub fn branch_delete_into_help(self) -> (text: &'static str)
        ensures
            text@ == self.branch_delete_into_help_text(),
    {
        match self.language {
            Language::Japanese => "マージ済みかどうかを判定する基準のブランチ（既定は HEAD）",
            Language::English => "Branch that `merged` is judged against (defaults to HEAD)",
        }
    }

    pub open spec fn branch_cleanup_about_text(self) -> Seq<char> {
        match self.language {
            Language::Japanese => "マージ済みのブランチをまとめて削除する"@,
            Language::English => "Delete every merged branch at once"@,
        }
    }

    /// `gz branch cleanup`.
    pub fn branch_cleanup_about(self) -> (text: &'static str)
        ensures
            text@ == self.branch_cleanup_about_text(),
    {
        match self.language {
            Language::Japanese => "マージ済みのブランチをまとめて削除する",
            Language::English => "Delete every merged branch at once",
        }
    }

    pub open spec fn branch_cleanup_into_help_text(self) -> Seq<char> {
        match self.language {
            Language::Japanese => "マージ済みかどうかを判定する基準のブランチ（既定は HEAD）"@,
            Language::English => "Branch that `merged` is judged against (defaults to HEAD)"@,
        }
    }

    /// `--into`.
    pub fn branch_cleanup_into_help(self) -> (text: &'static str)
        ensures
            text@ == self.branch_cleanup_into_help_text(),
    {
        match self.language {
            Language::Japanese => "マージ済みかどうかを判定する基準のブランチ（既定は HEAD）",
            Language::English => "Branch that `merged` is judged against (defaults to HEAD)",
        }
    }

    pub open spec fn log_about_text(self) -> Seq<char> {
        match self.language {
            Language::Japanese => "コミット履歴を辿り、選んだコミットの完全ハッシュを出力する"@,
            Language::English => "Trace the commit history and print the full hash of the picked commit"@,
        }
    }

    /// `gz log`.
    pub fn log_about(self) -> (text: &'static str)
        ensures
            text@ == self.log_about_text(),
    {
        match self.language {
            Language::Japanese => "コミット履歴を辿り、選んだコミットの完全ハッシュを出力する",
            Language::English => "Trace the commit history and print the full hash of the picked commit",
        }
    }

    pub open spec fn log_limit_help_text(self) -> Seq<char> {
        match self.language {
            Language::Japanese => "読み込むコミットの最大件数"@,
            Language::English => "Maximum number of commits to read"@,
        }
    }

    /// `--limit`.
    pub fn log_limit_help(self) -> (text: &'static str)
        ensures
            text@ == self.log_limit_help_text(),
    {
        match self.language {
            Language::Japanese => "読み込むコミットの最大件数",
            Language::English => "Maximum number of commits to read",
        }
    }

    pub open spec fn log_action_help_text(self) -> Seq<char> {
        match self.language {
            Language::Japanese => "選んだコミットに対する操作をメニューから選ぶ"@,
            Language::English => "Pick what to do with the commit from a menu"@,
        }
    }

    /// `--action`.
    pub fn log_action_help(self) -> (text: &'static str)
        ensures
            text@ == self.log_action_help_text(),
    {
        match self.language {
            Language::Japanese => "選んだコミットに対する操作をメニューから選ぶ",
            Language::English => "Pick what to do with the commit from a menu",
        }
    }

    pub open spec fn cherry_pick_about_text(self) -> Seq<char> {
        match self.language {
            Language::Japanese => "コミットを選んで cherry-pick する"@,
            Language::English => "Pick a commit and cherry-pick it"@,
        }
    }

    /// `gz cherry-pick`.
    pub fn cherry_pick_about(self) -> (text: &'static str)
        ensures
            text@ == self.cherry_pick_about_text(),
    {
        match self.language {
            Language::Japanese => "コミットを選んで cherry-pick する",
            Language::English => "Pick a commit and cherry-pick it",
        }
    }

    pub open spec fn cherry_pick_branch_help_text(self) -> Seq<char> {
        match self.language {
            Language::Japanese => "対象のブランチ（省略時はすべてのブランチのコミットが候補）"@,
            Language::English => "Target branch (without it, the commits of every branch are offered)"@,
        }
    }

    /// `--branch`.
    pub fn cherry_pick_branch_help(self) -> (text: &'static str)
        ensures
            text@ == self.cherry_pick_branch_help_text(),
    {
        match self.language {
            Language::Japanese => "対象のブランチ（省略時はすべてのブランチのコミットが候補）",
            Language::English => "Target branch (without it, the commits of every branch are offered)",
        }
    }

    pub open spec fn restore_about_text(self) -> Seq<char> {
        match self.language {
            Language::Japanese => "ファイルを選んで git restore で復元する"@,
            Language::English => "Pick files and restore them with git restore"@,
        }
    }

    /// `gz restore`.
    pub fn restore_about(self) -> (text: &'static str)
        ensures
            text@ == self.restore_about_text(),
    {
        match self.language {
            Language::Japanese => "ファイルを選んで git restore で復元する",
            Language::English => "Pick files and restore them with git restore",
        }
    }

    pub open spec fn restore_source_help_text(self) -> Seq<char> {
        match self.language {
            Language::Japanese => "復元元のリビジョン"@,
            Language::English => "Revision to restore from"@,
        }
    }

    /// `--source`.
    pub fn restore_source_help(self) -> (text: &'static str)
        ensures
            text@ == self.restore_source_help_text(),
    {
        match self.language {
            Language::Japanese => "復元元のリビジョン",
            Language::English => "Revision to restore from",
        }
    }

    pub open spec fn restore_staged_help_text(self) -> Seq<char> {
        match self.language {
            Language::Japanese => "ステージした変更を取り消す"@,
            Language::English => "Unstage the staged changes"@,
        }
    }

    /// `--staged`.
    pub fn restore_staged_help(self) -> (text: &'static str)
        ensures
            text@ == self.restore_staged_help_text(),
    {
        match self.language {
            Language::Japanese => "ステージした変更を取り消す",
            Language::English => "Unstage the staged changes",
        }
    }

    pub open spec fn add_about_text(self) -> Seq<char> {
        match self.language {
            Language::Japanese => "未ステージ・未追跡のファイルを選んで git add でステージする"@,
            Language::English => "Pick unstaged and untracked files and stage them with git add"@,
        }
    }

    /// `gz add`.
    pub fn add_about(self) -> (text: &'static str)
        ensures
            text@ == self.add_about_text(),
    {
        match self.language {
            Language::Japanese => "未ステージ・未追跡のファイルを選んで git add でステージする",
            Language::English => "Pick unstaged and untracked files and stage them with git add",
        }
    }

    pub open spec fn stash_about_text(self) -> Seq<char> {
        match self.language {
            Language::Japanese => "変更を退避し、stash を探して適用・削除する"@,
            Language::English => "Stash changes away, then search the stashes to apply or drop them"@,
        }
    }

    /// `gz stash`.
    pub fn stash_about(self) -> (text: &'static str)
        ensures
            text@ == self.stash_about_text(),
    {
        match self.language {
            Language::Japanese => "変更を退避し、stash を探して適用・削除する",
            Language::English => "Stash changes away, then search the stashes to apply or drop them",
        }
    }

    pub open spec fn stash_push_about_text(self) -> Seq<char> {
        match self.language {
            Language::Japanese => "変更ファイルを選んで退避する"@,
            Language::English => "Pick changed files and stash them away"@,
        }
    }

    /// `gz stash push`.
    pub fn stash_push_about(self) -> (text: &'static str)
        ensures
            text@ == self.stash_push_about_text(),
    {
        match self.language {
            Language::Japanese => "変更ファイルを選んで退避する",
            Language::English => "Pick changed files and stash them away",
        }
    }

    pub open spec fn stash_push_message_help_text(self) -> Seq<char> {
        match self.language {
            Language::Japanese => "stash に付けるメッセージ"@,
            Language::English => "Message to attach to the stash"@,
        }
    }

    /// `--message`.
    pub fn stash_push_message_help(self) -> (text: &'static str)
        ensures
            text@ == self.stash_push_message_help_text(),
    {
        match self.language {
            Language::Japanese => "stash に付けるメッセージ",
            Language::English => "Message to attach to the stash",
        }
    }

    pub open spec fn stash_push_include_untracked_help_text(self) -> Seq<char> {
        match self.language {
            Language::Japanese => "未追跡ファイルも候補に含める（既定は追跡中の変更のみ）"@,
            Language::English => "Include untracked files in the candidates (tracked changes only by default)"@,
        }
    }

    /// `--include-untracked`.
    pub fn stash_push_include_untracked_help(self) -> (text: &'static str)
        ensures
            text@ == self.stash_push_include_untracked_help_text(),
    {
        match self.language {
            Language::Japanese => "未追跡ファイルも候補に含める（既定は追跡中の変更のみ）",
            Language::English => "Include untracked files in the candidates (tracked changes only by default)",
        }
    }

    pub open spec fn stash_apply_about_text(self) -> Seq<char> {
        match self.language {
            Language::Japanese => "stash を選んで適用する（stash は残る）"@,
            Language::English => "Pick a stash and apply it (the stash is kept)"@,
        }
    }

    /// `gz stash apply`.
    pub fn stash_apply_about(self) -> (text: &'static str)
        ensures
            text@ == self.stash_apply_about_text(),
    {
        match self.language {
            Language::Japanese => "stash を選んで適用する（stash は残る）",
            Language::English => "Pick a stash and apply it (the stash is kept)",
        }
    }

    pub open spec fn stash_pop_about_text(self) -> Seq<char> {
        match self.language {
            Language::Japanese => "stash を選んで適用し、その stash を削除する"@,
            Language::English => "Pick a stash, apply it and drop that stash"@,
        }
    }

    /// `gz stash pop`.
    pub fn stash_pop_about(self) -> (text: &'static str)
        ensures
            text@ == self.stash_pop_about_text(),
    {
        match self.language {
            Language::Japanese => "stash を選んで適用し、その stash を削除する",
            Language::English => "Pick a stash, apply it and drop that stash",
        }
    }

    pub open spec fn stash_drop_about_text(self) -> Seq<char> {
        match self.language {
            Language::Japanese => "stash を選んで削除する"@,
            Language::English => "Pick a stash and drop it"@,
        }
    }

    /// `gz stash drop`.
    pub fn stash_drop_about(self) -> (text: &'static str)
        ensures
            text@ == self.stash_drop_about_text(),
    {
        match self.language {
            Language::Japanese => "stash を選んで削除する",
            Language::English => "Pick a stash and drop it",
        }
    }

    pub open spec fn tag_about_text(self) -> Seq<char> {
        match self.language {
            Language::Japanese => "タグを選ぶ（既定ではタグ名を出力する）"@,
            Language::English => "Pick a tag (prints the tag name by default)"@,
        }
    }

    /// `gz tag`.
    pub fn tag_about(self) -> (text: &'static str)
        ensures
            text@ == self.tag_about_text(),
    {
        match self.language {
            Language::Japanese => "タグを選ぶ（既定ではタグ名を出力する）",
            Language::English => "Pick a tag (prints the tag name by default)",
        }
    }

    pub open spec fn tag_switch_help_text(self) -> Seq<char> {
        match self.language {
            Language::Japanese => "選んだタグへ detached HEAD として切り替える"@,
            Language::English => "Switch to the picked tag as a detached HEAD"@,
        }
    }

    /// `--switch`.
    pub fn tag_switch_help(self) -> (text: &'static str)
        ensures
            text@ == self.tag_switch_help_text(),
    {
        match self.language {
            Language::Japanese => "選んだタグへ detached HEAD として切り替える",
            Language::English => "Switch to the picked tag as a detached HEAD",
        }
    }

    pub open spec fn tag_diff_help_text(self) -> Seq<char> {
        match self.language {
            Language::Japanese => "選んだタグと HEAD の差分を表示する"@,
            Language::English => "Show the diff between the picked tag and HEAD"@,
        }
    }

    /// `--diff`.
    pub fn tag_diff_help(self) -> (text: &'static str)
        ensures
            text@ == self.tag_diff_help_text(),
    {
        match self.language {
            Language::Japanese => "選んだタグと HEAD の差分を表示する",
            Language::English => "Show the diff between the picked tag and HEAD",
        }
    }

    pub open spec fn reflog_about_text(self) -> Seq<char> {
        match self.language {
            Language::Japanese => "HEAD の reflog を辿り、選んだコミットのハッシュを出力する"@,
            Language::English => "Trace the reflog of HEAD and print the hash of the picked commit"@,
        }
    }

    /// `gz reflog`.
    pub fn reflog_about(self) -> (text: &'static str)
        ensures
            text@ == self.reflog_about_text(),
    {
        match self.language {
            Language::Japanese => "HEAD の reflog を辿り、選んだコミットのハッシュを出力する",
            Language::English => "Trace the reflog of HEAD and print the hash of the picked commit",
        }
    }

    pub open spec fn reflog_restore_help_text(self) -> Seq<char> {
        match self.language {
            Language::Japanese => "選んだコミットから指定した名前の新しいブランチを作成する"@,
            Language::English => "Create a new branch with the given name from the picked commit"@,
        }
    }

    /// `--restore`.
    pub fn reflog_restore_help(self) -> (text: &'static str)
        ensures
            text@ == self.reflog_restore_help_text(),
    {
        match self.language {
            Language::Japanese => "選んだコミットから指定した名前の新しいブランチを作成する",
            Language::English => "Create a new branch with the given name from the picked commit",
        }
    }

    pub open spec fn reflog_action_help_text(self) -> Seq<char> {
        match self.language {
            Language::Japanese => "選んだコミットに対する操作をメニューから選ぶ"@,
            Language::English => "Pick what to do with the commit from a menu"@,
        }
    }

    /// `--action`.
    pub fn reflog_action_help(self) -> (text: &'static str)
        ensures
            text@ == self.reflog_action_help_text(),
    {
        match self.language {
            Language::Japanese => "選んだコミットに対する操作をメニューから選ぶ",
            Language::English => "Pick what to do with the commit from a menu",
        }
    }

    pub open spec fn commit_about_text(self) -> Seq<char> {
        match self.language {
            Language::Japanese => "コミットするファイルを選んでコミットする"@,
            Language::English => "Pick the files to commit and commit them"@,
        }
    }

    /// `gz commit`.
    pub fn commit_about(self) -> (text: &'static str)
        ensures
            text@ == self.commit_about_text(),
    {
        match self.language {
            Language::Japanese => "コミットするファイルを選んでコミットする",
            Language::English => "Pick the files to commit and commit them",
        }
    }

    pub open spec fn commit_message_help_text(self) -> Seq<char> {
        match self.language {
            Language::Japanese => "コミットメッセージ（省略時は git がエディタを起動する）"@,
            Language::English => "Commit message (without it, git starts an editor)"@,
        }
    }

    /// `--message`.
    pub fn commit_message_help(self) -> (text: &'static str)
        ensures
            text@ == self.commit_message_help_text(),
    {
        match self.language {
            Language::Japanese => "コミットメッセージ（省略時は git がエディタを起動する）",
            Language::English => "Commit message (without it, git starts an editor)",
        }
    }

    pub open spec fn fixup_about_text(self) -> Seq<char> {
        match self.language {
            Language::Japanese => "修正対象のコミットを選んで fixup コミットを作成する"@,
            Language::English => "Pick the commit to amend and create a fixup commit"@,
        }
    }

    /// `gz fixup`.
    pub fn fixup_about(self) -> (text: &'static str)
        ensures
            text@ == self.fixup_about_text(),
    {
        match self.language {
            Language::Japanese => "修正対象のコミットを選んで fixup コミットを作成する",
            Language::English => "Pick the commit to amend and create a fixup commit",
        }
    }

    pub open spec fn fixup_squash_help_text(self) -> Seq<char> {
        match self.language {
            Language::Japanese => "fixup の代わりに squash コミット（メッセージを統合する）を作成する"@,
            Language::English => "Create a squash commit (which joins the messages) instead of a fixup one"@,
        }
    }

    /// `--squash`.
    pub fn fixup_squash_help(self) -> (text: &'static str)
        ensures
            text@ == self.fixup_squash_help_text(),
    {
        match self.language {
            Language::Japanese => "fixup の代わりに squash コミット（メッセージを統合する）を作成する",
            Language::English => "Create a squash commit (which joins the messages) instead of a fixup one",
        }
    }

    pub open spec fn merge_about_text(self) -> Seq<char> {
        match self.language {
            Language::Japanese => "ブランチを選んでマージする"@,
            Language::English => "Pick a branch and merge it"@,
        }
    }

    /// `gz merge`.
    pub fn merge_about(self) -> (text: &'static str)
        ensures
            text@ == self.merge_about_text(),
    {
        match self.language {
            Language::Japanese => "ブランチを選んでマージする",
            Language::English => "Pick a branch and merge it",
        }
    }

    pub open spec fn merge_no_ff_help_text(self) -> Seq<char> {
        match self.language {
            Language::Japanese => "fast-forward できる場合もマージコミットを作成する"@,
            Language::English => "Create a merge commit even when a fast-forward is possible"@,
        }
    }

    /// `--no-ff`.
    pub fn merge_no_ff_help(self) -> (text: &'static str)
        ensures
            text@ == self.merge_no_ff_help_text(),
    {
        match self.language {
            Language::Japanese => "fast-forward できる場合もマージコミットを作成する",
            Language::English => "Create a merge commit even when a fast-forward is possible",
        }
    }

    pub open spec fn merge_squash_help_text(self) -> Seq<char> {
        match self.language {
            Language::Japanese => "マージ結果を作業ツリーと index に反映し、コミットはしない"@,
            Language::English => "Apply the merge result to the working tree and the index without committing"@,
        }
    }

    /// `--squash`.
    pub fn merge_squash_help(self) -> (text: &'static str)
        ensures
            text@ == self.merge_squash_help_text(),
    {
        match self.language {
            Language::Japanese => "マージ結果を作業ツリーと index に反映し、コミットはしない",
            Language::English => "Apply the merge result to the working tree and the index without committing",
        }
    }

    pub open spec fn merge_ff_only_help_text(self) -> Seq<char> {
        match self.language {
            Language::Japanese => "fast-forward できる場合のみマージする"@,
            Language::English => "Merge only when a fast-forward is possible"@,
        }
    }

    /// `--ff-only`.
    pub fn merge_ff_only_help(self) -> (text: &'static str)
        ensures
            text@ == self.merge_ff_only_help_text(),
    {
        match self.language {
            Language::Japanese => "fast-forward できる場合のみマージする",
            Language::English => "Merge only when a fast-forward is possible",
        }
    }

    pub open spec fn rebase_about_text(self) -> Seq<char> {
        match self.language {
            Language::Japanese => "ブランチを選んでその上へ rebase する"@,
            Language::English => "Pick a branch and rebase onto it"@,
        }
    }

    /// `gz rebase`.
    pub fn rebase_about(self) -> (text: &'static str)
        ensures
            text@ == self.rebase_about_text(),
    {
        match self.language {
            Language::Japanese => "ブランチを選んでその上へ rebase する",
            Language::English => "Pick a branch and rebase onto it",
        }
    }

    pub open spec fn revert_about_text(self) -> Seq<char> {
        match self.language {
            Language::Japanese => "コミットを選んで打ち消す（revert コミットを作成する）"@,
            Language::English => "Pick a commit and undo it (creates a revert commit)"@,
        }
    }

    /// `gz revert`.
    pub fn revert_about(self) -> (text: &'static str)
        ensures
            text@ == self.revert_about_text(),
    {
        match self.language {
            Language::Japanese => "コミットを選んで打ち消す（revert コミットを作成する）",
            Language::English => "Pick a commit and undo it (creates a revert commit)",
        }
    }

    pub open spec fn revert_no_edit_help_text(self) -> Seq<char> {
        match self.language {
            Language::Japanese => "エディタを起動せず git の既定のメッセージでコミットする"@,
            Language::English => "Commit with the default message of git without starting an editor"@,
        }
    }

    /// `--no-edit`.
    pub fn revert_no_edit_help(self) -> (text: &'static str)
        ensures
            text@ == self.revert_no_edit_help_text(),
    {
        match self.language {
            Language::Japanese => "エディタを起動せず git の既定のメッセージでコミットする",
            Language::English => "Commit with the default message of git without starting an editor",
        }
    }

    pub open spec fn status_about_text(self) -> Seq<char> {
        match self.language {
            Language::Japanese => "変更ファイルの状態を一覧し、選んだファイルを操作する"@,
            Language::English => "List the state of the changed files and act on the picked ones"@,
        }
    }

    /// `gz status`.
    pub fn status_about(self) -> (text: &'static str)
        ensures
            text@ == self.status_about_text(),
    {
        match self.language {
            Language::Japanese => "変更ファイルの状態を一覧し、選んだファイルを操作する",
            Language::English => "List the state of the changed files and act on the picked ones",
        }
    }

    pub open spec fn diff_about_text(self) -> Seq<char> {
        match self.language {
            Language::Japanese => "比較対象を選んで差分を表示する"@,
            Language::English => "Pick what to compare and show the diff"@,
        }
    }

    /// `gz diff`.
    pub fn diff_about(self) -> (text: &'static str)
        ensures
            text@ == self.diff_about_text(),
    {
        match self.language {
            Language::Japanese => "比較対象を選んで差分を表示する",
            Language::English => "Pick what to compare and show the diff",
        }
    }

    pub open spec fn diff_staged_help_text(self) -> Seq<char> {
        match self.language {
            Language::Japanese => "ステージした変更を対象にする（`git diff --staged` と同じ）"@,
            Language::English => "Target the staged changes (same as `git diff --staged`)"@,
        }
    }

    /// `--staged`.
    pub fn diff_staged_help(self) -> (text: &'static str)
        ensures
            text@ == self.diff_staged_help_text(),
    {
        match self.language {
            Language::Japanese => "ステージした変更を対象にする（`git diff --staged` と同じ）",
            Language::English => "Target the staged changes (same as `git diff --staged`)",
        }
    }

    pub open spec fn diff_head_help_text(self) -> Seq<char> {
        match self.language {
            Language::Japanese => "HEAD と作業ツリーを比較する（ステージした変更を含む）"@,
            Language::English => "Compare HEAD with the working tree (including the staged changes)"@,
        }
    }

    /// `--head`.
    pub fn diff_head_help(self) -> (text: &'static str)
        ensures
            text@ == self.diff_head_help_text(),
    {
        match self.language {
            Language::Japanese => "HEAD と作業ツリーを比較する（ステージした変更を含む）",
            Language::English => "Compare HEAD with the working tree (including the staged changes)",
        }
    }

    pub open spec fn diff_upstream_help_text(self) -> Seq<char> {
        match self.language {
            Language::Japanese => "HEAD と upstream を比較する"@,
            Language::English => "Compare HEAD with the upstream"@,
        }
    }

    /// `--upstream`.
    pub fn diff_upstream_help(self) -> (text: &'static str)
        ensures
            text@ == self.diff_upstream_help_text(),
    {
        match self.language {
            Language::Japanese => "HEAD と upstream を比較する",
            Language::English => "Compare HEAD with the upstream",
        }
    }

    pub open spec fn diff_branch_help_text(self) -> Seq<char> {
        match self.language {
            Language::Japanese => "2 つのブランチを選んで比較する"@,
            Language::English => "Pick two branches and compare them"@,
        }
    }

    /// `--branch`.
    pub fn diff_branch_help(self) -> (text: &'static str)
        ensures
            text@ == self.diff_branch_help_text(),
    {
        match self.language {
            Language::Japanese => "2 つのブランチを選んで比較する",
            Language::English => "Pick two branches and compare them",
        }
    }

    pub open spec fn diff_commit_help_text(self) -> Seq<char> {
        match self.language {
            Language::Japanese => "2 つのコミットを選んで比較する"@,
            Language::English => "Pick two commits and compare them"@,
        }
    }

    /// `--commit`.
    pub fn diff_commit_help(self) -> (text: &'static str)
        ensures
            text@ == self.diff_commit_help_text(),
    {
        match self.language {
            Language::Japanese => "2 つのコミットを選んで比較する",
            Language::English => "Pick two commits and compare them",
        }
    }

    pub open spec fn fetch_about_text(self) -> Seq<char> {
        match self.language {
            Language::Japanese => "取得対象を決めて取得する"@,
            Language::English => "Decide what to fetch and fetch it"@,
        }
    }

    /// `gz fetch`.
    pub fn fetch_about(self) -> (text: &'static str)
        ensures
            text@ == self.fetch_about_text(),
    {
        match self.language {
            Language::Japanese => "取得対象を決めて取得する",
            Language::English => "Decide what to fetch and fetch it",
        }
    }

    pub open spec fn fetch_prune_help_text(self) -> Seq<char> {
        match self.language {
            Language::Japanese => "リモートで削除されたブランチの追跡参照も掃除する"@,
            Language::English => "Also clean up the tracking refs of branches deleted on the remote"@,
        }
    }

    /// `--prune`.
    pub fn fetch_prune_help(self) -> (text: &'static str)
        ensures
            text@ == self.fetch_prune_help_text(),
    {
        match self.language {
            Language::Japanese => "リモートで削除されたブランチの追跡参照も掃除する",
            Language::English => "Also clean up the tracking refs of branches deleted on the remote",
        }
    }

    pub open spec fn fetch_siblings_help_text(self) -> Seq<char> {
        match self.language {
            Language::Japanese => "同じ階層に並ぶリポジトリも対象に含めてまとめて取得する"@,
            Language::English => "Include the repositories next to this one and fetch them all at once"@,
        }
    }

    /// `--siblings`.
    pub fn fetch_siblings_help(self) -> (text: &'static str)
        ensures
            text@ == self.fetch_siblings_help_text(),
    {
        match self.language {
            Language::Japanese => "同じ階層に並ぶリポジトリも対象に含めてまとめて取得する",
            Language::English => "Include the repositories next to this one and fetch them all at once",
        }
    }

    pub open spec fn pull_about_text(self) -> Seq<char> {
        match self.language {
            Language::Japanese => "ブランチを選んで upstream へ追随させる（fast-forward のみ）"@,
            Language::English => "Pick branches and make them follow their upstream (fast-forward only)"@,
        }
    }

    /// `gz pull`.
    pub fn pull_about(self) -> (text: &'static str)
        ensures
            text@ == self.pull_about_text(),
    {
        match self.language {
            Language::Japanese => "ブランチを選んで upstream へ追随させる（fast-forward のみ）",
            Language::English => "Pick branches and make them follow their upstream (fast-forward only)",
        }
    }

    pub open spec fn sync_about_text(self) -> Seq<char> {
        match self.language {
            Language::Japanese => "現在のブランチを upstream と同期する"@,
            Language::English => "Synchronize the current branch with its upstream"@,
        }
    }

    /// `gz sync`.
    pub fn sync_about(self) -> (text: &'static str)
        ensures
            text@ == self.sync_about_text(),
    {
        match self.language {
            Language::Japanese => "現在のブランチを upstream と同期する",
            Language::English => "Synchronize the current branch with its upstream",
        }
    }

    pub open spec fn sync_rebase_help_text(self) -> Seq<char> {
        match self.language {
            Language::Japanese => "upstream の上へ rebase して取り込む（履歴を書き換える）"@,
            Language::English => "Integrate by rebasing onto the upstream (rewrites history)"@,
        }
    }

    /// `--rebase`.
    pub fn sync_rebase_help(self) -> (text: &'static str)
        ensures
            text@ == self.sync_rebase_help_text(),
    {
        match self.language {
            Language::Japanese => "upstream の上へ rebase して取り込む（履歴を書き換える）",
            Language::English => "Integrate by rebasing onto the upstream (rewrites history)",
        }
    }

    pub open spec fn sync_merge_help_text(self) -> Seq<char> {
        match self.language {
            Language::Japanese => "upstream をマージして取り込む"@,
            Language::English => "Integrate by merging the upstream"@,
        }
    }

    /// `--merge`.
    pub fn sync_merge_help(self) -> (text: &'static str)
        ensures
            text@ == self.sync_merge_help_text(),
    {
        match self.language {
            Language::Japanese => "upstream をマージして取り込む",
            Language::English => "Integrate by merging the upstream",
        }
    }

    pub open spec fn worktree_about_text(self) -> Seq<char> {
        match self.language {
            Language::Japanese => "worktree の一覧と管理（引数なしは一覧から選んだパスを出力する）"@,
            Language::English => "List and manage worktrees (without arguments, prints the path picked from the list)"@,
        }
    }

    /// `gz worktree`.
    pub fn worktree_about(self) -> (text: &'static str)
        ensures
            text@ == self.worktree_about_text(),
    {
        match self.language {
            Language::Japanese => "worktree の一覧と管理（引数なしは一覧から選んだパスを出力する）",
            Language::English => "List and manage worktrees (without arguments, prints the path picked from the list)",
        }
    }

    pub open spec fn worktree_add_about_text(self) -> Seq<char> {
        match self.language {
            Language::Japanese => "ブランチを選んで新しい worktree を作成する"@,
            Language::English => "Pick a branch and create a new worktree for it"@,
        }
    }

    /// `gz worktree add`.
    pub fn worktree_add_about(self) -> (text: &'static str)
        ensures
            text@ == self.worktree_add_about_text(),
    {
        match self.language {
            Language::Japanese => "ブランチを選んで新しい worktree を作成する",
            Language::English => "Pick a branch and create a new worktree for it",
        }
    }

    pub open spec fn worktree_add_path_help_text(self) -> Seq<char> {
        match self.language {
            Language::Japanese => "作成する worktree のパス（ディレクトリ名は提案しない）"@,
            Language::English => "Path of the worktree to create (no directory name is suggested)"@,
        }
    }

    /// Its path.
    pub fn worktree_add_path_help(self) -> (text: &'static str)
        ensures
            text@ == self.worktree_add_path_help_text(),
    {
        match self.language {
            Language::Japanese => "作成する worktree のパス（ディレクトリ名は提案しない）",
            Language::English => "Path of the worktree to create (no directory name is suggested)",
        }
    }

    pub open spec fn worktree_remove_about_text(self) -> Seq<char> {
        match self.language {
            Language::Japanese => "worktree を選んで削除する（メインの worktree は候補に出ない）"@,
            Language::English => "Pick a worktree and remove it (the main worktree is not offered)"@,
        }
    }

    /// `gz worktree remove`.
    pub fn worktree_remove_about(self) -> (text: &'static str)
        ensures
            text@ == self.worktree_remove_about_text(),
    {
        match self.language {
            Language::Japanese => "worktree を選んで削除する（メインの worktree は候補に出ない）",
            Language::English => "Pick a worktree and remove it (the main worktree is not offered)",
        }
    }

    pub open spec fn worktree_prune_about_text(self) -> Seq<char> {
        match self.language {
            Language::Japanese => "ディレクトリが無くなった worktree の管理情報を整理する"@,
            Language::English => "Tidy up the bookkeeping of worktrees whose directory is gone"@,
        }
    }

    /// `gz worktree prune`.
    pub fn worktree_prune_about(self) -> (text: &'static str)
        ensures
            text@ == self.worktree_prune_about_text(),
    {
        match self.language {
            Language::Japanese => "ディレクトリが無くなった worktree の管理情報を整理する",
            Language::English => "Tidy up the bookkeeping of worktrees whose directory is gone",
        }
    }
}

/// What is said in Japanese begins or ends in Japanese.
pub proof fn law_japanese_is_spoken(messages: CliMessages)
    requires
        messages.language is Japanese,
    ensures
        is_japanese(messages.lang_help_text()),
        is_japanese(messages.branch_about_text()),
        is_japanese(messages.branch_all_help_text()),
        is_japanese(messages.branch_create_about_text()),
        is_japanese(messages.branch_create_name_help_text()),
        is_japanese(messages.branch_create_switch_help_text()),
        is_japanese(messages.branch_delete_about_text()),
        is_japanese(messages.branch_delete_force_help_text()),
        is_japanese(messages.branch_delete_into_help_text()),
        is_japanese(messages.branch_cleanup_about_text()),
        is_japanese(messages.branch_cleanup_into_help_text()),
        is_japanese(messages.log_about_text()),
        is_japanese(messages.log_limit_help_text()),
        is_japanese(messages.log_action_help_text()),
        is_japanese(messages.cherry_pick_about_text()),
        is_japanese(messages.cherry_pick_branch_help_text()),
        is_japanese(messages.restore_about_text()),
        is_japanese(messages.restore_source_help_text()),
        is_japanese(messages.restore_staged_help_text()),
        is_japanese(messages.add_about_text()),
        is_japanese(messages.stash_about_text()),
        is_japanese(messages.stash_push_about_text()),
        is_japanese(messages.stash_push_message_help_text()),
        is_japanese(messages.stash_push_include_untracked_help_text()),
        is_japanese(messages.stash_apply_about_text()),
        is_japanese(messages.stash_pop_about_text()),
        is_japanese(messages.stash_drop_about_text()),
        is_japanese(messages.tag_about_text()),
        is_japanese(messages.tag_switch_help_text()),
        is_japanese(messages.tag_diff_help_text()),
        is_japanese(messages.reflog_about_text()),
        is_japanese(messages.reflog_restore_help_text()),
        is_japanese(messages.reflog_action_help_text()),
        is_japanese(messages.commit_about_text()),
        is_japanese(messages.commit_message_help_text()),
        is_japanese(messages.fixup_about_text()),
        is_japanese(messages.fixup_squash_help_text()),
        is_japanese(messages.merge_about_text()),
        is_japanese(messages.merge_no_ff_help_text()),
        is_japanese(messages.merge_squash_help_text()),
        is_japanese(messages.merge_ff_only_help_text()),
        is_japanese(messages.rebase_about_text()),
        is_japanese(messages.revert_about_text()),
        is_japanese(messages.revert_no_edit_help_text()),
        is_japanese(messages.status_about_text()),
        is_japanese(messages.diff_about_text()),
        is_japanese(messages.diff_staged_help_text()),
        is_japanese(messages.diff_head_help_text()),
        is_japanese(messages.diff_upstream_help_text()),
        is_japanese(messages.diff_branch_help_text()),
        is_japanese(messages.diff_commit_help_text()),
        is_japanese(messages.fetch_about_text()),
        is_japanese(messages.fetch_prune_help_text()),
        is_japanese(messages.fetch_siblings_help_text()),
        is_japanese(messages.pull_about_text()),
        is_japanese(messages.sync_about_text()),
        is_japanese(messages.sync_rebase_help_text()),
        is_japanese(messages.sync_merge_help_text()),
        is_japanese(messages.worktree_about_text()),
        is_japanese(messages.worktree_add_about_text()),
        is_japanese(messages.worktree_add_path_help_text()),
        is_japanese(messages.worktree_remove_about_text()),
        is_japanese(messages.worktree_prune_about_text()),
{
    reveal_strlit("表示言語（省略時は FUZGIT_LANG / git config fuzgit.lang / ロケールに従う）");
    reveal_strlit("ブランチを選んで切り替える（サブコマンドで作成・削除・整理）");
    reveal_strlit("リモート追跡ブランチも候補に含める");
    reveal_strlit("起点を選んで新しいブランチを作成する");
    reveal_strlit("作成するブランチの名前");
    reveal_strlit("作成したブランチへ切り替える");
    reveal_strlit("ブランチを選んで削除する");
    reveal_strlit("マージされていないブランチも削除する（`git branch -D`）");
    reveal_strlit("マージ済みかどうかを判定する基準のブランチ（既定は HEAD）");
    reveal_strlit("マージ済みのブランチをまとめて削除する");
    reveal_strlit("コミット履歴を辿り、選んだコミットの完全ハッシュを出力する");
    reveal_strlit("読み込むコミットの最大件数");
    reveal_strlit("選んだコミットに対する操作をメニューから選ぶ");
    reveal_strlit("コミットを選んで cherry-pick する");
    reveal_strlit("対象のブランチ（省略時はすべてのブランチのコミットが候補）");
    reveal_strlit("ファイルを選んで git restore で復元する");
    reveal_strlit("復元元のリビジョン");
    reveal_strlit("ステージした変更を取り消す");
    reveal_strlit("未ステージ・未追跡のファイルを選んで git add でステージする");
    reveal_strlit("変更を退避し、stash を探して適用・削除する");
    reveal_strlit("変更ファイルを選んで退避する");
    reveal_strlit("stash に付けるメッセージ");
    reveal_strlit("未追跡ファイルも候補に含める（既定は追跡中の変更のみ）");
    reveal_strlit("stash を選んで適用する（stash は残る）");
    reveal_strlit("stash を選んで適用し、その stash を削除する");
    reveal_strlit("stash を選んで削除する");
    reveal_strlit("タグを選ぶ（既定ではタグ名を出力する）");
    reveal_strlit("選んだタグへ detached HEAD として切り替える");
    reveal_strlit("選んだタグと HEAD の差分を表示する");
    reveal_strlit("HEAD の reflog を辿り、選んだコミットのハッシュを出力する");
    reveal_strlit("選んだコミットから指定した名前の新しいブランチを作成する");
    reveal_strlit("コミットするファイルを選んでコミットする");
    reveal_strlit("コミットメッセージ（省略時は git がエディタを起動する）");
    reveal_strlit("修正対象のコミットを選んで fixup コミットを作成する");
    reveal_strlit("fixup の代わりに squash コミット（メッセージを統合する）を作成する");
    reveal_strlit("ブランチを選んでマージする");
    reveal_strlit("fast-forward できる場合もマージコミットを作成する");
    reveal_strlit("マージ結果を作業ツリーと index に反映し、コミットはしない");
    reveal_strlit("fast-forward できる場合のみマージする");
    reveal_strlit("ブランチを選んでその上へ rebase する");
    reveal_strlit("コミットを選んで打ち消す（revert コミットを作成する）");
    reveal_strlit("エディタを起動せず git の既定のメッセージでコミットする");
    reveal_strlit("変更ファイルの状態を一覧し、選んだファイルを操作する");
    reveal_strlit("比較対象を選んで差分を表示する");
    reveal_strlit("ステージした変更を対象にする（`git diff --staged` と同じ）");
    reveal_strlit("HEAD と作業ツリーを比較する（ステージした変更を含む）");
    reveal_strlit("HEAD と upstream を比較する");
    reveal_strlit("2 つのブランチを選んで比較する");
    reveal_strlit("2 つのコミットを選んで比較する");
    reveal_strlit("取得対象を決めて取得する");
    reveal_strlit("リモートで削除されたブランチの追跡参照も掃除する");
    reveal_strlit("同じ階層に並ぶリポジトリも対象に含めてまとめて取得する");
    reveal_strlit("ブランチを選んで upstream へ追随させる（fast-forward のみ）");
    reveal_strlit("現在のブランチを upstream と同期する");
    reveal_strlit("upstream の上へ rebase して取り込む（履歴を書き換える）");
    reveal_strlit("upstream をマージして取り込む");
    reveal_strlit("worktree の一覧と管理（引数なしは一覧から選んだパスを出力する）");
    reveal_strlit("ブランチを選んで新しい worktree を作成する");
    reveal_strlit("作成する worktree のパス（ディレクトリ名は提案しない）");
    reveal_strlit("worktree を選んで削除する（メインの worktree は候補に出ない）");
    reveal_strlit("ディレクトリが無くなった worktree の管理情報を整理する");
}

/// What is said in English begins and ends in plain letters.
pub proof fn law_english_is_spoken(messages: CliMessages)
    requires
        messages.language is English,
    ensures
        is_english(messages.about_text()),
        is_english(messages.lang_help_text()),
        is_english(messages.branch_about_text()),
        is_english(messages.branch_all_help_text()),
        is_english(messages.branch_create_about_text()),
        is_english(messages.branch_create_name_help_text()),
        is_english(messages.branch_create_switch_help_text()),
        is_english(messages.branch_delete_about_text()),
        is_english(messages.branch_delete_force_help_text()),
        is_english(messages.branch_delete_into_help_text()),
        is_english(messages.branch_cleanup_about_text()),
        is_english(messages.branch_cleanup_into_help_text()),
        is_english(messages.log_about_text()),
        is_english(messages.log_limit_help_text()),
        is_english(messages.log_action_help_text()),
        is_english(messages.cherry_pick_about_text()),
        is_english(messages.cherry_pick_branch_help_text()),
        is_english(messages.restore_about_text()),
        is_english(messages.restore_source_help_text()),
        is_english(messages.restore_staged_help_text()),
        is_english(messages.add_about_text()),
        is_english(messages.stash_about_text()),
        is_english(messages.stash_push_about_text()),
        is_english(messages.stash_push_message_help_text()),
        is_english(messages.stash_push_include_untracked_help_text()),
        is_english(messages.stash_apply_about_text()),
        is_english(messages.stash_pop_about_text()),
        is_english(messages.stash_drop_about_text()),
        is_english(messages.tag_about_text()),
        is_english(messages.tag_switch_help_text()),
        is_english(messages.tag_diff_help_text()),
        is_english(messages.reflog_about_text()),
        is_english(messages.reflog_restore_help_text()),
        is_english(messages.reflog_action_help_text()),
        is_english(messages.commit_about_text()),
        is_english(messages.commit_message_help_text()),
        is_english(messages.fixup_about_text()),
        is_english(messages.fixup_squash_help_text()),
        is_english(messages.merge_about_text()),
        is_english(messages.merge_no_ff_help_text()),
        is_english(messages.merge_squash_help_text()),
        is_english(messages.merge_ff_only_help_text()),
        is_english(messages.rebase_about_text()),
        is_english(messages.revert_about_text()),
        is_english(messages.revert_no_edit_help_text()),
        is_english(messages.status_about_text()),
        is_english(messages.diff_about_text()),
        is_english(messages.diff_staged_help_text()),
        is_english(messages.diff_head_help_text()),
        is_english(messages.diff_upstream_help_text()),
        is_english(messages.diff_branch_help_text()),
        is_english(messages.diff_commit_help_text()),
        is_english(messages.fetch_about_text()),
        is_english(messages.fetch_prune_help_text()),
        is_english(messages.fetch_siblings_help_text()),
        is_english(messages.pull_about_text()),
        is_english(messages.sync_about_text()),
        is_english(messages.sync_rebase_help_text()),
        is_english(messages.sync_merge_help_text()),
        is_english(messages.worktree_about_text()),
        is_english(messages.worktree_add_about_text()),
        is_english(messages.worktree_add_path_help_text()),
        is_english(messages.worktree_remove_about_text()),
        is_english(messages.worktree_prune_about_text()),
{
    reveal_strlit("A git CLI that lets you pick, search, and trace with a fuzzy finder");
    reveal_strlit("Display language (falls back to FUZGIT_LANG / git config fuzgit.lang / the locale)");
    reveal_strlit("Pick a branch and switch to it (subcommands also create, delete and tidy up)");
    reveal_strlit("Include remote-tracking branches in the candidates");
    reveal_strlit("Pick a starting point and create a new branch");
    reveal_strlit("Name of the branch to create");
    reveal_strlit("Switch to the branch after creating it");
    reveal_strlit("Pick a branch and delete it");
    reveal_strlit("Delete a branch even when it is not merged (`git branch -D`)");
    reveal_strlit("Branch that `merged` is judged against (defaults to HEAD)");
    reveal_strlit("Delete every merged branch at once");
    reveal_strlit("Trace the commit history and print the full hash of the picked commit");
    reveal_strlit("Maximum number of commits to read");
    reveal_strlit("Pick what to do with the commit from a menu");
    reveal_strlit("Pick a commit and cherry-pick it");
    reveal_strlit("Target branch (without it, the commits of every branch are offered)");
    reveal_strlit("Pick files and restore them with git restore");
    reveal_strlit("Revision to restore from");
    reveal_strlit("Unstage the staged changes");
    reveal_strlit("Pick unstaged and untracked files and stage them with git add");
    reveal_strlit("Stash changes away, then search the stashes to apply or drop them");
    reveal_strlit("Pick changed files and stash them away");
    reveal_strlit("Message to attach to the stash");
    reveal_strlit("Include untracked files in the candidates (tracked changes only by default)");
    reveal_strlit("Pick a stash and apply it (the stash is kept)");
    reveal_strlit("Pick a stash, apply it and drop that stash");
    reveal_strlit("Pick a stash and drop it");
    reveal_strlit("Pick a tag (prints the tag name by default)");
    reveal_strlit("Switch to the picked tag as a detached HEAD");
    reveal_strlit("Show the diff between the picked tag and HEAD");
    reveal_strlit("Trace the reflog of HEAD and print the hash of the picked commit");
    reveal_strlit("Create a new branch with the given name from the picked commit");
    reveal_strlit("Pick the files to commit and commit them");
    reveal_strlit("Commit message (without it, git starts an editor)");
    reveal_strlit("Pick the commit to amend and create a fixup commit");
    reveal_strlit("Create a squash commit (which joins the messages) instead of a fixup one");
    reveal_strlit("Pick a branch and merge it");
    reveal_strlit("Create a merge commit even when a fast-forward is possible");
    reveal_strlit("Apply the merge result to the working tree and the index without committing");
    reveal_strlit("Merge only when a fast-forward is possible");
    reveal_strlit("Pick a branch and rebase onto it");
    reveal_strlit("Pick a commit and undo it (creates a revert commit)");
    reveal_strlit("Commit with the default message of git without starting an editor");
    reveal_strlit("List the state of the changed files and act on the picked ones");
    reveal_strlit("Pick what to compare and show the diff");
    reveal_strlit("Target the staged changes (same as `git diff --staged`)");
    reveal_strlit("Compare HEAD with the working tree (including the staged changes)");
    reveal_strlit("Compare HEAD with the upstream");
    reveal_strlit("Pick two branches and compare them");
    reveal_strlit("Pick two commits and compare them");
    reveal_strlit("Decide what to fetch and fetch it");
    reveal_strlit("Also clean up the tracking refs of branches deleted on the remote");
    reveal_strlit("Include the repositories next to this one and fetch them all at once");
    reveal_strlit("Pick branches and make them follow their upstream (fast-forward only)");
    reveal_strlit("Synchronize the current branch with its upstream");
    reveal_strlit("Integrate by rebasing onto the upstream (rewrites history)");
    reveal_strlit("Integrate by merging the upstream");
    reveal_strlit("List and manage worktrees (without arguments, prints the path picked from the list)");
    reveal_strlit("Pick a branch and create a new worktree for it");
    reveal_strlit("Path of the worktree to create (no directory name is suggested)");
    reveal_strlit("Pick a worktree and remove it (the main worktree is not offered)");
    reveal_strlit("Tidy up the bookkeeping of worktrees whose directory is gone");
}

} // verus!
