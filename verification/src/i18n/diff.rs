//! Messages of `gz diff`.

use vstd::prelude::*;

use crate::i18n::{holds, is_english, is_japanese, lemma_holds, Language};
use crate::text::{concat3, concat5};

verus! {

/// Messages of `gz diff`.
#[derive(Debug, Clone, Copy, PartialEq, Eq)]
pub struct DiffMessages {
    pub language: Language,
}

impl DiffMessages {
    pub open spec fn conflicting_modes_text(self) -> Seq<char> {
        match self.language {
            Language::Japanese => "`--staged` / `--head` / `--upstream` / `--branch` / `--commit` は同時に指定できません"@,
            Language::English => "`--staged`, `--head`, `--upstream`, `--branch` and `--commit` cannot be used together"@,
        }
    }

    /// Two comparisons at once.
    pub fn conflicting_modes(self) -> (text: &'static str)
        ensures
            text@ == self.conflicting_modes_text(),
    {
        match self.language {
            Language::Japanese => "`--staged` / `--head` / `--upstream` / `--branch` / `--commit` は同時に指定できません",
            Language::English => "`--staged`, `--head`, `--upstream`, `--branch` and `--commit` cannot be used together",
        }
    }

    pub open spec fn unstaged_range_text(self) -> Seq<char> {
        match self.language {
            Language::Japanese => "未ステージの変更: index と作業ツリー"@,
            Language::English => "unstaged changes: index and work tree"@,
        }
    }

    /// What is not staged.
    pub fn unstaged_range(self) -> (text: &'static str)
        ensures
            text@ == self.unstaged_range_text(),
    {
        match self.language {
            Language::Japanese => "未ステージの変更: index と作業ツリー",
            Language::English => "unstaged changes: index and work tree",
        }
    }

    pub open spec fn staged_range_text(self) -> Seq<char> {
        match self.language {
            Language::Japanese => "ステージ済みの変更: HEAD と index"@,
            Language::English => "staged changes: HEAD and index"@,
        }
    }

    /// What is staged.
    pub fn staged_range(self) -> (text: &'static str)
        ensures
            text@ == self.staged_range_text(),
    {
        match self.language {
            Language::Japanese => "ステージ済みの変更: HEAD と index",
            Language::English => "staged changes: HEAD and index",
        }
    }

    pub open spec fn head_range_text(self) -> Seq<char> {
        match self.language {
            Language::Japanese => "HEAD からの変更: HEAD と作業ツリー"@,
            Language::English => "changes since HEAD: HEAD and work tree"@,
        }
    }

    /// What is not committed.
    pub fn head_range(self) -> (text: &'static str)
        ensures
            text@ == self.head_range_text(),
    {
        match self.language {
            Language::Japanese => "HEAD からの変更: HEAD と作業ツリー",
            Language::English => "changes since HEAD: HEAD and work tree",
        }
    }

    pub open spec fn base_branch_header_text(self) -> Seq<char> {
        match self.language {
            Language::Japanese => "1/2 比較元のブランチを選択"@,
            Language::English => "1/2 Pick the branch to compare from"@,
        }
    }

    /// The first branch.
    pub fn base_branch_header(self) -> (text: &'static str)
        ensures
            text@ == self.base_branch_header_text(),
    {
        match self.language {
            Language::Japanese => "1/2 比較元のブランチを選択",
            Language::English => "1/2 Pick the branch to compare from",
        }
    }

    pub open spec fn target_branch_header_text(self) -> Seq<char> {
        match self.language {
            Language::Japanese => "2/2 比較先のブランチを選択"@,
            Language::English => "2/2 Pick the branch to compare with"@,
        }
    }

    /// The second branch.
    pub fn target_branch_header(self) -> (text: &'static str)
        ensures
            text@ == self.target_branch_header_text(),
    {
        match self.language {
            Language::Japanese => "2/2 比較先のブランチを選択",
            Language::English => "2/2 Pick the branch to compare with",
        }
    }

    pub open spec fn base_commit_header_text(self) -> Seq<char> {
        match self.language {
            Language::Japanese => "1/2 比較元のコミットを選択"@,
            Language::English => "1/2 Pick the commit to compare from"@,
        }
    }

    /// The first commit.
    pub fn base_commit_header(self) -> (text: &'static str)
        ensures
            text@ == self.base_commit_header_text(),
    {
        match self.language {
            Language::Japanese => "1/2 比較元のコミットを選択",
            Language::English => "1/2 Pick the commit to compare from",
        }
    }

    pub open spec fn target_commit_header_text(self) -> Seq<char> {
        match self.language {
            Language::Japanese => "2/2 比較先のコミットを選択"@,
            Language::English => "2/2 Pick the commit to compare with"@,
        }
    }

    /// The second commit.
    pub fn target_commit_header(self) -> (text: &'static str)
        ensures
            text@ == self.target_commit_header_text(),
    {
        match self.language {
            Language::Japanese => "2/2 比較先のコミットを選択",
            Language::English => "2/2 Pick the commit to compare with",
        }
    }

    pub open spec fn tracking_ref_unavailable_text(self, branch: Seq<char>, remote: Seq<char>, merge_ref: Seq<char>) -> Seq<char> {
        match self.language {
            Language::Japanese => "ブランチ `"@ + branch + "` の upstream（"@ + remote + " の "@ + merge_ref + "）に対応する追跡参照がありません"@,
            Language::English => "the upstream of `"@ + branch + "` ("@ + merge_ref + " of "@ + remote + ") has no tracking ref"@,
        }
    }

    /// The upstream has no reference.
    pub fn tracking_ref_unavailable(self, branch: &str, remote: &str, merge_ref: &str) -> (text: String)
        ensures
            text@ == self.tracking_ref_unavailable_text(branch@, remote@, merge_ref@),
    {
        match self.language {
            Language::Japanese => {
                let mut text = concat5("ブランチ `", branch, "` の upstream（", remote, " の ");
                text.append(merge_ref);
                text.append("）に対応する追跡参照がありません");
                text
            },
            Language::English => {
                let mut text = concat5("the upstream of `", branch, "` (", merge_ref, " of ");
                text.append(remote);
                text.append(") has no tracking ref");
                text
            },
        }
    }

    pub open spec fn files_read_failed_text(self, range: Seq<char>) -> Seq<char> {
        match self.language {
            Language::Japanese => "変更ファイルの一覧を取得できませんでした（"@ + range + "）"@,
            Language::English => "could not read the changed files ("@ + range + ")"@,
        }
    }

    /// The files could not be read.
    pub fn files_read_failed(self, range: &str) -> (text: String)
        ensures
            text@ == self.files_read_failed_text(range@),
    {
        match self.language {
            Language::Japanese => concat3("変更ファイルの一覧を取得できませんでした（", range, "）"),
            Language::English => concat3("could not read the changed files (", range, ")"),
        }
    }

    pub open spec fn branch_selection_not_found_text(self, name: Seq<char>) -> Seq<char> {
        match self.language {
            Language::Japanese => "選択されたブランチ `"@ + name + "` が候補一覧に見つかりません"@,
            Language::English => "the selected branch `"@ + name + "` is not among the candidates"@,
        }
    }

    /// A picked branch that was not offered.
    pub fn branch_selection_not_found(self, name: &str) -> (text: String)
        ensures
            text@ == self.branch_selection_not_found_text(name@),
    {
        match self.language {
            Language::Japanese => concat3("選択されたブランチ `", name, "` が候補一覧に見つかりません"),
            Language::English => concat3("the selected branch `", name, "` is not among the candidates"),
        }
    }

    pub open spec fn commit_selection_not_found_text(self, id: Seq<char>) -> Seq<char> {
        match self.language {
            Language::Japanese => "選択されたコミット `"@ + id + "` が候補一覧に見つかりません"@,
            Language::English => "the selected commit `"@ + id + "` is not among the candidates"@,
        }
    }

    /// A picked commit that was not offered.
    pub fn commit_selection_not_found(self, id: &str) -> (text: String)
        ensures
            text@ == self.commit_selection_not_found_text(id@),
    {
        match self.language {
            Language::Japanese => concat3("選択されたコミット `", id, "` が候補一覧に見つかりません"),
            Language::English => concat3("the selected commit `", id, "` is not among the candidates"),
        }
    }

    pub open spec fn no_diff_text(self, range: Seq<char>) -> Seq<char> {
        match self.language {
            Language::Japanese => "差分はありません（"@ + range + "）"@,
            Language::English => "no differences ("@ + range + ")"@,
        }
    }

    /// Nothing differs.
    pub fn no_diff(self, range: &str) -> (text: String)
        ensures
            text@ == self.no_diff_text(range@),
    {
        match self.language {
            Language::Japanese => concat3("差分はありません（", range, "）"),
            Language::English => concat3("no differences (", range, ")"),
        }
    }

    pub open spec fn diff_failed_text(self, range: Seq<char>) -> Seq<char> {
        match self.language {
            Language::Japanese => "差分の表示に失敗しました（"@ + range + "）"@,
            Language::English => "could not show the differences ("@ + range + ")"@,
        }
    }

    /// Showing the difference failed.
    pub fn diff_failed(self, range: &str) -> (text: String)
        ensures
            text@ == self.diff_failed_text(range@),
    {
        match self.language {
            Language::Japanese => concat3("差分の表示に失敗しました（", range, "）"),
            Language::English => concat3("could not show the differences (", range, ")"),
        }
    }
}

/// What is said in Japanese begins or ends in Japanese.
pub proof fn law_japanese_is_spoken(
    messages: DiffMessages,
    branch: Seq<char>,
    remote: Seq<char>,
    merge_ref: Seq<char>,
    range: Seq<char>,
    name: Seq<char>,
    id: Seq<char>,
)
    requires
        messages.language is Japanese,
    ensures
        is_japanese(messages.conflicting_modes_text()),
        is_japanese(messages.unstaged_range_text()),
        is_japanese(messages.staged_range_text()),
        is_japanese(messages.head_range_text()),
        is_japanese(messages.base_branch_header_text()),
        is_japanese(messages.target_branch_header_text()),
        is_japanese(messages.base_commit_header_text()),
        is_japanese(messages.target_commit_header_text()),
        is_japanese(messages.tracking_ref_unavailable_text(branch, remote, merge_ref)),
        is_japanese(messages.files_read_failed_text(range)),
        is_japanese(messages.branch_selection_not_found_text(name)),
        is_japanese(messages.commit_selection_not_found_text(id)),
        is_japanese(messages.no_diff_text(range)),
        is_japanese(messages.diff_failed_text(range)),
{
    reveal_strlit("`--staged` / `--head` / `--upstream` / `--branch` / `--commit` は同時に指定できません");
    reveal_strlit("未ステージの変更: index と作業ツリー");
    reveal_strlit("ステージ済みの変更: HEAD と index");
    reveal_strlit("HEAD からの変更: HEAD と作業ツリー");
    reveal_strlit("1/2 比較元のブランチを選択");
    reveal_strlit("2/2 比較先のブランチを選択");
    reveal_strlit("1/2 比較元のコミットを選択");
    reveal_strlit("2/2 比較先のコミットを選択");
    reveal_strlit("ブランチ `");
    reveal_strlit("変更ファイルの一覧を取得できませんでした（");
    reveal_strlit("選択されたブランチ `");
    reveal_strlit("選択されたコミット `");
    reveal_strlit("差分はありません（");
    reveal_strlit("差分の表示に失敗しました（");
}

/// What is said in English begins and ends in plain letters.
pub proof fn law_english_is_spoken(
    messages: DiffMessages,
    branch: Seq<char>,
    remote: Seq<char>,
    merge_ref: Seq<char>,
    range: Seq<char>,
    name: Seq<char>,
    id: Seq<char>,
)
    requires
        messages.language is English,
    ensures
        is_english(messages.conflicting_modes_text()),
        is_english(messages.unstaged_range_text()),
        is_english(messages.staged_range_text()),
        is_english(messages.head_range_text()),
        is_english(messages.base_branch_header_text()),
        is_english(messages.target_branch_header_text()),
        is_english(messages.base_commit_header_text()),
        is_english(messages.target_commit_header_text()),
        is_english(messages.tracking_ref_unavailable_text(branch, remote, merge_ref)),
        is_english(messages.files_read_failed_text(range)),
        is_english(messages.branch_selection_not_found_text(name)),
        is_english(messages.commit_selection_not_found_text(id)),
        is_english(messages.no_diff_text(range)),
        is_english(messages.diff_failed_text(range)),
{
    reveal_strlit("`--staged`, `--head`, `--upstream`, `--branch` and `--commit` cannot be used together");
    reveal_strlit("unstaged changes: index and work tree");
    reveal_strlit("staged changes: HEAD and index");
    reveal_strlit("changes since HEAD: HEAD and work tree");
    reveal_strlit("1/2 Pick the branch to compare from");
    reveal_strlit("2/2 Pick the branch to compare with");
    reveal_strlit("1/2 Pick the commit to compare from");
    reveal_strlit("2/2 Pick the commit to compare with");
    reveal_strlit("the upstream of `");
    reveal_strlit(") has no tracking ref");
    reveal_strlit("could not read the changed files (");
    reveal_strlit(")");
    reveal_strlit("the selected branch `");
    reveal_strlit("` is not among the candidates");
    reveal_strlit("the selected commit `");
    reveal_strlit("no differences (");
    reveal_strlit("could not show the differences (");
}

/// What a message is given stands in it, in either language.
pub proof fn law_what_is_named_is_there(
    messages: DiffMessages,
    branch: Seq<char>,
    remote: Seq<char>,
    merge_ref: Seq<char>,
    range: Seq<char>,
    name: Seq<char>,
    id: Seq<char>,
)
    ensures
        holds(messages.tracking_ref_unavailable_text(branch, remote, merge_ref), branch),
        holds(messages.tracking_ref_unavailable_text(branch, remote, merge_ref), remote),
        holds(messages.tracking_ref_unavailable_text(branch, remote, merge_ref), merge_ref),
        holds(messages.files_read_failed_text(range), range),
        holds(messages.branch_selection_not_found_text(name), name),
        holds(messages.commit_selection_not_found_text(id), id),
        holds(messages.no_diff_text(range), range),
        holds(messages.diff_failed_text(range), range),
{
    match messages.language {
        Language::Japanese => {
            lemma_holds(messages.tracking_ref_unavailable_text(branch, remote, merge_ref), branch, "ブランチ `"@.len() as int);
            lemma_holds(messages.tracking_ref_unavailable_text(branch, remote, merge_ref), remote, ("ブランチ `"@ + branch + "` の upstream（"@).len() as int);
            lemma_holds(messages.tracking_ref_unavailable_text(branch, remote, merge_ref), merge_ref, ("ブランチ `"@ + branch + "` の upstream（"@ + remote + " の "@).len() as int);
            lemma_holds(messages.files_read_failed_text(range), range, "変更ファイルの一覧を取得できませんでした（"@.len() as int);
            lemma_holds(messages.branch_selection_not_found_text(name), name, "選択されたブランチ `"@.len() as int);
            lemma_holds(messages.commit_selection_not_found_text(id), id, "選択されたコミット `"@.len() as int);
            lemma_holds(messages.no_diff_text(range), range, "差分はありません（"@.len() as int);
            lemma_holds(messages.diff_failed_text(range), range, "差分の表示に失敗しました（"@.len() as int);
        },
        Language::English => {
            lemma_holds(messages.tracking_ref_unavailable_text(branch, remote, merge_ref), branch, "the upstream of `"@.len() as int);
            lemma_holds(messages.tracking_ref_unavailable_text(branch, remote, merge_ref), remote, ("the upstream of `"@ + branch + "` ("@ + merge_ref + " of "@).len() as int);
            lemma_holds(messages.tracking_ref_unavailable_text(branch, remote, merge_ref), merge_ref, ("the upstream of `"@ + branch + "` ("@).len() as int);
            lemma_holds(messages.files_read_failed_text(range), range, "could not read the changed files ("@.len() as int);
            lemma_holds(messages.branch_selection_not_found_text(name), name, "the selected branch `"@.len() as int);
            lemma_holds(messages.commit_selection_not_found_text(id), id, "the selected commit `"@.len() as int);
            lemma_holds(messages.no_diff_text(range), range, "no differences ("@.len() as int);
            lemma_holds(messages.diff_failed_text(range), range, "could not show the differences ("@.len() as int);
        },
    }
}

} // verus!
