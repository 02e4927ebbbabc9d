//! Messages of `gz commit`.

use vstd::prelude::*;

use crate::i18n::{is_english, is_japanese, Language};

verus! {

/// Messages of `gz commit`.
#[derive(Debug, Clone, Copy, PartialEq, Eq)]
pub struct CommitMessages {
    pub language: Language,
}

impl CommitMessages {
    pub open spec fn header_text(self) -> Seq<char> {
        match self.language {
            Language::Japanese => "Tab: 選択の切替  |  Enter: 選択したファイルをコミット"@,
            Language::English => "Tab: toggle  |  Enter: commit the selected files"@,
        }
    }

    /// What the keys do.
    pub fn header(self) -> (text: &'static str)
        ensures
            text@ == self.header_text(),
    {
        match self.language {
            Language::Japanese => "Tab: 選択の切替  |  Enter: 選択したファイルをコミット",
            Language::English => "Tab: toggle  |  Enter: commit the selected files",
        }
    }

    pub open spec fn untracked_stage_failed_text(self) -> Seq<char> {
        match self.language {
            Language::Japanese => "未追跡ファイルのステージ（git add）に失敗しました"@,
            Language::English => "could not stage the untracked files (git add)"@,
        }
    }

    /// Staging new files failed.
    pub fn untracked_stage_failed(self) -> (text: &'static str)
        ensures
            text@ == self.untracked_stage_failed_text(),
    {
        match self.language {
            Language::Japanese => "未追跡ファイルのステージ（git add）に失敗しました",
            Language::English => "could not stage the untracked files (git add)",
        }
    }

    pub open spec fn editor_hint_text(self) -> Seq<char> {
        match self.language {
            Language::Japanese => "ヒント: コミットメッセージが保存されなかった場合、コミットは作成されません。\n  メッセージを直接指定する: gz commit -m \"<message>\"\n  すぐに戻るエディタを使う場合は待機させる: EDITOR / GIT_EDITOR に code --wait などを設定する"@,
            Language::English => "hint: no commit is created if the commit message is not saved.\n  give the message directly: gz commit -m \"<message>\"\n  make an editor that returns at once wait: set EDITOR / GIT_EDITOR to code --wait or the like"@,
        }
    }

    /// What to do about the editor.
    pub fn editor_hint(self) -> (text: &'static str)
        ensures
            text@ == self.editor_hint_text(),
    {
        match self.language {
            Language::Japanese => "ヒント: コミットメッセージが保存されなかった場合、コミットは作成されません。\n  メッセージを直接指定する: gz commit -m \"<message>\"\n  すぐに戻るエディタを使う場合は待機させる: EDITOR / GIT_EDITOR に code --wait などを設定する",
            Language::English => "hint: no commit is created if the commit message is not saved.\n  give the message directly: gz commit -m \"<message>\"\n  make an editor that returns at once wait: set EDITOR / GIT_EDITOR to code --wait or the like",
        }
    }
}

/// What is said in Japanese begins or ends in Japanese.
pub proof fn law_japanese_is_spoken(messages: CommitMessages)
    requires
        messages.language is Japanese,
    ensures
        is_japanese(messages.header_text()),
        is_japanese(messages.untracked_stage_failed_text()),
        is_japanese(messages.editor_hint_text()),
{
    reveal_strlit("Tab: 選択の切替  |  Enter: 選択したファイルをコミット");
    reveal_strlit("未追跡ファイルのステージ（git add）に失敗しました");
    reveal_strlit("ヒント: コミットメッセージが保存されなかった場合、コミットは作成されません。\n  メッセージを直接指定する: gz commit -m \"<message>\"\n  すぐに戻るエディタを使う場合は待機させる: EDITOR / GIT_EDITOR に code --wait などを設定する");
}

/// What is said in English begins and ends in plain letters.
pub proof fn law_english_is_spoken(messages: CommitMessages)
    requires
        messages.language is English,
    ensures
        is_english(messages.header_text()),
        is_english(messages.untracked_stage_failed_text()),
        is_english(messages.editor_hint_text()),
{
    reveal_strlit("Tab: toggle  |  Enter: commit the selected files");
    reveal_strlit("could not stage the untracked files (git add)");
    reveal_strlit("hint: no commit is created if the commit message is not saved.\n  give the message directly: gz commit -m \"<message>\"\n  make an editor that returns at once wait: set EDITOR / GIT_EDITOR to code --wait or the like");
}

} // verus!
