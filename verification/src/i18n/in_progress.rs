//! Messages about a merge or rebase in progress.

use vstd::prelude::*;

use crate::i18n::{holds, is_english, is_japanese, lemma_holds, Language};
use crate::text::{concat2, concat3};

verus! {

/// Messages about a merge or rebase in progress.
#[derive(Debug, Clone, Copy, PartialEq, Eq)]
pub struct InProgressMessages {
    pub language: Language,
}

impl InProgressMessages {
    pub open spec fn conflicts_action_text(self) -> Seq<char> {
        match self.language {
            Language::Japanese => "コンフリクト中のファイルを確認し、解決済みとして記録する"@,
            Language::English => "Look at the conflicted files and mark them as resolved"@,
        }
    }

    /// Look at the conflicts.
    pub fn conflicts_action(self) -> (text: &'static str)
        ensures
            text@ == self.conflicts_action_text(),
    {
        match self.language {
            Language::Japanese => "コンフリクト中のファイルを確認し、解決済みとして記録する",
            Language::English => "Look at the conflicted files and mark them as resolved",
        }
    }

    pub open spec fn continue_action_text(self, operation: Seq<char>) -> Seq<char> {
        match self.language {
            Language::Japanese => operation + " を再開する"@,
            Language::English => "Continue the "@ + operation,
        }
    }

    /// Go on.
    pub fn continue_action(self, operation: &str) -> (text: String)
        ensures
            text@ == self.continue_action_text(operation@),
    {
        match self.language {
            Language::Japanese => concat2(operation, " を再開する"),
            Language::English => concat2("Continue the ", operation),
        }
    }

    pub open spec fn skip_action_text(self) -> Seq<char> {
        match self.language {
            Language::Japanese => "現在のコミットを飛ばす"@,
            Language::English => "Skip the current commit"@,
        }
    }

    /// Leave a commit out.
    pub fn skip_action(self) -> (text: &'static str)
        ensures
            text@ == self.skip_action_text(),
    {
        match self.language {
            Language::Japanese => "現在のコミットを飛ばす",
            Language::English => "Skip the current commit",
        }
    }

    pub open spec fn abort_action_text(self, operation: Seq<char>) -> Seq<char> {
        match self.language {
            Language::Japanese => operation + " を中止する"@,
            Language::English => "Abort the "@ + operation,
        }
    }

    /// Give up.
    pub fn abort_action(self, operation: &str) -> (text: String)
        ensures
            text@ == self.abort_action_text(operation@),
    {
        match self.language {
            Language::Japanese => concat2(operation, " を中止する"),
            Language::English => concat2("Abort the ", operation),
        }
    }

    pub open spec fn menu_selection_not_found_text(self, entry: Seq<char>) -> Seq<char> {
        match self.language {
            Language::Japanese => "選択された項目 `"@ + entry + "` がメニューに見つかりません"@,
            Language::English => "the selected entry `"@ + entry + "` is not in the menu"@,
        }
    }

    /// A picked entry that was not offered.
    pub fn menu_selection_not_found(self, entry: &str) -> (text: String)
        ensures
            text@ == self.menu_selection_not_found_text(entry@),
    {
        match self.language {
            Language::Japanese => concat3("選択された項目 `", entry, "` がメニューに見つかりません"),
            Language::English => concat3("the selected entry `", entry, "` is not in the menu"),
        }
    }

    pub open spec fn abort_confirmation_text(self, operation: Seq<char>) -> Seq<char> {
        match self.language {
            Language::Japanese => operation + " を中止します。ここまでの解決作業は失われます。"@,
            Language::English => "The "@ + operation + " is given up. What was resolved so far is lost."@,
        }
    }

    /// What giving up loses.
    pub fn abort_confirmation(self, operation: &str) -> (text: String)
        ensures
            text@ == self.abort_confirmation_text(operation@),
    {
        match self.language {
            Language::Japanese => concat2(operation, " を中止します。ここまでの解決作業は失われます。"),
            Language::English => concat3("The ", operation, " is given up. What was resolved so far is lost."),
        }
    }

    pub open spec fn conflicts_header_text(self) -> Seq<char> {
        match self.language {
            Language::Japanese => "Tab: 選択の切替  |  Enter: 選択したファイルを解決済みとして記録"@,
            Language::English => "Tab: toggle  |  Enter: mark the selected files as resolved"@,
        }
    }

    /// What the keys do.
    pub fn conflicts_header(self) -> (text: &'static str)
        ensures
            text@ == self.conflicts_header_text(),
    {
        match self.language {
            Language::Japanese => "Tab: 選択の切替  |  Enter: 選択したファイルを解決済みとして記録",
            Language::English => "Tab: toggle  |  Enter: mark the selected files as resolved",
        }
    }

    pub open spec fn conflicts_read_failed_text(self) -> Seq<char> {
        match self.language {
            Language::Japanese => "コンフリクト中のファイルの一覧を取得できませんでした"@,
            Language::English => "could not read the conflicted files"@,
        }
    }

    /// The conflicts could not be read.
    pub fn conflicts_read_failed(self) -> (text: &'static str)
        ensures
            text@ == self.conflicts_read_failed_text(),
    {
        match self.language {
            Language::Japanese => "コンフリクト中のファイルの一覧を取得できませんでした",
            Language::English => "could not read the conflicted files",
        }
    }

    pub open spec fn no_conflicts_text(self) -> Seq<char> {
        match self.language {
            Language::Japanese => "コンフリクト中のファイルはありません"@,
            Language::English => "no file is in conflict"@,
        }
    }

    /// Nothing conflicts.
    pub fn no_conflicts(self) -> (text: &'static str)
        ensures
            text@ == self.no_conflicts_text(),
    {
        match self.language {
            Language::Japanese => "コンフリクト中のファイルはありません",
            Language::English => "no file is in conflict",
        }
    }

    pub open spec fn stage_failed_text(self) -> Seq<char> {
        match self.language {
            Language::Japanese => "解決済みとしての記録（git add）に失敗しました"@,
            Language::English => "could not mark the files as resolved (git add)"@,
        }
    }

    /// Staging failed.
    pub fn stage_failed(self) -> (text: &'static str)
        ensures
            text@ == self.stage_failed_text(),
    {
        match self.language {
            Language::Japanese => "解決済みとしての記録（git add）に失敗しました",
            Language::English => "could not mark the files as resolved (git add)",
        }
    }
}

/// What is said in Japanese begins or ends in Japanese.
pub proof fn law_japanese_is_spoken(
    messages: InProgressMessages,
    operation: Seq<char>,
    entry: Seq<char>,
)
    requires
        messages.language is Japanese,
    ensures
        is_japanese(messages.conflicts_action_text()),
        is_japanese(messages.continue_action_text(operation)),
        is_japanese(messages.skip_action_text()),
        is_japanese(messages.abort_action_text(operation)),
        is_japanese(messages.menu_selection_not_found_text(entry)),
        is_japanese(messages.abort_confirmation_text(operation)),
        is_japanese(messages.conflicts_header_text()),
        is_japanese(messages.conflicts_read_failed_text()),
        is_japanese(messages.no_conflicts_text()),
        is_japanese(messages.stage_failed_text()),
{
    reveal_strlit("コンフリクト中のファイルを確認し、解決済みとして記録する");
    reveal_strlit(" を再開する");
    reveal_strlit("現在のコミットを飛ばす");
    reveal_strlit(" を中止する");
    reveal_strlit("選択された項目 `");
    reveal_strlit(" を中止します。ここまでの解決作業は失われます。");
    reveal_strlit("Tab: 選択の切替  |  Enter: 選択したファイルを解決済みとして記録");
    reveal_strlit("コンフリクト中のファイルの一覧を取得できませんでした");
    reveal_strlit("コンフリクト中のファイルはありません");
    reveal_strlit("解決済みとしての記録（git add）に失敗しました");
}

/// What is said in English begins and ends in plain letters.
pub proof fn law_english_is_spoken(
    messages: InProgressMessages,
    entry: Seq<char>,
    operation: Seq<char>,
)
    requires
        messages.language is English,
    ensures
        is_english(messages.conflicts_action_text()),
        is_english(messages.skip_action_text()),
        is_english(messages.menu_selection_not_found_text(entry)),
        is_english(messages.abort_confirmation_text(operation)),
        is_english(messages.conflicts_header_text()),
        is_english(messages.conflicts_read_failed_text()),
        is_english(messages.no_conflicts_text()),
        is_english(messages.stage_failed_text()),
{
    reveal_strlit("Look at the conflicted files and mark them as resolved");
    reveal_strlit("Skip the current commit");
    reveal_strlit("the selected entry `");
    reveal_strlit("` is not in the menu");
    reveal_strlit("The ");
    reveal_strlit(" is given up. What was resolved so far is lost.");
    reveal_strlit("Tab: toggle  |  Enter: mark the selected files as resolved");
    reveal_strlit("could not read the conflicted files");
    reveal_strlit("no file is in conflict");
    reveal_strlit("could not mark the files as resolved (git add)");
}

/// What a message is given stands in it, in either language.
pub proof fn law_what_is_named_is_there(
    messages: InProgressMessages,
    operation: Seq<char>,
    entry: Seq<char>,
)
    ensures
        holds(messages.continue_action_text(operation), operation),
        holds(messages.abort_action_text(operation), operation),
        holds(messages.menu_selection_not_found_text(entry), entry),
        holds(messages.abort_confirmation_text(operation), operation),
{
    match messages.language {
        Language::Japanese => {
            lemma_holds(messages.continue_action_text(operation), operation, 0);
            lemma_holds(messages.abort_action_text(operation), operation, 0);
            lemma_holds(messages.menu_selection_not_found_text(entry), entry, "選択された項目 `"@.len() as int);
            lemma_holds(messages.abort_confirmation_text(operation), operation, 0);
        },
        Language::English => {
            lemma_holds(messages.continue_action_text(operation), operation, "Continue the "@.len() as int);
            lemma_holds(messages.abort_action_text(operation), operation, "Abort the "@.len() as int);
            lemma_holds(messages.menu_selection_not_found_text(entry), entry, "the selected entry `"@.len() as int);
            lemma_holds(messages.abort_confirmation_text(operation), operation, "The "@.len() as int);
        },
    }
}

} // verus!
