//! Messages of the menu of a commit.

use vstd::prelude::*;

use crate::i18n::{holds, is_english, is_japanese, lemma_holds, Language};
use crate::text::{concat2, concat3};

verus! {

/// Messages of the menu of a commit.
#[derive(Debug, Clone, Copy, PartialEq, Eq)]
pub struct CommitMenuMessages {
    pub language: Language,
}

impl CommitMenuMessages {
    pub open spec fn subject_text(self, short_id: Seq<char>) -> Seq<char> {
        match self.language {
            Language::Japanese => "コミット "@ + short_id + " に対する操作を選択"@,
            Language::English => "Pick what to do with "@ + short_id,
        }
    }

    /// What is picked.
    pub fn subject(self, short_id: &str) -> (text: String)
        ensures
            text@ == self.subject_text(short_id@),
    {
        match self.language {
            Language::Japanese => concat3("コミット ", short_id, " に対する操作を選択"),
            Language::English => concat2("Pick what to do with ", short_id),
        }
    }

    pub open spec fn outcome_text(self) -> Seq<char> {
        match self.language {
            Language::Japanese => "実行"@,
            Language::English => "do it"@,
        }
    }

    /// What happens then.
    pub fn outcome(self) -> (text: &'static str)
        ensures
            text@ == self.outcome_text(),
    {
        match self.language {
            Language::Japanese => "実行",
            Language::English => "do it",
        }
    }

    pub open spec fn show_action_text(self) -> Seq<char> {
        match self.language {
            Language::Japanese => "詳細を表示する (git show)"@,
            Language::English => "Show the details (git show)"@,
        }
    }

    /// Show the commit.
    pub fn show_action(self) -> (text: &'static str)
        ensures
            text@ == self.show_action_text(),
    {
        match self.language {
            Language::Japanese => "詳細を表示する (git show)",
            Language::English => "Show the details (git show)",
        }
    }

    pub open spec fn switch_action_text(self) -> Seq<char> {
        match self.language {
            Language::Japanese => "detached HEAD として切り替える (git switch --detach)"@,
            Language::English => "Switch to it as a detached HEAD (git switch --detach)"@,
        }
    }

    /// Switch to the commit.
    pub fn switch_action(self) -> (text: &'static str)
        ensures
            text@ == self.switch_action_text(),
    {
        match self.language {
            Language::Japanese => "detached HEAD として切り替える (git switch --detach)",
            Language::English => "Switch to it as a detached HEAD (git switch --detach)",
        }
    }

    pub open spec fn cherry_pick_action_text(self) -> Seq<char> {
        match self.language {
            Language::Japanese => "現在のブランチへ取り込む (git cherry-pick)"@,
            Language::English => "Apply it to the current branch (git cherry-pick)"@,
        }
    }

    /// Apply the commit.
    pub fn cherry_pick_action(self) -> (text: &'static str)
        ensures
            text@ == self.cherry_pick_action_text(),
    {
        match self.language {
            Language::Japanese => "現在のブランチへ取り込む (git cherry-pick)",
            Language::English => "Apply it to the current branch (git cherry-pick)",
        }
    }

    pub open spec fn revert_action_text(self) -> Seq<char> {
        match self.language {
            Language::Japanese => "打ち消すコミットを作る (git revert)"@,
            Language::English => "Create a commit that undoes it (git revert)"@,
        }
    }

    /// Undo the commit.
    pub fn revert_action(self) -> (text: &'static str)
        ensures
            text@ == self.revert_action_text(),
    {
        match self.language {
            Language::Japanese => "打ち消すコミットを作る (git revert)",
            Language::English => "Create a commit that undoes it (git revert)",
        }
    }

    pub open spec fn fixup_action_text(self) -> Seq<char> {
        match self.language {
            Language::Japanese => "ステージ済みの変更で fixup コミットを作る (git commit --fixup)"@,
            Language::English => "Create a fixup commit from the staged changes (git commit --fixup)"@,
        }
    }

    /// Amend the commit.
    pub fn fixup_action(self) -> (text: &'static str)
        ensures
            text@ == self.fixup_action_text(),
    {
        match self.language {
            Language::Japanese => "ステージ済みの変更で fixup コミットを作る (git commit --fixup)",
            Language::English => "Create a fixup commit from the staged changes (git commit --fixup)",
        }
    }

    pub open spec fn reset_action_text(self) -> Seq<char> {
        match self.language {
            Language::Japanese => "現在のブランチをこのコミットへ戻す (git reset --hard)"@,
            Language::English => "Move the current branch to it (git reset --hard)"@,
        }
    }

    /// Move the branch to the commit.
    pub fn reset_action(self) -> (text: &'static str)
        ensures
            text@ == self.reset_action_text(),
    {
        match self.language {
            Language::Japanese => "現在のブランチをこのコミットへ戻す (git reset --hard)",
            Language::English => "Move the current branch to it (git reset --hard)",
        }
    }

    pub open spec fn print_action_text(self) -> Seq<char> {
        match self.language {
            Language::Japanese => "ハッシュを出力する"@,
            Language::English => "Print the hash"@,
        }
    }

    /// Print the hash.
    pub fn print_action(self) -> (text: &'static str)
        ensures
            text@ == self.print_action_text(),
    {
        match self.language {
            Language::Japanese => "ハッシュを出力する",
            Language::English => "Print the hash",
        }
    }

    pub open spec fn menu_selection_not_found_text(self, entry: Seq<char>) -> Seq<char> {
        match self.language {
            Language::Japanese => "選択された操作 `"@ + entry + "` がメニューに見つかりません"@,
            Language::English => "the selected entry `"@ + entry + "` is not in the menu"@,
        }
    }

    /// A picked entry that was not offered.
    pub fn menu_selection_not_found(self, entry: &str) -> (text: String)
        ensures
            text@ == self.menu_selection_not_found_text(entry@),
    {
        match self.language {
            Language::Japanese => concat3("選択された操作 `", entry, "` がメニューに見つかりません"),
            Language::English => concat3("the selected entry `", entry, "` is not in the menu"),
        }
    }

    pub open spec fn reset_confirmation_text(self) -> Seq<char> {
        match self.language {
            Language::Japanese => "現在のブランチを次のコミットへ戻します。コミットしていない変更は失われます。"@,
            Language::English => "The current branch moves to this commit. Changes that are not committed are lost."@,
        }
    }

    /// What a reset loses.
    pub fn reset_confirmation(self) -> (text: &'static str)
        ensures
            text@ == self.reset_confirmation_text(),
    {
        match self.language {
            Language::Japanese => "現在のブランチを次のコミットへ戻します。コミットしていない変更は失われます。",
            Language::English => "The current branch moves to this commit. Changes that are not committed are lost.",
        }
    }

    pub open spec fn show_failed_text(self, id: Seq<char>) -> Seq<char> {
        match self.language {
            Language::Japanese => "コミット `"@ + id + "` の表示に失敗しました"@,
            Language::English => "could not show the commit `"@ + id + "`"@,
        }
    }

    /// Showing failed.
    pub fn show_failed(self, id: &str) -> (text: String)
        ensures
            text@ == self.show_failed_text(id@),
    {
        match self.language {
            Language::Japanese => concat3("コミット `", id, "` の表示に失敗しました"),
            Language::English => concat3("could not show the commit `", id, "`"),
        }
    }

    pub open spec fn switch_failed_text(self, id: Seq<char>) -> Seq<char> {
        match self.language {
            Language::Japanese => "コミット `"@ + id + "` への切り替えに失敗しました"@,
            Language::English => "could not switch to the commit `"@ + id + "`"@,
        }
    }

    /// Switching failed.
    pub fn switch_failed(self, id: &str) -> (text: String)
        ensures
            text@ == self.switch_failed_text(id@),
    {
        match self.language {
            Language::Japanese => concat3("コミット `", id, "` への切り替えに失敗しました"),
            Language::English => concat3("could not switch to the commit `", id, "`"),
        }
    }

    pub open spec fn reset_failed_text(self, id: Seq<char>) -> Seq<char> {
        match self.language {
            Language::Japanese => "コミット `"@ + id + "` へのリセットに失敗しました"@,
            Language::English => "could not reset to the commit `"@ + id + "`"@,
        }
    }

    /// Resetting failed.
    pub fn reset_failed(self, id: &str) -> (text: String)
        ensures
            text@ == self.reset_failed_text(id@),
    {
        match self.language {
            Language::Japanese => concat3("コミット `", id, "` へのリセットに失敗しました"),
            Language::English => concat3("could not reset to the commit `", id, "`"),
        }
    }
}

/// What is said in Japanese begins or ends in Japanese.
pub proof fn law_japanese_is_spoken(
    messages: CommitMenuMessages,
    short_id: Seq<char>,
    entry: Seq<char>,
    id: Seq<char>,
)
    requires
        messages.language is Japanese,
    ensures
        is_japanese(messages.subject_text(short_id)),
        is_japanese(messages.outcome_text()),
        is_japanese(messages.show_action_text()),
        is_japanese(messages.cherry_pick_action_text()),
        is_japanese(messages.revert_action_text()),
        is_japanese(messages.fixup_action_text()),
        is_japanese(messages.reset_action_text()),
        is_japanese(messages.print_action_text()),
        is_japanese(messages.menu_selection_not_found_text(entry)),
        is_japanese(messages.reset_confirmation_text()),
        is_japanese(messages.show_failed_text(id)),
        is_japanese(messages.switch_failed_text(id)),
        is_japanese(messages.reset_failed_text(id)),
{
    reveal_strlit("コミット ");
    reveal_strlit("実行");
    reveal_strlit("詳細を表示する (git show)");
    reveal_strlit("現在のブランチへ取り込む (git cherry-pick)");
    reveal_strlit("打ち消すコミットを作る (git revert)");
    reveal_strlit("ステージ済みの変更で fixup コミットを作る (git commit --fixup)");
    reveal_strlit("現在のブランチをこのコミットへ戻す (git reset --hard)");
    reveal_strlit("ハッシュを出力する");
    reveal_strlit("選択された操作 `");
    reveal_strlit("現在のブランチを次のコミットへ戻します。コミットしていない変更は失われます。");
    reveal_strlit("コミット `");
}

/// What is said in English begins and ends in plain letters.
pub proof fn law_english_is_spoken(messages: CommitMenuMessages, entry: Seq<char>, id: Seq<char>)
    requires
        messages.language is English,
    ensures
        is_english(messages.outcome_text()),
        is_english(messages.show_action_text()),
        is_english(messages.switch_action_text()),
        is_english(messages.cherry_pick_action_text()),
        is_english(messages.revert_action_text()),
        is_english(messages.fixup_action_text()),
        is_english(messages.reset_action_text()),
        is_english(messages.print_action_text()),
        is_english(messages.menu_selection_not_found_text(entry)),
        is_english(messages.reset_confirmation_text()),
        is_english(messages.show_failed_text(id)),
        is_english(messages.switch_failed_text(id)),
        is_english(messages.reset_failed_text(id)),
{
    reveal_strlit("do it");
    reveal_strlit("Show the details (git show)");
    reveal_strlit("Switch to it as a detached HEAD (git switch --detach)");
    reveal_strlit("Apply it to the current branch (git cherry-pick)");
    reveal_strlit("Create a commit that undoes it (git revert)");
    reveal_strlit("Create a fixup commit from the staged changes (git commit --fixup)");
    reveal_strlit("Move the current branch to it (git reset --hard)");
    reveal_strlit("Print the hash");
    reveal_strlit("the selected entry `");
    reveal_strlit("` is not in the menu");
    reveal_strlit("The current branch moves to this commit. Changes that are not committed are lost.");
    reveal_strlit("could not show the commit `");
    reveal_strlit("`");
    reveal_strlit("could not switch to the commit `");
    reveal_strlit("could not reset to the commit `");
}

/// What a message is given stands in it, in either language.
pub proof fn law_what_is_named_is_there(
    messages: CommitMenuMessages,
    short_id: Seq<char>,
    entry: Seq<char>,
    id: Seq<char>,
)
    ensures
        holds(messages.subject_text(short_id), short_id),
        holds(messages.menu_selection_not_found_text(entry), entry),
        holds(messages.show_failed_text(id), id),
        holds(messages.switch_failed_text(id), id),
        holds(messages.reset_failed_text(id), id),
{
    match messages.language {
        Language::Japanese => {
            lemma_holds(messages.subject_text(short_id), short_id, "コミット "@.len() as int);
            lemma_holds(messages.menu_selection_not_found_text(entry), entry, "選択された操作 `"@.len() as int);
            lemma_holds(messages.show_failed_text(id), id, "コミット `"@.len() as int);
            lemma_holds(messages.switch_failed_text(id), id, "コミット `"@.len() as int);
            lemma_holds(messages.reset_failed_text(id), id, "コミット `"@.len() as int);
        },
        Language::English => {
            lemma_holds(messages.subject_text(short_id), short_id, "Pick what to do with "@.len() as int);
            lemma_holds(messages.menu_selection_not_found_text(entry), entry, "the selected entry `"@.len() as int);
            lemma_holds(messages.show_failed_text(id), id, "could not show the commit `"@.len() as int);
            lemma_holds(messages.switch_failed_text(id), id, "could not switch to the commit `"@.len() as int);
            lemma_holds(messages.reset_failed_text(id), id, "could not reset to the commit `"@.len() as int);
        },
    }
}

} // verus!
