//! Messages of `gz cherry-pick`.

use vstd::prelude::*;

use crate::i18n::{holds, is_english, is_japanese, lemma_holds, Language};
use crate::text::concat2;

verus! {

/// Messages of `gz cherry-pick`.
#[derive(Debug, Clone, Copy, PartialEq, Eq)]
pub struct CherryPickMessages {
    pub language: Language,
}

impl CherryPickMessages {
    pub open spec fn selection_not_found_text(self, hashes: Seq<char>) -> Seq<char> {
        match self.language {
            Language::Japanese => "選択されたコミットが候補一覧に見つかりません: "@ + hashes,
            Language::English => "the selected commits are not among the candidates: "@ + hashes,
        }
    }

    /// Picked commits that were not offered.
    pub fn selection_not_found(self, hashes: &str) -> (text: String)
        ensures
            text@ == self.selection_not_found_text(hashes@),
    {
        match self.language {
            Language::Japanese => concat2("選択されたコミットが候補一覧に見つかりません: ", hashes),
            Language::English => concat2("the selected commits are not among the candidates: ", hashes),
        }
    }

    pub open spec fn resolution_hint_text(self) -> Seq<char> {
        match self.language {
            Language::Japanese => "`git cherry-pick` に失敗しました。コンフリクトを解決したあと `git cherry-pick --continue` で再開するか、`git cherry-pick --abort` で中止してください"@,
            Language::English => "`git cherry-pick` failed; resolve the conflicts and run `git cherry-pick --continue`, or run `git cherry-pick --abort` to give up"@,
        }
    }

    /// How to go on after a conflict.
    pub fn resolution_hint(self) -> (text: &'static str)
        ensures
            text@ == self.resolution_hint_text(),
    {
        match self.language {
            Language::Japanese => "`git cherry-pick` に失敗しました。コンフリクトを解決したあと `git cherry-pick --continue` で再開するか、`git cherry-pick --abort` で中止してください",
            Language::English => "`git cherry-pick` failed; resolve the conflicts and run `git cherry-pick --continue`, or run `git cherry-pick --abort` to give up",
        }
    }
}

/// What is said in Japanese begins or ends in Japanese.
pub proof fn law_japanese_is_spoken(messages: CherryPickMessages, hashes: Seq<char>)
    requires
        messages.language is Japanese,
    ensures
        is_japanese(messages.selection_not_found_text(hashes)),
        is_japanese(messages.resolution_hint_text()),
{
    reveal_strlit("選択されたコミットが候補一覧に見つかりません: ");
    reveal_strlit("`git cherry-pick` に失敗しました。コンフリクトを解決したあと `git cherry-pick --continue` で再開するか、`git cherry-pick --abort` で中止してください");
}

/// What is said in English begins and ends in plain letters.
pub proof fn law_english_is_spoken(messages: CherryPickMessages)
    requires
        messages.language is English,
    ensures
        is_english(messages.resolution_hint_text()),
{
    reveal_strlit("`git cherry-pick` failed; resolve the conflicts and run `git cherry-pick --continue`, or run `git cherry-pick --abort` to give up");
}

/// What a message is given stands in it, in either language.
pub proof fn law_what_is_named_is_there(messages: CherryPickMessages, hashes: Seq<char>)
    ensures
        holds(messages.selection_not_found_text(hashes), hashes),
{
    match messages.language {
        Language::Japanese => {
            lemma_holds(messages.selection_not_found_text(hashes), hashes, "選択されたコミットが候補一覧に見つかりません: "@.len() as int);
        },
        Language::English => {
            lemma_holds(messages.selection_not_found_text(hashes), hashes, "the selected commits are not among the candidates: "@.len() as int);
        },
    }
}

} // verus!
