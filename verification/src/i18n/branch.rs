//! Messages of `gz branch`.

use vstd::prelude::*;

use crate::i18n::{holds, is_english, is_japanese, lemma_holds, Language};
use crate::text::concat3;

verus! {

/// Messages of `gz branch`.
#[derive(Debug, Clone, Copy, PartialEq, Eq)]
pub struct BranchMessages {
    pub language: Language,
}

impl BranchMessages {
    pub open spec fn header_subject_text(self) -> Seq<char> {
        match self.language {
            Language::Japanese => "切り替えるブランチを選択"@,
            Language::English => "Pick a branch"@,
        }
    }

    /// What is picked.
    pub fn header_subject(self) -> (text: &'static str)
        ensures
            text@ == self.header_subject_text(),
    {
        match self.language {
            Language::Japanese => "切り替えるブランチを選択",
            Language::English => "Pick a branch",
        }
    }

    pub open spec fn header_outcome_text(self) -> Seq<char> {
        match self.language {
            Language::Japanese => "切り替え"@,
            Language::English => "switch to it"@,
        }
    }

    /// What happens then.
    pub fn header_outcome(self) -> (text: &'static str)
        ensures
            text@ == self.header_outcome_text(),
    {
        match self.language {
            Language::Japanese => "切り替え",
            Language::English => "switch to it",
        }
    }

    pub open spec fn selection_not_found_text(self, name: Seq<char>) -> Seq<char> {
        match self.language {
            Language::Japanese => "選択されたブランチ `"@ + name + "` が候補一覧に見つかりません"@,
            Language::English => "the selected branch `"@ + name + "` is not among the candidates"@,
        }
    }

    /// A picked branch that was not offered.
    pub fn selection_not_found(self, name: &str) -> (text: String)
        ensures
            text@ == self.selection_not_found_text(name@),
    {
        match self.language {
            Language::Japanese => concat3("選択されたブランチ `", name, "` が候補一覧に見つかりません"),
            Language::English => concat3("the selected branch `", name, "` is not among the candidates"),
        }
    }

    pub open spec fn tracking_target_undetermined_text(self, name: Seq<char>) -> Seq<char> {
        match self.language {
            Language::Japanese => "リモート追跡ブランチ `"@ + name + "` の追跡先を決定できません"@,
            Language::English => "could not determine which branch `"@ + name + "` tracks"@,
        }
    }

    /// A remote branch without a branch name.
    pub fn tracking_target_undetermined(self, name: &str) -> (text: String)
        ensures
            text@ == self.tracking_target_undetermined_text(name@),
    {
        match self.language {
            Language::Japanese => concat3("リモート追跡ブランチ `", name, "` の追跡先を決定できません"),
            Language::English => concat3("could not determine which branch `", name, "` tracks"),
        }
    }
}

/// What is said in Japanese begins or ends in Japanese.
pub proof fn law_japanese_is_spoken(messages: BranchMessages, name: Seq<char>)
    requires
        messages.language is Japanese,
    ensures
        is_japanese(messages.header_subject_text()),
        is_japanese(messages.header_outcome_text()),
        is_japanese(messages.selection_not_found_text(name)),
        is_japanese(messages.tracking_target_undetermined_text(name)),
{
    reveal_strlit("切り替えるブランチを選択");
    reveal_strlit("切り替え");
    reveal_strlit("選択されたブランチ `");
    reveal_strlit("リモート追跡ブランチ `");
}

/// What is said in English begins and ends in plain letters.
pub proof fn law_english_is_spoken(messages: BranchMessages, name: Seq<char>)
    requires
        messages.language is English,
    ensures
        is_english(messages.header_subject_text()),
        is_english(messages.header_outcome_text()),
        is_english(messages.selection_not_found_text(name)),
        is_english(messages.tracking_target_undetermined_text(name)),
{
    reveal_strlit("Pick a branch");
    reveal_strlit("switch to it");
    reveal_strlit("the selected branch `");
    reveal_strlit("` is not among the candidates");
    reveal_strlit("could not determine which branch `");
    reveal_strlit("` tracks");
}

/// What a message is given stands in it, in either language.
pub proof fn law_what_is_named_is_there(messages: BranchMessages, name: Seq<char>)
    ensures
        holds(messages.selection_not_found_text(name), name),
        holds(messages.tracking_target_undetermined_text(name), name),
{
    match messages.language {
        Language::Japanese => {
            lemma_holds(messages.selection_not_found_text(name), name, "選択されたブランチ `"@.len() as int);
            lemma_holds(messages.tracking_target_undetermined_text(name), name, "リモート追跡ブランチ `"@.len() as int);
        },
        Language::English => {
            lemma_holds(messages.selection_not_found_text(name), name, "the selected branch `"@.len() as int);
            lemma_holds(messages.tracking_target_undetermined_text(name), name, "could not determine which branch `"@.len() as int);
        },
    }
}

} // verus!
