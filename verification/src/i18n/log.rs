//! Messages of `gz log`.

use vstd::prelude::*;

use crate::i18n::{holds, is_english, is_japanese, lemma_holds, Language};
use crate::text::concat3;

verus! {

/// Messages of `gz log`.
#[derive(Debug, Clone, Copy, PartialEq, Eq)]
pub struct LogMessages {
    pub language: Language,
}

impl LogMessages {
    pub open spec fn header_subject_text(self) -> Seq<char> {
        match self.language {
            Language::Japanese => "コミットを選択"@,
            Language::English => "Pick a commit"@,
        }
    }

    /// What is picked.
    pub fn header_subject(self) -> (text: &'static str)
        ensures
            text@ == self.header_subject_text(),
    {
        match self.language {
            Language::Japanese => "コミットを選択",
            Language::English => "Pick a commit",
        }
    }

    pub open spec fn header_outcome_print_text(self) -> Seq<char> {
        match self.language {
            Language::Japanese => "ハッシュを出力"@,
            Language::English => "print its hash"@,
        }
    }

    /// What happens then.
    pub fn header_outcome_print(self) -> (text: &'static str)
        ensures
            text@ == self.header_outcome_print_text(),
    {
        match self.language {
            Language::Japanese => "ハッシュを出力",
            Language::English => "print its hash",
        }
    }

    pub open spec fn header_outcome_menu_text(self) -> Seq<char> {
        match self.language {
            Language::Japanese => "操作のメニューを開く"@,
            Language::English => "open the menu of actions"@,
        }
    }

    /// What happens then, with a menu.
    pub fn header_outcome_menu(self) -> (text: &'static str)
        ensures
            text@ == self.header_outcome_menu_text(),
    {
        match self.language {
            Language::Japanese => "操作のメニューを開く",
            Language::English => "open the menu of actions",
        }
    }

    pub open spec fn selection_not_found_text(self, id: Seq<char>) -> Seq<char> {
        match self.language {
            Language::Japanese => "選択されたコミット `"@ + id + "` が候補一覧に見つかりません"@,
            Language::English => "the selected commit `"@ + id + "` is not among the candidates"@,
        }
    }

    /// A picked commit that was not offered.
    pub fn selection_not_found(self, id: &str) -> (text: String)
        ensures
            text@ == self.selection_not_found_text(id@),
    {
        match self.language {
            Language::Japanese => concat3("選択されたコミット `", id, "` が候補一覧に見つかりません"),
            Language::English => concat3("the selected commit `", id, "` is not among the candidates"),
        }
    }
}

/// What is said in Japanese begins or ends in Japanese.
pub proof fn law_japanese_is_spoken(messages: LogMessages, id: Seq<char>)
    requires
        messages.language is Japanese,
    ensures
        is_japanese(messages.header_subject_text()),
        is_japanese(messages.header_outcome_print_text()),
        is_japanese(messages.header_outcome_menu_text()),
        is_japanese(messages.selection_not_found_text(id)),
{
    reveal_strlit("コミットを選択");
    reveal_strlit("ハッシュを出力");
    reveal_strlit("操作のメニューを開く");
    reveal_strlit("選択されたコミット `");
}

/// What is said in English begins and ends in plain letters.
pub proof fn law_english_is_spoken(messages: LogMessages, id: Seq<char>)
    requires
        messages.language is English,
    ensures
        is_english(messages.header_subject_text()),
        is_english(messages.header_outcome_print_text()),
        is_english(messages.header_outcome_menu_text()),
        is_english(messages.selection_not_found_text(id)),
{
    reveal_strlit("Pick a commit");
    reveal_strlit("print its hash");
    reveal_strlit("open the menu of actions");
    reveal_strlit("the selected commit `");
    reveal_strlit("` is not among the candidates");
}

/// What a message is given stands in it, in either language.
pub proof fn law_what_is_named_is_there(messages: LogMessages, id: Seq<char>)
    ensures
        holds(messages.selection_not_found_text(id), id),
{
    match messages.language {
        Language::Japanese => {
            lemma_holds(messages.selection_not_found_text(id), id, "選択されたコミット `"@.len() as int);
        },
        Language::English => {
            lemma_holds(messages.selection_not_found_text(id), id, "the selected commit `"@.len() as int);
        },
    }
}

} // verus!
