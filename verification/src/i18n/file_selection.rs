//! Messages about picked files.

use vstd::prelude::*;

use crate::i18n::{holds, is_english, is_japanese, lemma_holds, Language};
use crate::text::concat2;

verus! {

/// Messages about picked files.
#[derive(Debug, Clone, Copy, PartialEq, Eq)]
pub struct FileSelectionMessages {
    pub language: Language,
}

impl FileSelectionMessages {
    pub open spec fn selection_not_found_text(self, paths: Seq<char>) -> Seq<char> {
        match self.language {
            Language::Japanese => "選択されたファイルが候補一覧に見つかりません: "@ + paths,
            Language::English => "the selected files are not among the candidates: "@ + paths,
        }
    }

    /// Picked files that were not offered.
    pub fn selection_not_found(self, paths: &str) -> (text: String)
        ensures
            text@ == self.selection_not_found_text(paths@),
    {
        match self.language {
            Language::Japanese => concat2("選択されたファイルが候補一覧に見つかりません: ", paths),
            Language::English => concat2("the selected files are not among the candidates: ", paths),
        }
    }
}

/// What is said in Japanese begins or ends in Japanese.
pub proof fn law_japanese_is_spoken(messages: FileSelectionMessages, paths: Seq<char>)
    requires
        messages.language is Japanese,
    ensures
        is_japanese(messages.selection_not_found_text(paths)),
{
    reveal_strlit("選択されたファイルが候補一覧に見つかりません: ");
}

/// What a message is given stands in it, in either language.
pub proof fn law_what_is_named_is_there(messages: FileSelectionMessages, paths: Seq<char>)
    ensures
        holds(messages.selection_not_found_text(paths), paths),
{
    match messages.language {
        Language::Japanese => {
            lemma_holds(messages.selection_not_found_text(paths), paths, "選択されたファイルが候補一覧に見つかりません: "@.len() as int);
        },
        Language::English => {
            lemma_holds(messages.selection_not_found_text(paths), paths, "the selected files are not among the candidates: "@.len() as int);
        },
    }
}

} // verus!
