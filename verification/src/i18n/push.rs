//! Messages of `gz push`.

use vstd::prelude::*;

use crate::i18n::{holds, is_english, is_japanese, lemma_holds, Language};
use crate::text::concat3;

verus! {

/// Messages of `gz push`.
#[derive(Debug, Clone, Copy, PartialEq, Eq)]
pub struct PushMessages {
    pub language: Language,
}

impl PushMessages {
    pub open spec fn targets_read_failed_text(self) -> Seq<char> {
        match self.language {
            Language::Japanese => "push 先の候補を取得できませんでした"@,
            Language::English => "could not read the destinations"@,
        }
    }

    /// The destinations could not be read.
    pub fn targets_read_failed(self) -> (text: &'static str)
        ensures
            text@ == self.targets_read_failed_text(),
    {
        match self.language {
            Language::Japanese => "push 先の候補を取得できませんでした",
            Language::English => "could not read the destinations",
        }
    }

    pub open spec fn no_remotes_text(self) -> Seq<char> {
        match self.language {
            Language::Japanese => "リモートがありません。git remote add でリモートを追加してください"@,
            Language::English => "there is no remote; add one with git remote add"@,
        }
    }

    /// There is no remote.
    pub fn no_remotes(self) -> (text: &'static str)
        ensures
            text@ == self.no_remotes_text(),
    {
        match self.language {
            Language::Japanese => "リモートがありません。git remote add でリモートを追加してください",
            Language::English => "there is no remote; add one with git remote add",
        }
    }

    pub open spec fn no_tracking_ref_text(self) -> Seq<char> {
        match self.language {
            Language::Japanese => "追跡参照なし"@,
            Language::English => "no tracking ref"@,
        }
    }

    /// Nothing was pushed yet.
    pub fn no_tracking_ref(self) -> (text: &'static str)
        ensures
            text@ == self.no_tracking_ref_text(),
    {
        match self.language {
            Language::Japanese => "追跡参照なし",
            Language::English => "no tracking ref",
        }
    }

    pub open spec fn selection_not_found_text(self, name: Seq<char>) -> Seq<char> {
        match self.language {
            Language::Japanese => "選択された push 先 `"@ + name + "` が候補一覧に見つかりません"@,
            Language::English => "the selected destination `"@ + name + "` is not among the candidates"@,
        }
    }

    /// A picked destination that was not offered.
    pub fn selection_not_found(self, name: &str) -> (text: String)
        ensures
            text@ == self.selection_not_found_text(name@),
    {
        match self.language {
            Language::Japanese => concat3("選択された push 先 `", name, "` が候補一覧に見つかりません"),
            Language::English => concat3("the selected destination `", name, "` is not among the candidates"),
        }
    }

    pub open spec fn push_failed_text(self, name: Seq<char>) -> Seq<char> {
        match self.language {
            Language::Japanese => "`"@ + name + "` への push に失敗しました"@,
            Language::English => "could not push to `"@ + name + "`"@,
        }
    }

    /// Pushing failed.
    pub fn push_failed(self, name: &str) -> (text: String)
        ensures
            text@ == self.push_failed_text(name@),
    {
        match self.language {
            Language::Japanese => concat3("`", name, "` への push に失敗しました"),
            Language::English => concat3("could not push to `", name, "`"),
        }
    }
}

/// What is said in Japanese begins or ends in Japanese.
pub proof fn law_japanese_is_spoken(messages: PushMessages, name: Seq<char>)
    requires
        messages.language is Japanese,
    ensures
        is_japanese(messages.targets_read_failed_text()),
        is_japanese(messages.no_remotes_text()),
        is_japanese(messages.no_tracking_ref_text()),
        is_japanese(messages.selection_not_found_text(name)),
        is_japanese(messages.push_failed_text(name)),
{
    reveal_strlit("push 先の候補を取得できませんでした");
    reveal_strlit("リモートがありません。git remote add でリモートを追加してください");
    reveal_strlit("追跡参照なし");
    reveal_strlit("選択された push 先 `");
    reveal_strlit("` への push に失敗しました");
}

/// What is said in English begins and ends in plain letters.
pub proof fn law_english_is_spoken(messages: PushMessages, name: Seq<char>)
    requires
        messages.language is English,
    ensures
        is_english(messages.targets_read_failed_text()),
        is_english(messages.no_remotes_text()),
        is_english(messages.no_tracking_ref_text()),
        is_english(messages.selection_not_found_text(name)),
        is_english(messages.push_failed_text(name)),
{
    reveal_strlit("could not read the destinations");
    reveal_strlit("there is no remote; add one with git remote add");
    reveal_strlit("no tracking ref");
    reveal_strlit("the selected destination `");
    reveal_strlit("` is not among the candidates");
    reveal_strlit("could not push to `");
    reveal_strlit("`");
}

/// What a message is given stands in it, in either language.
pub proof fn law_what_is_named_is_there(messages: PushMessages, name: Seq<char>)
    ensures
        holds(messages.selection_not_found_text(name), name),
        holds(messages.push_failed_text(name), name),
{
    match messages.language {
        Language::Japanese => {
            lemma_holds(messages.selection_not_found_text(name), name, "選択された push 先 `"@.len() as int);
            lemma_holds(messages.push_failed_text(name), name, "`"@.len() as int);
        },
        Language::English => {
            lemma_holds(messages.selection_not_found_text(name), name, "the selected destination `"@.len() as int);
            lemma_holds(messages.push_failed_text(name), name, "could not push to `"@.len() as int);
        },
    }
}

} // verus!
