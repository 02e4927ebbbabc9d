//! Messages of `gz fixup`.

use vstd::prelude::*;

use crate::i18n::{holds, is_english, is_japanese, lemma_holds, Language};
use crate::text::{concat2, concat3};

verus! {

/// Messages of `gz fixup`.
#[derive(Debug, Clone, Copy, PartialEq, Eq)]
pub struct FixupMessages {
    pub language: Language,
}

impl FixupMessages {
    pub open spec fn staged_changes_read_failed_text(self) -> Seq<char> {
        match self.language {
            Language::Japanese => "ステージ済みの変更を取得できませんでした"@,
            Language::English => "could not read the staged changes"@,
        }
    }

    /// The staged changes could not be read.
    pub fn staged_changes_read_failed(self) -> (text: &'static str)
        ensures
            text@ == self.staged_changes_read_failed_text(),
    {
        match self.language {
            Language::Japanese => "ステージ済みの変更を取得できませんでした",
            Language::English => "could not read the staged changes",
        }
    }

    pub open spec fn staged_required_text(self, kind: Seq<char>) -> Seq<char> {
        match self.language {
            Language::Japanese => "ステージ済みの変更がありません。"@ + kind + " コミットにする変更を gz add でステージしてください"@,
            Language::English => "nothing is staged; stage the changes of the "@ + kind + " commit with gz add"@,
        }
    }

    /// Nothing is staged.
    pub fn staged_required(self, kind: &str) -> (text: String)
        ensures
            text@ == self.staged_required_text(kind@),
    {
        match self.language {
            Language::Japanese => concat3("ステージ済みの変更がありません。", kind, " コミットにする変更を gz add でステージしてください"),
            Language::English => concat3("nothing is staged; stage the changes of the ", kind, " commit with gz add"),
        }
    }

    pub open spec fn selection_not_found_text(self, id: Seq<char>) -> Seq<char> {
        match self.language {
            Language::Japanese => "選択されたコミット `"@ + id + "` が候補一覧に見つかりません"@,
            Language::English => "the selected commit `"@ + id + "` is not among the candidates"@,
        }
    }

    /// A picked commit that was not offered.
    pub fn selection_not_found(self, id: &str) -> (text: String)
        ensures
            text@ == self.selection_not_found_text(id@),
    {
        match self.language {
            Language::Japanese => concat3("選択されたコミット `", id, "` が候補一覧に見つかりません"),
            Language::English => concat3("the selected commit `", id, "` is not among the candidates"),
        }
    }

    pub open spec fn commit_creation_failed_text(self, kind: Seq<char>) -> Seq<char> {
        match self.language {
            Language::Japanese => kind + " コミットの作成に失敗しました"@,
            Language::English => "could not create the "@ + kind + " commit"@,
        }
    }

    /// The commit failed.
    pub fn commit_creation_failed(self, kind: &str) -> (text: String)
        ensures
            text@ == self.commit_creation_failed_text(kind@),
    {
        match self.language {
            Language::Japanese => concat2(kind, " コミットの作成に失敗しました"),
            Language::English => concat3("could not create the ", kind, " commit"),
        }
    }

    pub open spec fn autosquash_hint_text(self, start: Seq<char>) -> Seq<char> {
        match self.language {
            Language::Japanese => "ヒント: 作成したコミットを履歴へ取り込むには次を実行してください。\n  git rebase -i --autosquash "@ + start,
            Language::English => "hint: run this to fold the new commit into the history.\n  git rebase -i --autosquash "@ + start,
        }
    }

    /// How to fold the commit in.
    pub fn autosquash_hint(self, start: &str) -> (text: String)
        ensures
            text@ == self.autosquash_hint_text(start@),
    {
        match self.language {
            Language::Japanese => concat2("ヒント: 作成したコミットを履歴へ取り込むには次を実行してください。\n  git rebase -i --autosquash ", start),
            Language::English => concat2("hint: run this to fold the new commit into the history.\n  git rebase -i --autosquash ", start),
        }
    }

    pub open spec fn root_start_note_text(self) -> Seq<char> {
        match self.language {
            Language::Japanese => "（対象は最初のコミットで親が無いため、--root を指定します）"@,
            Language::English => "(the target is the first commit and has no parent, hence --root)"@,
        }
    }

    /// Why the rebase starts at the root.
    pub fn root_start_note(self) -> (text: &'static str)
        ensures
            text@ == self.root_start_note_text(),
    {
        match self.language {
            Language::Japanese => "（対象は最初のコミットで親が無いため、--root を指定します）",
            Language::English => "(the target is the first commit and has no parent, hence --root)",
        }
    }
}

/// What is said in Japanese begins or ends in Japanese.
pub proof fn law_japanese_is_spoken(
    messages: FixupMessages,
    kind: Seq<char>,
    id: Seq<char>,
    start: Seq<char>,
)
    requires
        messages.language is Japanese,
    ensures
        is_japanese(messages.staged_changes_read_failed_text()),
        is_japanese(messages.staged_required_text(kind)),
        is_japanese(messages.selection_not_found_text(id)),
        is_japanese(messages.commit_creation_failed_text(kind)),
        is_japanese(messages.autosquash_hint_text(start)),
        is_japanese(messages.root_start_note_text()),
{
    reveal_strlit("ステージ済みの変更を取得できませんでした");
    reveal_strlit("ステージ済みの変更がありません。");
    reveal_strlit("選択されたコミット `");
    reveal_strlit(" コミットの作成に失敗しました");
    reveal_strlit("ヒント: 作成したコミットを履歴へ取り込むには次を実行してください。\n  git rebase -i --autosquash ");
    reveal_strlit("（対象は最初のコミットで親が無いため、--root を指定します）");
}

/// What is said in English begins and ends in plain letters.
pub proof fn law_english_is_spoken(messages: FixupMessages, kind: Seq<char>, id: Seq<char>)
    requires
        messages.language is English,
    ensures
        is_english(messages.staged_changes_read_failed_text()),
        is_english(messages.staged_required_text(kind)),
        is_english(messages.selection_not_found_text(id)),
        is_english(messages.commit_creation_failed_text(kind)),
        is_english(messages.root_start_note_text()),
{
    reveal_strlit("could not read the staged changes");
    reveal_strlit("nothing is staged; stage the changes of the ");
    reveal_strlit(" commit with gz add");
    reveal_strlit("the selected commit `");
    reveal_strlit("` is not among the candidates");
    reveal_strlit("could not create the ");
    reveal_strlit(" commit");
    reveal_strlit("(the target is the first commit and has no parent, hence --root)");
}

/// What a message is given stands in it, in either language.
pub proof fn law_what_is_named_is_there(
    messages: FixupMessages,
    kind: Seq<char>,
    id: Seq<char>,
    start: Seq<char>,
)
    ensures
        holds(messages.staged_required_text(kind), kind),
        holds(messages.selection_not_found_text(id), id),
        holds(messages.commit_creation_failed_text(kind), kind),
        holds(messages.autosquash_hint_text(start), start),
{
    match messages.language {
        Language::Japanese => {
            lemma_holds(messages.staged_required_text(kind), kind, "ステージ済みの変更がありません。"@.len() as int);
            lemma_holds(messages.selection_not_found_text(id), id, "選択されたコミット `"@.len() as int);
            lemma_holds(messages.commit_creation_failed_text(kind), kind, 0);
            lemma_holds(messages.autosquash_hint_text(start), start, "ヒント: 作成したコミットを履歴へ取り込むには次を実行してください。\n  git rebase -i --autosquash "@.len() as int);
        },
        Language::English => {
            lemma_holds(messages.staged_required_text(kind), kind, "nothing is staged; stage the changes of the "@.len() as int);
            lemma_holds(messages.selection_not_found_text(id), id, "the selected commit `"@.len() as int);
            lemma_holds(messages.commit_creation_failed_text(kind), kind, "could not create the "@.len() as int);
            lemma_holds(messages.autosquash_hint_text(start), start, "hint: run this to fold the new commit into the history.\n  git rebase -i --autosquash "@.len() as int);
        },
    }
}

} // verus!
