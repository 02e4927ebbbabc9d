//! Messages of `gz reflog`.

use vstd::prelude::*;

use crate::i18n::{holds, is_english, is_japanese, lemma_holds, Language};
use crate::text::{concat3, concat4, concat5};

verus! {

/// Messages of `gz reflog`.
#[derive(Debug, Clone, Copy, PartialEq, Eq)]
pub struct ReflogMessages {
    pub language: Language,
}

impl ReflogMessages {
    pub open spec fn header_subject_text(self) -> Seq<char> {
        match self.language {
            Language::Japanese => "reflog のエントリを選択"@,
            Language::English => "Pick a reflog entry"@,
        }
    }

    /// What is picked.
    pub fn header_subject(self) -> (text: &'static str)
        ensures
            text@ == self.header_subject_text(),
    {
        match self.language {
            Language::Japanese => "reflog のエントリを選択",
            Language::English => "Pick a reflog entry",
        }
    }

    pub open spec fn header_outcome_print_text(self) -> Seq<char> {
        match self.language {
            Language::Japanese => "ハッシュを出力"@,
            Language::English => "print its hash"@,
        }
    }

    /// What happens then.
    pub fn header_outcome_print(self) -> (text: &'static str)
        ensures
            text@ == self.header_outcome_print_text(),
    {
        match self.language {
            Language::Japanese => "ハッシュを出力",
            Language::English => "print its hash",
        }
    }

    pub open spec fn header_outcome_restore_text(self, name: Seq<char>) -> Seq<char> {
        match self.language {
            Language::Japanese => "ブランチ `"@ + name + "` を作成"@,
            Language::English => "create the branch `"@ + name + "`"@,
        }
    }

    /// What happens then, with a branch.
    pub fn header_outcome_restore(self, name: &str) -> (text: String)
        ensures
            text@ == self.header_outcome_restore_text(name@),
    {
        match self.language {
            Language::Japanese => concat3("ブランチ `", name, "` を作成"),
            Language::English => concat3("create the branch `", name, "`"),
        }
    }

    pub open spec fn header_outcome_menu_text(self) -> Seq<char> {
        match self.language {
            Language::Japanese => "操作のメニューを開く"@,
            Language::English => "open the menu of actions"@,
        }
    }

    /// What happens then, with a menu.
    pub fn header_outcome_menu(self) -> (text: &'static str)
        ensures
            text@ == self.header_outcome_menu_text(),
    {
        match self.language {
            Language::Japanese => "操作のメニューを開く",
            Language::English => "open the menu of actions",
        }
    }

    pub open spec fn conflicting_actions_text(self) -> Seq<char> {
        match self.language {
            Language::Japanese => "--restore と --action は同時に指定できません"@,
            Language::English => "--restore and --action cannot be used together"@,
        }
    }

    /// Two ways to decide at once.
    pub fn conflicting_actions(self) -> (text: &'static str)
        ensures
            text@ == self.conflicting_actions_text(),
    {
        match self.language {
            Language::Japanese => "--restore と --action は同時に指定できません",
            Language::English => "--restore and --action cannot be used together",
        }
    }

    pub open spec fn read_failed_text(self) -> Seq<char> {
        match self.language {
            Language::Japanese => "HEAD の reflog を取得できませんでした"@,
            Language::English => "could not read the reflog of HEAD"@,
        }
    }

    /// The reflog could not be read.
    pub fn read_failed(self) -> (text: &'static str)
        ensures
            text@ == self.read_failed_text(),
    {
        match self.language {
            Language::Japanese => "HEAD の reflog を取得できませんでした",
            Language::English => "could not read the reflog of HEAD",
        }
    }

    pub open spec fn selection_not_found_text(self, selector: Seq<char>) -> Seq<char> {
        match self.language {
            Language::Japanese => "選択されたエントリ `"@ + selector + "` が候補一覧に見つかりません"@,
            Language::English => "the selected entry `"@ + selector + "` is not among the candidates"@,
        }
    }

    /// A picked entry that was not offered.
    pub fn selection_not_found(self, selector: &str) -> (text: String)
        ensures
            text@ == self.selection_not_found_text(selector@),
    {
        match self.language {
            Language::Japanese => concat3("選択されたエントリ `", selector, "` が候補一覧に見つかりません"),
            Language::English => concat3("the selected entry `", selector, "` is not among the candidates"),
        }
    }

    pub open spec fn branch_creation_failed_text(self, name: Seq<char>) -> Seq<char> {
        match self.language {
            Language::Japanese => "ブランチ `"@ + name + "` の作成に失敗しました"@,
            Language::English => "could not create the branch `"@ + name + "`"@,
        }
    }

    /// Creating the branch failed.
    pub fn branch_creation_failed(self, name: &str) -> (text: String)
        ensures
            text@ == self.branch_creation_failed_text(name@),
    {
        match self.language {
            Language::Japanese => concat3("ブランチ `", name, "` の作成に失敗しました"),
            Language::English => concat3("could not create the branch `", name, "`"),
        }
    }

    pub open spec fn branch_created_text(self, name: Seq<char>, id: Seq<char>) -> Seq<char> {
        match self.language {
            Language::Japanese => "ブランチ `"@ + name + "` を "@ + id + " から作成しました"@,
            Language::English => "created the branch `"@ + name + "` at "@ + id,
        }
    }

    /// The branch was created.
    pub fn branch_created(self, name: &str, id: &str) -> (text: String)
        ensures
            text@ == self.branch_created_text(name@, id@),
    {
        match self.language {
            Language::Japanese => concat5("ブランチ `", name, "` を ", id, " から作成しました"),
            Language::English => concat4("created the branch `", name, "` at ", id),
        }
    }
}

/// What is said in Japanese begins or ends in Japanese.
pub proof fn law_japanese_is_spoken(
    messages: ReflogMessages,
    name: Seq<char>,
    selector: Seq<char>,
    id: Seq<char>,
)
    requires
        messages.language is Japanese,
    ensures
        is_japanese(messages.header_subject_text()),
        is_japanese(messages.header_outcome_print_text()),
        is_japanese(messages.header_outcome_restore_text(name)),
        is_japanese(messages.header_outcome_menu_text()),
        is_japanese(messages.conflicting_actions_text()),
        is_japanese(messages.read_failed_text()),
        is_japanese(messages.selection_not_found_text(selector)),
        is_japanese(messages.branch_creation_failed_text(name)),
        is_japanese(messages.branch_created_text(name, id)),
{
    reveal_strlit("reflog のエントリを選択");
    reveal_strlit("ハッシュを出力");
    reveal_strlit("ブランチ `");
    reveal_strlit("操作のメニューを開く");
    reveal_strlit("--restore と --action は同時に指定できません");
    reveal_strlit("HEAD の reflog を取得できませんでした");
    reveal_strlit("選択されたエントリ `");
}

/// What is said in English begins and ends in plain letters.
pub proof fn law_english_is_spoken(messages: ReflogMessages, name: Seq<char>, selector: Seq<char>)
    requires
        messages.language is English,
    ensures
        is_english(messages.header_subject_text()),
        is_english(messages.header_outcome_print_text()),
        is_english(messages.header_outcome_restore_text(name)),
        is_english(messages.header_outcome_menu_text()),
        is_english(messages.conflicting_actions_text()),
        is_english(messages.read_failed_text()),
        is_english(messages.selection_not_found_text(selector)),
        is_english(messages.branch_creation_failed_text(name)),
{
    reveal_strlit("Pick a reflog entry");
    reveal_strlit("print its hash");
    reveal_strlit("create the branch `");
    reveal_strlit("`");
    reveal_strlit("open the menu of actions");
    reveal_strlit("--restore and --action cannot be used together");
    reveal_strlit("could not read the reflog of HEAD");
    reveal_strlit("the selected entry `");
    reveal_strlit("` is not among the candidates");
    reveal_strlit("could not create the branch `");
}

/// A branch that was created is named first, and then the commit at which it was.
pub proof fn law_a_branch_is_named_before_its_commit(
    messages: ReflogMessages,
    name: &str,
    id: &str,
    created: String,
)
    requires
        call_ensures(ReflogMessages::branch_created, (messages, name, id), created),
    ensures
        messages.language is English ==> created@ == "created the branch `"@ + name@ + "` at "@ + id@,
        messages.language is Japanese ==> created@ == "ブランチ `"@ + name@ + "` を "@ + id@
            + " から作成しました"@,
{
}

/// What a message is given stands in it, in either language.
pub proof fn law_what_is_named_is_there(
    messages: ReflogMessages,
    name: Seq<char>,
    selector: Seq<char>,
    id: Seq<char>,
)
    ensures
        holds(messages.header_outcome_restore_text(name), name),
        holds(messages.selection_not_found_text(selector), selector),
        holds(messages.branch_creation_failed_text(name), name),
        holds(messages.branch_created_text(name, id), name),
        holds(messages.branch_created_text(name, id), id),
{
    match messages.language {
        Language::Japanese => {
            lemma_holds(messages.header_outcome_restore_text(name), name, "ブランチ `"@.len() as int);
            lemma_holds(messages.selection_not_found_text(selector), selector, "選択されたエントリ `"@.len() as int);
            lemma_holds(messages.branch_creation_failed_text(name), name, "ブランチ `"@.len() as int);
            lemma_holds(messages.branch_created_text(name, id), name, "ブランチ `"@.len() as int);
            lemma_holds(messages.branch_created_text(name, id), id, ("ブランチ `"@ + name + "` を "@).len() as int);
        },
        Language::English => {
            lemma_holds(messages.header_outcome_restore_text(name), name, "create the branch `"@.len() as int);
            lemma_holds(messages.selection_not_found_text(selector), selector, "the selected entry `"@.len() as int);
            lemma_holds(messages.branch_creation_failed_text(name), name, "could not create the branch `"@.len() as int);
            lemma_holds(messages.branch_created_text(name, id), name, "created the branch `"@.len() as int);
            lemma_holds(messages.branch_created_text(name, id), id, ("created the branch `"@ + name + "` at "@).len() as int);
        },
    }
}

} // verus!
