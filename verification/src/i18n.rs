//! The languages that messages are written in.

use vstd::prelude::*;

use crate::i18n::common::CommonMessages;
use crate::i18n::file_selection::FileSelectionMessages;
use crate::i18n::branch::BranchMessages;
use crate::i18n::cherry_pick::CherryPickMessages;
use crate::i18n::confirm::ConfirmMessages;
use crate::i18n::commit::CommitMessages;
use crate::i18n::commit_menu::CommitMenuMessages;
use crate::i18n::log::LogMessages;
use crate::i18n::reflog::ReflogMessages;
use crate::i18n::fixup::FixupMessages;
use crate::i18n::in_progress::InProgressMessages;
use crate::i18n::diff::DiffMessages;
use crate::i18n::push::PushMessages;
use crate::i18n::pull::PullMessages;
use crate::i18n::fetch::FetchMessages;
use crate::i18n::pr::PrMessages;
use crate::i18n::cli::CliMessages;

pub mod common;
pub mod file_selection;
pub mod branch;
pub mod cherry_pick;
pub mod confirm;
pub mod commit;
pub mod commit_menu;
pub mod log;
pub mod reflog;
pub mod fixup;
pub mod in_progress;
pub mod diff;
pub mod push;
pub mod pull;
pub mod fetch;
pub mod pr;
pub mod cli;
pub mod resolve;

verus! {

/// A language that messages are written in.
#[derive(Debug, Clone, Copy, PartialEq, Eq, Structural)]
pub enum Language {
    Japanese,
    English,
}

impl Language {
    /// The messages in this language.
    #[verifier::allow_in_spec]
    pub fn messages(self) -> Messages
        returns
            (Messages { language: self }),
    {
        Messages { language: self }
    }
}

/// A noun that agrees with a count.
pub open spec fn one_or_many(count: usize, one: Seq<char>, many: Seq<char>) -> Seq<char> {
    if count == 1 {
        one
    } else {
        many
    }
}

/// Picks the noun that agrees with a count.
pub fn pick_count(count: usize, one: &'static str, many: &'static str) -> (noun: &'static str)
    ensures
        noun@ == one_or_many(count, one@, many@),
{
    if count == 1 {
        one
    } else {
        many
    }
}

/// All messages in one language.
#[derive(Debug, Clone, Copy, PartialEq, Eq)]
pub struct Messages {
    pub language: Language,
}

impl Messages {
    /// Messages that several commands share.
    #[verifier::allow_in_spec]
    pub fn common(self) -> CommonMessages
        returns
            (CommonMessages { language: self.language }),
    {
        CommonMessages { language: self.language }
    }

    /// Messages about picked files.
    #[verifier::allow_in_spec]
    pub fn file_selection(self) -> FileSelectionMessages
        returns
            (FileSelectionMessages { language: self.language }),
    {
        FileSelectionMessages { language: self.language }
    }

    /// Messages of `gz branch`.
    #[verifier::allow_in_spec]
    pub fn branch(self) -> BranchMessages
        returns
            (BranchMessages { language: self.language }),
    {
        BranchMessages { language: self.language }
    }

    /// Messages of `gz cherry-pick`.
    #[verifier::allow_in_spec]
    pub fn cherry_pick(self) -> CherryPickMessages
        returns
            (CherryPickMessages { language: self.language }),
    {
        CherryPickMessages { language: self.language }
    }

    /// Messages of confirmations.
    #[verifier::allow_in_spec]
    pub fn confirm(self) -> ConfirmMessages
        returns
            (ConfirmMessages { language: self.language }),
    {
        ConfirmMessages { language: self.language }
    }

    /// Messages of `gz commit`.
    #[verifier::allow_in_spec]
    pub fn commit(self) -> CommitMessages
        returns
            (CommitMessages { language: self.language }),
    {
        CommitMessages { language: self.language }
    }

    /// Messages of the menu of a commit.
    #[verifier::allow_in_spec]
    pub fn commit_menu(self) -> CommitMenuMessages
        returns
            (CommitMenuMessages { language: self.language }),
    {
        CommitMenuMessages { language: self.language }
    }

    /// Messages of `gz log`.
    #[verifier::allow_in_spec]
    pub fn log(self) -> LogMessages
        returns
            (LogMessages { language: self.language }),
    {
        LogMessages { language: self.language }
    }

    /// Messages of `gz reflog`.
    #[verifier::allow_in_spec]
    pub fn reflog(self) -> ReflogMessages
        returns
            (ReflogMessages { language: self.language }),
    {
        ReflogMessages { language: self.language }
    }

    /// Messages of `gz fixup`.
    #[verifier::allow_in_spec]
    pub fn fixup(self) -> FixupMessages
        returns
            (FixupMessages { language: self.language }),
    {
        FixupMessages { language: self.language }
    }

    /// Messages about a merge or rebase in progress.
    #[verifier::allow_in_spec]
    pub fn in_progress(self) -> InProgressMessages
        returns
            (InProgressMessages { language: self.language }),
    {
        InProgressMessages { language: self.language }
    }

    /// Messages of `gz diff`.
    #[verifier::allow_in_spec]
    pub fn diff(self) -> DiffMessages
        returns
            (DiffMessages { language: self.language }),
    {
        DiffMessages { language: self.language }
    }

    /// Messages of `gz push`.
    #[verifier::allow_in_spec]
    pub fn push(self) -> PushMessages
        returns
            (PushMessages { language: self.language }),
    {
        PushMessages { language: self.language }
    }

    /// Messages of `gz pull`.
    #[verifier::allow_in_spec]
    pub fn pull(self) -> PullMessages
        returns
            (PullMessages { language: self.language }),
    {
        PullMessages { language: self.language }
    }

    /// Messages of `gz fetch`.
    #[verifier::allow_in_spec]
    pub fn fetch(self) -> FetchMessages
        returns
            (FetchMessages { language: self.language }),
    {
        FetchMessages { language: self.language }
    }

    /// Messages of `gz pr`.
    #[verifier::allow_in_spec]
    pub fn pr(self) -> PrMessages
        returns
            (PrMessages { language: self.language }),
    {
        PrMessages { language: self.language }
    }

    /// Help texts of the command line.
    #[verifier::allow_in_spec]
    pub fn cli(self) -> CliMessages
        returns
            (CliMessages { language: self.language }),
    {
        CliMessages { language: self.language }
    }
}

/// One of a thing is told in the singular, and any other number of it in the plural.
pub proof fn law_one_is_singular(
    count: usize,
    one: &'static str,
    many: &'static str,
    noun: &'static str,
)
    requires
        call_ensures(pick_count, (count, one, many), noun),
    ensures
        count == 1 ==> noun@ == one@,
        count != 1 ==> noun@ == many@,
{
}

/// Whether a text begins or ends in Japanese: with a character beyond the symbols of other scripts.
pub open spec fn is_japanese(text: Seq<char>) -> bool {
    text.len() > 0 && (text[0] >= '\u{3000}' || text.last() >= '\u{3000}')
}

/// Whether a text begins and ends in plain letters and signs.
pub open spec fn is_english(text: Seq<char>) -> bool {
    text.len() > 0 && text[0] < '\u{80}' && text.last() < '\u{80}'
}

/// Whether a word stands in a text.
pub open spec fn holds(text: Seq<char>, word: Seq<char>) -> bool {
    exists|at: int|
        0 <= at <= text.len() - word.len() && #[trigger] text.subrange(at, at + word.len()) == word
}

/// A word that stands at some place of a text stands in it.
pub proof fn lemma_holds(text: Seq<char>, word: Seq<char>, at: int)
    requires
        0 <= at <= text.len() - word.len(),
        text.subrange(at, at + word.len()) =~= word,
    ensures
        holds(text, word),
{
}

} // verus!
