//! Messages of confirmations.

use vstd::prelude::*;

use crate::i18n::{is_english, is_japanese, Language};

verus! {

/// Messages of confirmations.
#[derive(Debug, Clone, Copy, PartialEq, Eq)]
pub struct ConfirmMessages {
    pub language: Language,
}

impl ConfirmMessages {
    pub open spec fn prompt_text(self) -> Seq<char> {
        match self.language {
            Language::Japanese => "実行しますか? [y/N]: "@,
            Language::English => "Continue? [y/N]: "@,
        }
    }

    /// What asks for consent.
    pub fn prompt(self) -> (text: &'static str)
        ensures
            text@ == self.prompt_text(),
    {
        match self.language {
            Language::Japanese => "実行しますか? [y/N]: ",
            Language::English => "Continue? [y/N]: ",
        }
    }

    pub open spec fn cancelled_text(self) -> Seq<char> {
        match self.language {
            Language::Japanese => "中止しました"@,
            Language::English => "Cancelled"@,
        }
    }

    /// Consent was not given.
    pub fn cancelled(self) -> (text: &'static str)
        ensures
            text@ == self.cancelled_text(),
    {
        match self.language {
            Language::Japanese => "中止しました",
            Language::English => "Cancelled",
        }
    }

    pub open spec fn output_failed_text(self) -> Seq<char> {
        match self.language {
            Language::Japanese => "確認内容を表示できませんでした"@,
            Language::English => "could not show the confirmation"@,
        }
    }

    /// The question could not be shown.
    pub fn output_failed(self) -> (text: &'static str)
        ensures
            text@ == self.output_failed_text(),
    {
        match self.language {
            Language::Japanese => "確認内容を表示できませんでした",
            Language::English => "could not show the confirmation",
        }
    }

    pub open spec fn input_failed_text(self) -> Seq<char> {
        match self.language {
            Language::Japanese => "確認の応答を読み取れませんでした"@,
            Language::English => "could not read the answer"@,
        }
    }

    /// The answer could not be read.
    pub fn input_failed(self) -> (text: &'static str)
        ensures
            text@ == self.input_failed_text(),
    {
        match self.language {
            Language::Japanese => "確認の応答を読み取れませんでした",
            Language::English => "could not read the answer",
        }
    }
}

/// What is said in Japanese begins or ends in Japanese.
pub proof fn law_japanese_is_spoken(messages: ConfirmMessages)
    requires
        messages.language is Japanese,
    ensures
        is_japanese(messages.prompt_text()),
        is_japanese(messages.cancelled_text()),
        is_japanese(messages.output_failed_text()),
        is_japanese(messages.input_failed_text()),
{
    reveal_strlit("実行しますか? [y/N]: ");
    reveal_strlit("中止しました");
    reveal_strlit("確認内容を表示できませんでした");
    reveal_strlit("確認の応答を読み取れませんでした");
}

/// What is said in English begins and ends in plain letters.
pub proof fn law_english_is_spoken(messages: ConfirmMessages)
    requires
        messages.language is English,
    ensures
        is_english(messages.prompt_text()),
        is_english(messages.cancelled_text()),
        is_english(messages.output_failed_text()),
        is_english(messages.input_failed_text()),
{
    reveal_strlit("Continue? [y/N]: ");
    reveal_strlit("Cancelled");
    reveal_strlit("could not show the confirmation");
    reveal_strlit("could not read the answer");
}

} // verus!
