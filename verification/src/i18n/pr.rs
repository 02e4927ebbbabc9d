//! Messages of `gz pr`.

use vstd::prelude::*;

use crate::i18n::{holds, is_english, is_japanese, lemma_holds, Language};
use crate::text::{concat2, concat3, concat5, decimal, decimal_text};

verus! {

/// Messages of `gz pr`.
#[derive(Debug, Clone, Copy, PartialEq, Eq)]
pub struct PrMessages {
    pub language: Language,
}

impl PrMessages {
    pub open spec fn fetching_text(self) -> Seq<char> {
        match self.language {
            Language::Japanese => "Pull Request の一覧を取得しています..."@,
            Language::English => "Fetching the pull requests..."@,
        }
    }

    /// The list is being read.
    pub fn fetching(self) -> (text: &'static str)
        ensures
            text@ == self.fetching_text(),
    {
        match self.language {
            Language::Japanese => "Pull Request の一覧を取得しています...",
            Language::English => "Fetching the pull requests...",
        }
    }

    pub open spec fn no_candidates_text(self) -> Seq<char> {
        match self.language {
            Language::Japanese => "開いている Pull Request がありません"@,
            Language::English => "there is no open pull request"@,
        }
    }

    /// There is no pull request.
    pub fn no_candidates(self) -> (text: &'static str)
        ensures
            text@ == self.no_candidates_text(),
    {
        match self.language {
            Language::Japanese => "開いている Pull Request がありません",
            Language::English => "there is no open pull request",
        }
    }

    pub open spec fn header_subject_text(self) -> Seq<char> {
        match self.language {
            Language::Japanese => "checkout する Pull Request を選択"@,
            Language::English => "Pick a pull request"@,
        }
    }

    /// What is picked.
    pub fn header_subject(self) -> (text: &'static str)
        ensures
            text@ == self.header_subject_text(),
    {
        match self.language {
            Language::Japanese => "checkout する Pull Request を選択",
            Language::English => "Pick a pull request",
        }
    }

    pub open spec fn header_outcome_text(self) -> Seq<char> {
        match self.language {
            Language::Japanese => "checkout"@,
            Language::English => "check it out"@,
        }
    }

    /// What happens then.
    pub fn header_outcome(self) -> (text: &'static str)
        ensures
            text@ == self.header_outcome_text(),
    {
        match self.language {
            Language::Japanese => "checkout",
            Language::English => "check it out",
        }
    }

    pub open spec fn selection_not_found_text(self, key: Seq<char>) -> Seq<char> {
        match self.language {
            Language::Japanese => "選択された項目 `"@ + key + "` が候補一覧に見つかりません"@,
            Language::English => "the selected entry `"@ + key + "` is not among the candidates"@,
        }
    }

    /// A picked pull request or action that was not offered.
    pub fn selection_not_found(self, key: &str) -> (text: String)
        ensures
            text@ == self.selection_not_found_text(key@),
    {
        match self.language {
            Language::Japanese => concat3("選択された項目 `", key, "` が候補一覧に見つかりません"),
            Language::English => concat3("the selected entry `", key, "` is not among the candidates"),
        }
    }

    pub open spec fn draft_label_text(self) -> Seq<char> {
        match self.language {
            Language::Japanese => "draft"@,
            Language::English => "draft"@,
        }
    }

    /// A pull request is a draft.
    pub fn draft_label(self) -> (text: &'static str)
        ensures
            text@ == self.draft_label_text(),
    {
        match self.language {
            Language::Japanese => "draft",
            Language::English => "draft",
        }
    }

    pub open spec fn draft_placeholder_text(self) -> Seq<char> {
        match self.language {
            Language::Japanese => "     "@,
            Language::English => "     "@,
        }
    }

    /// As wide as the label.
    pub fn draft_placeholder(self) -> (text: &'static str)
        ensures
            text@ == self.draft_placeholder_text(),
    {
        match self.language {
            Language::Japanese => "     ",
            Language::English => "     ",
        }
    }

    pub open spec fn no_review_text(self) -> Seq<char> {
        match self.language {
            Language::Japanese => "未レビュー"@,
            Language::English => "no review"@,
        }
    }

    /// Nobody has reviewed.
    pub fn no_review(self) -> (text: &'static str)
        ensures
            text@ == self.no_review_text(),
    {
        match self.language {
            Language::Japanese => "未レビュー",
            Language::English => "no review",
        }
    }

    pub open spec fn checks_summary_text(self, passed: usize, failed: usize, pending: usize) -> Seq<char> {
        match self.language {
            Language::Japanese => "成功 "@ + decimal(passed as nat) + " / 失敗 "@ + decimal(failed as nat) + " / 保留 "@ + decimal(pending as nat),
            Language::English => decimal(passed as nat) + " passed / "@ + decimal(failed as nat) + " failed / "@ + decimal(pending as nat) + " pending"@,
        }
    }

    /// How the checks fared.
    pub fn checks_summary(self, passed: usize, failed: usize, pending: usize) -> (text: String)
        ensures
            text@ == self.checks_summary_text(passed, failed, pending),
    {
        match self.language {
            Language::Japanese => {
                let mut text = concat5("成功 ", decimal_text(passed).as_str(), " / 失敗 ", decimal_text(failed).as_str(), " / 保留 ");
                text.append(decimal_text(pending).as_str());
                text
            },
            Language::English => {
                let mut text = concat5(decimal_text(passed).as_str(), " passed / ", decimal_text(failed).as_str(), " failed / ", decimal_text(pending).as_str());
                text.append(" pending");
                text
            },
        }
    }

    pub open spec fn branches_section_text(self) -> Seq<char> {
        match self.language {
            Language::Japanese => "取り込み先"@,
            Language::English => "Into"@,
        }
    }

    /// Where the changes go.
    pub fn branches_section(self) -> (text: &'static str)
        ensures
            text@ == self.branches_section_text(),
    {
        match self.language {
            Language::Japanese => "取り込み先",
            Language::English => "Into",
        }
    }

    pub open spec fn action_header_subject_text(self, number: Seq<char>) -> Seq<char> {
        match self.language {
            Language::Japanese => "Pull Request #"@ + number + " に対する操作を選択"@,
            Language::English => "Pick what to do with #"@ + number,
        }
    }

    /// What is picked.
    pub fn action_header_subject(self, number: &str) -> (text: String)
        ensures
            text@ == self.action_header_subject_text(number@),
    {
        match self.language {
            Language::Japanese => concat3("Pull Request #", number, " に対する操作を選択"),
            Language::English => concat2("Pick what to do with #", number),
        }
    }

    pub open spec fn action_header_outcome_text(self) -> Seq<char> {
        match self.language {
            Language::Japanese => "実行"@,
            Language::English => "do it"@,
        }
    }

    /// What happens then.
    pub fn action_header_outcome(self) -> (text: &'static str)
        ensures
            text@ == self.action_header_outcome_text(),
    {
        match self.language {
            Language::Japanese => "実行",
            Language::English => "do it",
        }
    }

    pub open spec fn action_checkout_text(self) -> Seq<char> {
        match self.language {
            Language::Japanese => "checkout する (gh pr checkout)"@,
            Language::English => "Check it out (gh pr checkout)"@,
        }
    }

    /// Check it out.
    pub fn action_checkout(self) -> (text: &'static str)
        ensures
            text@ == self.action_checkout_text(),
    {
        match self.language {
            Language::Japanese => "checkout する (gh pr checkout)",
            Language::English => "Check it out (gh pr checkout)",
        }
    }

    pub open spec fn action_view_text(self) -> Seq<char> {
        match self.language {
            Language::Japanese => "詳細を表示する (gh pr view)"@,
            Language::English => "Show the details (gh pr view)"@,
        }
    }

    /// Show it.
    pub fn action_view(self) -> (text: &'static str)
        ensures
            text@ == self.action_view_text(),
    {
        match self.language {
            Language::Japanese => "詳細を表示する (gh pr view)",
            Language::English => "Show the details (gh pr view)",
        }
    }

    pub open spec fn action_diff_text(self) -> Seq<char> {
        match self.language {
            Language::Japanese => "差分を表示する (gh pr diff)"@,
            Language::English => "Show the changes (gh pr diff)"@,
        }
    }

    /// Show its changes.
    pub fn action_diff(self) -> (text: &'static str)
        ensures
            text@ == self.action_diff_text(),
    {
        match self.language {
            Language::Japanese => "差分を表示する (gh pr diff)",
            Language::English => "Show the changes (gh pr diff)",
        }
    }

    pub open spec fn action_print_number_text(self) -> Seq<char> {
        match self.language {
            Language::Japanese => "番号を標準出力へ書き出す"@,
            Language::English => "Print the number"@,
        }
    }

    /// Print its number.
    pub fn action_print_number(self) -> (text: &'static str)
        ensures
            text@ == self.action_print_number_text(),
    {
        match self.language {
            Language::Japanese => "番号を標準出力へ書き出す",
            Language::English => "Print the number",
        }
    }

    pub open spec fn action_print_url_text(self) -> Seq<char> {
        match self.language {
            Language::Japanese => "URL を標準出力へ書き出す"@,
            Language::English => "Print the URL"@,
        }
    }

    /// Print its address.
    pub fn action_print_url(self) -> (text: &'static str)
        ensures
            text@ == self.action_print_url_text(),
    {
        match self.language {
            Language::Japanese => "URL を標準出力へ書き出す",
            Language::English => "Print the URL",
        }
    }
}

/// What passed is counted first, then what failed, and last what is pending.
pub proof fn law_checks_are_counted_in_order(
    messages: PrMessages,
    passed: usize,
    failed: usize,
    pending: usize,
    text: String,
)
    requires
        call_ensures(PrMessages::checks_summary, (messages, passed, failed, pending), text),
    ensures
        (decimal(passed as nat) + " passed / "@ + decimal(failed as nat) + " failed / "@ + decimal(
            pending as nat,
        ) + " pending"@ == text@) || ("成功 "@ + decimal(passed as nat) + " / 失敗 "@ + decimal(
            failed as nat,
        ) + " / 保留 "@ + decimal(pending as nat) == text@),
{
}

/// What is said in Japanese begins or ends in Japanese.
pub proof fn law_japanese_is_spoken(
    messages: PrMessages,
    key: Seq<char>,
    passed: usize,
    failed: usize,
    pending: usize,
    number: Seq<char>,
)
    requires
        messages.language is Japanese,
    ensures
        is_japanese(messages.no_candidates_text()),
        is_japanese(messages.header_subject_text()),
        is_japanese(messages.selection_not_found_text(key)),
        is_japanese(messages.no_review_text()),
        is_japanese(messages.checks_summary_text(passed, failed, pending)),
        is_japanese(messages.branches_section_text()),
        is_japanese(messages.action_header_subject_text(number)),
        is_japanese(messages.action_header_outcome_text()),
        is_japanese(messages.action_view_text()),
        is_japanese(messages.action_diff_text()),
        is_japanese(messages.action_print_number_text()),
        is_japanese(messages.action_print_url_text()),
{
    reveal_strlit("開いている Pull Request がありません");
    reveal_strlit("checkout する Pull Request を選択");
    reveal_strlit("選択された項目 `");
    reveal_strlit("未レビュー");
    reveal_strlit("成功 ");
    reveal_strlit("取り込み先");
    reveal_strlit(" に対する操作を選択");
    reveal_strlit("実行");
    reveal_strlit("詳細を表示する (gh pr view)");
    reveal_strlit("差分を表示する (gh pr diff)");
    reveal_strlit("番号を標準出力へ書き出す");
    reveal_strlit("URL を標準出力へ書き出す");
}

/// What is said in English begins and ends in plain letters.
pub proof fn law_english_is_spoken(messages: PrMessages, key: Seq<char>)
    requires
        messages.language is English,
    ensures
        is_english(messages.fetching_text()),
        is_english(messages.no_candidates_text()),
        is_english(messages.header_subject_text()),
        is_english(messages.header_outcome_text()),
        is_english(messages.selection_not_found_text(key)),
        is_english(messages.draft_label_text()),
        is_english(messages.draft_placeholder_text()),
        is_english(messages.no_review_text()),
        is_english(messages.branches_section_text()),
        is_english(messages.action_header_outcome_text()),
        is_english(messages.action_checkout_text()),
        is_english(messages.action_view_text()),
        is_english(messages.action_diff_text()),
        is_english(messages.action_print_number_text()),
        is_english(messages.action_print_url_text()),
{
    reveal_strlit("Fetching the pull requests...");
    reveal_strlit("there is no open pull request");
    reveal_strlit("Pick a pull request");
    reveal_strlit("check it out");
    reveal_strlit("the selected entry `");
    reveal_strlit("` is not among the candidates");
    reveal_strlit("draft");
    reveal_strlit("     ");
    reveal_strlit("no review");
    reveal_strlit("Into");
    reveal_strlit("do it");
    reveal_strlit("Check it out (gh pr checkout)");
    reveal_strlit("Show the details (gh pr view)");
    reveal_strlit("Show the changes (gh pr diff)");
    reveal_strlit("Print the number");
    reveal_strlit("Print the URL");
}

/// What a message is given stands in it, in either language.
pub proof fn law_what_is_named_is_there(
    messages: PrMessages,
    key: Seq<char>,
    passed: usize,
    failed: usize,
    pending: usize,
    number: Seq<char>,
)
    ensures
        holds(messages.selection_not_found_text(key), key),
        holds(messages.checks_summary_text(passed, failed, pending), decimal(passed as nat)),
        holds(messages.checks_summary_text(passed, failed, pending), decimal(failed as nat)),
        holds(messages.checks_summary_text(passed, failed, pending), decimal(pending as nat)),
        holds(messages.action_header_subject_text(number), number),
{
    match messages.language {
        Language::Japanese => {
            lemma_holds(messages.selection_not_found_text(key), key, "選択された項目 `"@.len() as int);
            lemma_holds(messages.checks_summary_text(passed, failed, pending), decimal(passed as nat), "成功 "@.len() as int);
            lemma_holds(messages.checks_summary_text(passed, failed, pending), decimal(failed as nat), ("成功 "@ + decimal(passed as nat) + " / 失敗 "@).len() as int);
            lemma_holds(messages.checks_summary_text(passed, failed, pending), decimal(pending as nat), ("成功 "@ + decimal(passed as nat) + " / 失敗 "@ + decimal(failed as nat) + " / 保留 "@).len() as int);
            lemma_holds(messages.action_header_subject_text(number), number, "Pull Request #"@.len() as int);
        },
        Language::English => {
            lemma_holds(messages.selection_not_found_text(key), key, "the selected entry `"@.len() as int);
            lemma_holds(messages.checks_summary_text(passed, failed, pending), decimal(passed as nat), 0);
            lemma_holds(messages.checks_summary_text(passed, failed, pending), decimal(failed as nat), (decimal(passed as nat) + " passed / "@).len() as int);
            lemma_holds(messages.checks_summary_text(passed, failed, pending), decimal(pending as nat), (decimal(passed as nat) + " passed / "@ + decimal(failed as nat) + " failed / "@).len() as int);
            lemma_holds(messages.action_header_subject_text(number), number, "Pick what to do with #"@.len() as int);
        },
    }
}

} // verus!
