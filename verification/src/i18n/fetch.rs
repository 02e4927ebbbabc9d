//! Messages of `gz fetch`.

use vstd::prelude::*;

use crate::i18n::{holds, is_english, is_japanese, lemma_holds, one_or_many, pick_count, Language};
use crate::text::{concat2, concat3, concat5, decimal, decimal_text};

verus! {

/// Messages of `gz fetch`.
#[derive(Debug, Clone, Copy, PartialEq, Eq)]
pub struct FetchMessages {
    pub language: Language,
}

impl FetchMessages {
    pub open spec fn remote_header_subject_text(self) -> Seq<char> {
        match self.language {
            Language::Japanese => "取得するリモートを選択"@,
            Language::English => "Pick a remote"@,
        }
    }

    /// What is picked.
    pub fn remote_header_subject(self) -> (text: &'static str)
        ensures
            text@ == self.remote_header_subject_text(),
    {
        match self.language {
            Language::Japanese => "取得するリモートを選択",
            Language::English => "Pick a remote",
        }
    }

    pub open spec fn remote_header_outcome_text(self) -> Seq<char> {
        match self.language {
            Language::Japanese => "取得 (git fetch)"@,
            Language::English => "fetch it (git fetch)"@,
        }
    }

    /// What happens then.
    pub fn remote_header_outcome(self) -> (text: &'static str)
        ensures
            text@ == self.remote_header_outcome_text(),
    {
        match self.language {
            Language::Japanese => "取得 (git fetch)",
            Language::English => "fetch it (git fetch)",
        }
    }

    pub open spec fn all_remotes_label_text(self) -> Seq<char> {
        match self.language {
            Language::Japanese => "すべてのリモート"@,
            Language::English => "all remotes"@,
        }
    }

    /// All remotes.
    pub fn all_remotes_label(self) -> (text: &'static str)
        ensures
            text@ == self.all_remotes_label_text(),
    {
        match self.language {
            Language::Japanese => "すべてのリモート",
            Language::English => "all remotes",
        }
    }

    pub open spec fn no_remotes_text(self) -> Seq<char> {
        match self.language {
            Language::Japanese => "リモートがありません。git remote add <name> <url> で追加してください"@,
            Language::English => "there is no remote; add one with git remote add <name> <url>"@,
        }
    }

    /// There is no remote.
    pub fn no_remotes(self) -> (text: &'static str)
        ensures
            text@ == self.no_remotes_text(),
    {
        match self.language {
            Language::Japanese => "リモートがありません。git remote add <name> <url> で追加してください",
            Language::English => "there is no remote; add one with git remote add <name> <url>",
        }
    }

    pub open spec fn url_section_text(self) -> Seq<char> {
        match self.language {
            Language::Japanese => "URL"@,
            Language::English => "URLs"@,
        }
    }

    /// Where a remote is.
    pub fn url_section(self) -> (text: &'static str)
        ensures
            text@ == self.url_section_text(),
    {
        match self.language {
            Language::Japanese => "URL",
            Language::English => "URLs",
        }
    }

    pub open spec fn tracking_section_text(self) -> Seq<char> {
        match self.language {
            Language::Japanese => "リモート追跡ブランチ（前回の fetch 時点）"@,
            Language::English => "Remote-tracking branches (as of the last fetch)"@,
        }
    }

    /// What is known of a remote.
    pub fn tracking_section(self) -> (text: &'static str)
        ensures
            text@ == self.tracking_section_text(),
    {
        match self.language {
            Language::Japanese => "リモート追跡ブランチ（前回の fetch 時点）",
            Language::English => "Remote-tracking branches (as of the last fetch)",
        }
    }

    pub open spec fn remote_description_text(self, name: Seq<char>) -> Seq<char> {
        match self.language {
            Language::Japanese => "リモート `"@ + name + "`"@,
            Language::English => "the remote `"@ + name + "`"@,
        }
    }

    /// One remote.
    pub fn remote_description(self, name: &str) -> (text: String)
        ensures
            text@ == self.remote_description_text(name@),
    {
        match self.language {
            Language::Japanese => concat3("リモート `", name, "`"),
            Language::English => concat3("the remote `", name, "`"),
        }
    }

    pub open spec fn fixed_target_text(self, target: Seq<char>) -> Seq<char> {
        match self.language {
            Language::Japanese => target + "を取得します（リモートが 1 つのため選択を省略しました）"@,
            Language::English => "fetching "@ + target + " (the only remote, so nothing had to be picked)"@,
        }
    }

    /// What is fetched without a selection.
    pub fn fixed_target(self, target: &str) -> (text: String)
        ensures
            text@ == self.fixed_target_text(target@),
    {
        match self.language {
            Language::Japanese => concat2(target, "を取得します（リモートが 1 つのため選択を省略しました）"),
            Language::English => concat3("fetching ", target, " (the only remote, so nothing had to be picked)"),
        }
    }

    pub open spec fn fetch_failed_text(self, target: Seq<char>) -> Seq<char> {
        match self.language {
            Language::Japanese => target + "の取得に失敗しました"@,
            Language::English => "could not fetch "@ + target,
        }
    }

    /// Fetching failed.
    pub fn fetch_failed(self, target: &str) -> (text: String)
        ensures
            text@ == self.fetch_failed_text(target@),
    {
        match self.language {
            Language::Japanese => concat2(target, "の取得に失敗しました"),
            Language::English => concat2("could not fetch ", target),
        }
    }

    pub open spec fn selection_not_found_text(self, name: Seq<char>) -> Seq<char> {
        match self.language {
            Language::Japanese => "選択されたリモート `"@ + name + "` が候補一覧に見つかりません"@,
            Language::English => "the selected remote `"@ + name + "` is not among the candidates"@,
        }
    }

    /// A picked remote that was not offered.
    pub fn selection_not_found(self, name: &str) -> (text: String)
        ensures
            text@ == self.selection_not_found_text(name@),
    {
        match self.language {
            Language::Japanese => concat3("選択されたリモート `", name, "` が候補一覧に見つかりません"),
            Language::English => concat3("the selected remote `", name, "` is not among the candidates"),
        }
    }

    pub open spec fn sibling_scan_failed_text(self) -> Seq<char> {
        match self.language {
            Language::Japanese => "兄弟リポジトリの一覧を取得できませんでした"@,
            Language::English => "could not read the sibling repositories"@,
        }
    }

    /// The repositories could not be read.
    pub fn sibling_scan_failed(self) -> (text: &'static str)
        ensures
            text@ == self.sibling_scan_failed_text(),
    {
        match self.language {
            Language::Japanese => "兄弟リポジトリの一覧を取得できませんでした",
            Language::English => "could not read the sibling repositories",
        }
    }

    pub open spec fn no_sibling_candidates_text(self) -> Seq<char> {
        match self.language {
            Language::Japanese => "取得できるリポジトリがありません。リモートを持つリポジトリが必要です"@,
            Language::English => "no repository can be fetched; one that has a remote is needed"@,
        }
    }

    /// No repository can be fetched.
    pub fn no_sibling_candidates(self) -> (text: &'static str)
        ensures
            text@ == self.no_sibling_candidates_text(),
    {
        match self.language {
            Language::Japanese => "取得できるリポジトリがありません。リモートを持つリポジトリが必要です",
            Language::English => "no repository can be fetched; one that has a remote is needed",
        }
    }

    pub open spec fn single_sibling_reason_text(self) -> Seq<char> {
        match self.language {
            Language::Japanese => "対象が現在のリポジトリだけのため選択を省略しました"@,
            Language::English => "the current repository is the only candidate, so nothing had to be picked"@,
        }
    }

    /// Why nothing is picked.
    pub fn single_sibling_reason(self) -> (text: &'static str)
        ensures
            text@ == self.single_sibling_reason_text(),
    {
        match self.language {
            Language::Japanese => "対象が現在のリポジトリだけのため選択を省略しました",
            Language::English => "the current repository is the only candidate, so nothing had to be picked",
        }
    }

    pub open spec fn siblings_header_text(self) -> Seq<char> {
        match self.language {
            Language::Japanese => "Tab: 選択の切替  |  Enter: 選択したリポジトリを取得"@,
            Language::English => "Tab: toggle  |  Enter: fetch the selected repositories"@,
        }
    }

    /// What the keys do.
    pub fn siblings_header(self) -> (text: &'static str)
        ensures
            text@ == self.siblings_header_text(),
    {
        match self.language {
            Language::Japanese => "Tab: 選択の切替  |  Enter: 選択したリポジトリを取得",
            Language::English => "Tab: toggle  |  Enter: fetch the selected repositories",
        }
    }

    pub open spec fn excluded_count_text(self, count: usize) -> Seq<char> {
        match self.language {
            Language::Japanese => decimal(count as nat) + " 件を除外（リモートなし）"@,
            Language::English => decimal(count as nat) + " left out (no remote)"@,
        }
    }

    /// How many repositories are not offered.
    pub fn excluded_count(self, count: usize) -> (text: String)
        ensures
            text@ == self.excluded_count_text(count),
    {
        match self.language {
            Language::Japanese => concat2(decimal_text(count).as_str(), " 件を除外（リモートなし）"),
            Language::English => concat2(decimal_text(count).as_str(), " left out (no remote)"),
        }
    }

    pub open spec fn prune_scope_note_text(self) -> Seq<char> {
        match self.language {
            Language::Japanese => "--prune は選択したすべてのリポジトリに適用されます"@,
            Language::English => "--prune applies to every selected repository"@,
        }
    }

    /// What pruning applies to.
    pub fn prune_scope_note(self) -> (text: &'static str)
        ensures
            text@ == self.prune_scope_note_text(),
    {
        match self.language {
            Language::Japanese => "--prune は選択したすべてのリポジトリに適用されます",
            Language::English => "--prune applies to every selected repository",
        }
    }

    pub open spec fn tracking_state_section_text(self) -> Seq<char> {
        match self.language {
            Language::Japanese => "ブランチの追跡状況（前回の fetch 時点）"@,
            Language::English => "Tracking state of the branches (as of the last fetch)"@,
        }
    }

    /// How the branches follow their upstreams.
    pub fn tracking_state_section(self) -> (text: &'static str)
        ensures
            text@ == self.tracking_state_section_text(),
    {
        match self.language {
            Language::Japanese => "ブランチの追跡状況（前回の fetch 時点）",
            Language::English => "Tracking state of the branches (as of the last fetch)",
        }
    }

    pub open spec fn path_not_utf8_text(self, path: Seq<char>) -> Seq<char> {
        match self.language {
            Language::Japanese => "パスを文字列として扱えません: "@ + path,
            Language::English => "the path is not valid text: "@ + path,
        }
    }

    /// A path that is no text.
    pub fn path_not_utf8(self, path: &str) -> (text: String)
        ensures
            text@ == self.path_not_utf8_text(path@),
    {
        match self.language {
            Language::Japanese => concat2("パスを文字列として扱えません: ", path),
            Language::English => concat2("the path is not valid text: ", path),
        }
    }

    pub open spec fn sibling_selection_not_found_text(self, keys: Seq<char>) -> Seq<char> {
        match self.language {
            Language::Japanese => "選択されたリポジトリが候補一覧に見つかりません: "@ + keys,
            Language::English => "the selected repositories are not among the candidates: "@ + keys,
        }
    }

    /// Picked repositories that were not offered.
    pub fn sibling_selection_not_found(self, keys: &str) -> (text: String)
        ensures
            text@ == self.sibling_selection_not_found_text(keys@),
    {
        match self.language {
            Language::Japanese => concat2("選択されたリポジトリが候補一覧に見つかりません: ", keys),
            Language::English => concat2("the selected repositories are not among the candidates: ", keys),
        }
    }

    pub open spec fn sibling_start_failed_text(self, name: Seq<char>) -> Seq<char> {
        match self.language {
            Language::Japanese => "リポジトリ `"@ + name + "` の取得を開始できませんでした"@,
            Language::English => "could not start fetching the repository `"@ + name + "`"@,
        }
    }

    /// Fetching a repository did not start.
    pub fn sibling_start_failed(self, name: &str) -> (text: String)
        ensures
            text@ == self.sibling_start_failed_text(name@),
    {
        match self.language {
            Language::Japanese => concat3("リポジトリ `", name, "` の取得を開始できませんでした"),
            Language::English => concat3("could not start fetching the repository `", name, "`"),
        }
    }

    pub open spec fn serial_fallback_text(self, count: usize) -> Seq<char> {
        match self.language {
            Language::Japanese => "並列で取得できなかった "@ + decimal(count as nat) + " 件を 1 件ずつ実行し直します"@,
            Language::English => "running "@ + decimal(count as nat) + " "@ + one_or_many(count, "repository that"@, "repositories that"@) + " failed again, one at a time"@,
        }
    }

    /// What failed is run again.
    pub fn serial_fallback(self, count: usize) -> (text: String)
        ensures
            text@ == self.serial_fallback_text(count),
    {
        match self.language {
            Language::Japanese => concat3("並列で取得できなかった ", decimal_text(count).as_str(), " 件を 1 件ずつ実行し直します"),
            Language::English => concat5("running ", decimal_text(count).as_str(), " ", pick_count(count, "repository that", "repositories that"), " failed again, one at a time"),
        }
    }

    pub open spec fn partial_failure_text(self) -> Seq<char> {
        match self.language {
            Language::Japanese => "取得に失敗したリポジトリがあります"@,
            Language::English => "some repositories could not be fetched"@,
        }
    }

    /// Some repositories failed.
    pub fn partial_failure(self) -> (text: &'static str)
        ensures
            text@ == self.partial_failure_text(),
    {
        match self.language {
            Language::Japanese => "取得に失敗したリポジトリがあります",
            Language::English => "some repositories could not be fetched",
        }
    }

    pub open spec fn notification_title_text(self) -> Seq<char> {
        match self.language {
            Language::Japanese => "gz fetch が完了しました"@,
            Language::English => "gz fetch has finished"@,
        }
    }

    /// What a notification is about.
    pub fn notification_title(self) -> (text: &'static str)
        ensures
            text@ == self.notification_title_text(),
    {
        match self.language {
            Language::Japanese => "gz fetch が完了しました",
            Language::English => "gz fetch has finished",
        }
    }
}

/// What is said in Japanese begins or ends in Japanese.
pub proof fn law_japanese_is_spoken(
    messages: FetchMessages,
    name: Seq<char>,
    target: Seq<char>,
    count: usize,
    path: Seq<char>,
    keys: Seq<char>,
)
    requires
        messages.language is Japanese,
    ensures
        is_japanese(messages.remote_header_subject_text()),
        is_japanese(messages.remote_header_outcome_text()),
        is_japanese(messages.all_remotes_label_text()),
        is_japanese(messages.no_remotes_text()),
        is_japanese(messages.tracking_section_text()),
        is_japanese(messages.remote_description_text(name)),
        is_japanese(messages.fixed_target_text(target)),
        is_japanese(messages.fetch_failed_text(target)),
        is_japanese(messages.selection_not_found_text(name)),
        is_japanese(messages.sibling_scan_failed_text()),
        is_japanese(messages.no_sibling_candidates_text()),
        is_japanese(messages.single_sibling_reason_text()),
        is_japanese(messages.siblings_header_text()),
        is_japanese(messages.excluded_count_text(count)),
        is_japanese(messages.prune_scope_note_text()),
        is_japanese(messages.tracking_state_section_text()),
        is_japanese(messages.path_not_utf8_text(path)),
        is_japanese(messages.sibling_selection_not_found_text(keys)),
        is_japanese(messages.sibling_start_failed_text(name)),
        is_japanese(messages.serial_fallback_text(count)),
        is_japanese(messages.partial_failure_text()),
        is_japanese(messages.notification_title_text()),
{
    reveal_strlit("取得するリモートを選択");
    reveal_strlit("取得 (git fetch)");
    reveal_strlit("すべてのリモート");
    reveal_strlit("リモートがありません。git remote add <name> <url> で追加してください");
    reveal_strlit("リモート追跡ブランチ（前回の fetch 時点）");
    reveal_strlit("リモート `");
    reveal_strlit("を取得します（リモートが 1 つのため選択を省略しました）");
    reveal_strlit("の取得に失敗しました");
    reveal_strlit("選択されたリモート `");
    reveal_strlit("兄弟リポジトリの一覧を取得できませんでした");
    reveal_strlit("取得できるリポジトリがありません。リモートを持つリポジトリが必要です");
    reveal_strlit("対象が現在のリポジトリだけのため選択を省略しました");
    reveal_strlit("Tab: 選択の切替  |  Enter: 選択したリポジトリを取得");
    reveal_strlit(" 件を除外（リモートなし）");
    reveal_strlit("--prune は選択したすべてのリポジトリに適用されます");
    reveal_strlit("ブランチの追跡状況（前回の fetch 時点）");
    reveal_strlit("パスを文字列として扱えません: ");
    reveal_strlit("選択されたリポジトリが候補一覧に見つかりません: ");
    reveal_strlit("リポジトリ `");
    reveal_strlit("並列で取得できなかった ");
    reveal_strlit("取得に失敗したリポジトリがあります");
    reveal_strlit("gz fetch が完了しました");
}

/// What is said in English begins and ends in plain letters.
pub proof fn law_english_is_spoken(
    messages: FetchMessages,
    name: Seq<char>,
    target: Seq<char>,
    count: usize,
)
    requires
        messages.language is English,
    ensures
        is_english(messages.remote_header_subject_text()),
        is_english(messages.remote_header_outcome_text()),
        is_english(messages.all_remotes_label_text()),
        is_english(messages.no_remotes_text()),
        is_english(messages.url_section_text()),
        is_english(messages.tracking_section_text()),
        is_english(messages.remote_description_text(name)),
        is_english(messages.fixed_target_text(target)),
        is_english(messages.selection_not_found_text(name)),
        is_english(messages.sibling_scan_failed_text()),
        is_english(messages.no_sibling_candidates_text()),
        is_english(messages.single_sibling_reason_text()),
        is_english(messages.siblings_header_text()),
        is_english(messages.prune_scope_note_text()),
        is_english(messages.tracking_state_section_text()),
        is_english(messages.sibling_start_failed_text(name)),
        is_english(messages.serial_fallback_text(count)),
        is_english(messages.partial_failure_text()),
        is_english(messages.notification_title_text()),
{
    reveal_strlit("Pick a remote");
    reveal_strlit("fetch it (git fetch)");
    reveal_strlit("all remotes");
    reveal_strlit("there is no remote; add one with git remote add <name> <url>");
    reveal_strlit("URLs");
    reveal_strlit("Remote-tracking branches (as of the last fetch)");
    reveal_strlit("the remote `");
    reveal_strlit("`");
    reveal_strlit("fetching ");
    reveal_strlit(" (the only remote, so nothing had to be picked)");
    reveal_strlit("the selected remote `");
    reveal_strlit("` is not among the candidates");
    reveal_strlit("could not read the sibling repositories");
    reveal_strlit("no repository can be fetched; one that has a remote is needed");
    reveal_strlit("the current repository is the only candidate, so nothing had to be picked");
    reveal_strlit("Tab: toggle  |  Enter: fetch the selected repositories");
    reveal_strlit("--prune applies to every selected repository");
    reveal_strlit("Tracking state of the branches (as of the last fetch)");
    reveal_strlit("could not start fetching the repository `");
    reveal_strlit("running ");
    reveal_strlit(" failed again, one at a time");
    reveal_strlit("some repositories could not be fetched");
    reveal_strlit("gz fetch has finished");
}

/// What a message is given stands in it, in either language.
pub proof fn law_what_is_named_is_there(
    messages: FetchMessages,
    name: Seq<char>,
    target: Seq<char>,
    count: usize,
    path: Seq<char>,
    keys: Seq<char>,
)
    ensures
        holds(messages.remote_description_text(name), name),
        holds(messages.fixed_target_text(target), target),
        holds(messages.fetch_failed_text(target), target),
        holds(messages.selection_not_found_text(name), name),
        holds(messages.excluded_count_text(count), decimal(count as nat)),
        holds(messages.path_not_utf8_text(path), path),
        holds(messages.sibling_selection_not_found_text(keys), keys),
        holds(messages.sibling_start_failed_text(name), name),
        holds(messages.serial_fallback_text(count), decimal(count as nat)),
{
    match messages.language {
        Language::Japanese => {
            lemma_holds(messages.remote_description_text(name), name, "リモート `"@.len() as int);
            lemma_holds(messages.fixed_target_text(target), target, 0);
            lemma_holds(messages.fetch_failed_text(target), target, 0);
            lemma_holds(messages.selection_not_found_text(name), name, "選択されたリモート `"@.len() as int);
            lemma_holds(messages.excluded_count_text(count), decimal(count as nat), 0);
            lemma_holds(messages.path_not_utf8_text(path), path, "パスを文字列として扱えません: "@.len() as int);
            lemma_holds(messages.sibling_selection_not_found_text(keys), keys, "選択されたリポジトリが候補一覧に見つかりません: "@.len() as int);
            lemma_holds(messages.sibling_start_failed_text(name), name, "リポジトリ `"@.len() as int);
            lemma_holds(messages.serial_fallback_text(count), decimal(count as nat), "並列で取得できなかった "@.len() as int);
        },
        Language::English => {
            lemma_holds(messages.remote_description_text(name), name, "the remote `"@.len() as int);
            lemma_holds(messages.fixed_target_text(target), target, "fetching "@.len() as int);
            lemma_holds(messages.fetch_failed_text(target), target, "could not fetch "@.len() as int);
            lemma_holds(messages.selection_not_found_text(name), name, "the selected remote `"@.len() as int);
            lemma_holds(messages.excluded_count_text(count), decimal(count as nat), 0);
            lemma_holds(messages.path_not_utf8_text(path), path, "the path is not valid text: "@.len() as int);
            lemma_holds(messages.sibling_selection_not_found_text(keys), keys, "the selected repositories are not among the candidates: "@.len() as int);
            lemma_holds(messages.sibling_start_failed_text(name), name, "could not start fetching the repository `"@.len() as int);
            lemma_holds(messages.serial_fallback_text(count), decimal(count as nat), "running "@.len() as int);
        },
    }
}

} // verus!
