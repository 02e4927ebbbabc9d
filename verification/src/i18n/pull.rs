//! Messages of `gz pull`.

use vstd::prelude::*;

use crate::i18n::{holds, is_english, is_japanese, lemma_holds, one_or_many, pick_count, Language};
use crate::text::{concat2, concat3, concat4, concat5, decimal, decimal_text};

verus! {

/// Messages of `gz pull`.
#[derive(Debug, Clone, Copy, PartialEq, Eq)]
pub struct PullMessages {
    pub language: Language,
}

impl PullMessages {
    pub open spec fn targets_read_failed_text(self) -> Seq<char> {
        match self.language {
            Language::Japanese => "追随させるブランチの候補を取得できませんでした"@,
            Language::English => "could not read the branches that can be pulled"@,
        }
    }

    /// The branches could not be read.
    pub fn targets_read_failed(self) -> (text: &'static str)
        ensures
            text@ == self.targets_read_failed_text(),
    {
        match self.language {
            Language::Japanese => "追随させるブランチの候補を取得できませんでした",
            Language::English => "could not read the branches that can be pulled",
        }
    }

    pub open spec fn no_candidates_text(self) -> Seq<char> {
        match self.language {
            Language::Japanese => "upstream を持つブランチがありません。`git push -u <remote> <branch>` で push するか、`git branch --set-upstream-to=<remote>/<branch>` で upstream を設定してください"@,
            Language::English => "no branch has an upstream; push one with `git push -u <remote> <branch>`, or set it with `git branch --set-upstream-to=<remote>/<branch>`"@,
        }
    }

    /// No branch has an upstream.
    pub fn no_candidates(self) -> (text: &'static str)
        ensures
            text@ == self.no_candidates_text(),
    {
        match self.language {
            Language::Japanese => "upstream を持つブランチがありません。`git push -u <remote> <branch>` で push するか、`git branch --set-upstream-to=<remote>/<branch>` で upstream を設定してください",
            Language::English => "no branch has an upstream; push one with `git push -u <remote> <branch>`, or set it with `git branch --set-upstream-to=<remote>/<branch>`",
        }
    }

    pub open spec fn header_text(self) -> Seq<char> {
        match self.language {
            Language::Japanese => "Tab: 選択の切替  |  Enter: 選択したブランチを upstream へ追随（fast-forward のみ）"@,
            Language::English => "Tab: toggle  |  Enter: update the selected branches (fast-forward only)"@,
        }
    }

    /// What the keys do.
    pub fn header(self) -> (text: &'static str)
        ensures
            text@ == self.header_text(),
    {
        match self.language {
            Language::Japanese => "Tab: 選択の切替  |  Enter: 選択したブランチを upstream へ追随（fast-forward のみ）",
            Language::English => "Tab: toggle  |  Enter: update the selected branches (fast-forward only)",
        }
    }

    pub open spec fn excluded_count_text(self, count: usize) -> Seq<char> {
        match self.language {
            Language::Japanese => decimal(count as nat) + " 件を除外（upstream なし）"@,
            Language::English => decimal(count as nat) + " left out (no upstream)"@,
        }
    }

    /// How many branches are not offered.
    pub fn excluded_count(self, count: usize) -> (text: String)
        ensures
            text@ == self.excluded_count_text(count),
    {
        match self.language {
            Language::Japanese => concat2(decimal_text(count).as_str(), " 件を除外（upstream なし）"),
            Language::English => concat2(decimal_text(count).as_str(), " left out (no upstream)"),
        }
    }

    pub open spec fn single_target_reason_text(self) -> Seq<char> {
        match self.language {
            Language::Japanese => "候補が 1 件のため選択を省略しました"@,
            Language::English => "the only candidate, so nothing had to be picked"@,
        }
    }

    /// Why nothing is picked.
    pub fn single_target_reason(self) -> (text: &'static str)
        ensures
            text@ == self.single_target_reason_text(),
    {
        match self.language {
            Language::Japanese => "候補が 1 件のため選択を省略しました",
            Language::English => "the only candidate, so nothing had to be picked",
        }
    }

    pub open spec fn fixed_target_text(self, branch: Seq<char>) -> Seq<char> {
        match self.language {
            Language::Japanese => "`"@ + branch + "` を取り込みます（候補が 1 件のため選択を省略しました）"@,
            Language::English => "pulling `"@ + branch + "` (the only candidate, so nothing had to be picked)"@,
        }
    }

    /// What is pulled without a selection.
    pub fn fixed_target(self, branch: &str) -> (text: String)
        ensures
            text@ == self.fixed_target_text(branch@),
    {
        match self.language {
            Language::Japanese => concat3("`", branch, "` を取り込みます（候補が 1 件のため選択を省略しました）"),
            Language::English => concat3("pulling `", branch, "` (the only candidate, so nothing had to be picked)"),
        }
    }

    pub open spec fn unmerged_section_text(self) -> Seq<char> {
        match self.language {
            Language::Japanese => "取り込まれるコミット（前回の fetch 時点）"@,
            Language::English => "Commits to be integrated (as of the last fetch)"@,
        }
    }

    /// Commits that are not merged.
    pub fn unmerged_section(self) -> (text: &'static str)
        ensures
            text@ == self.unmerged_section_text(),
    {
        match self.language {
            Language::Japanese => "取り込まれるコミット（前回の fetch 時点）",
            Language::English => "Commits to be integrated (as of the last fetch)",
        }
    }

    pub open spec fn selection_not_found_text(self, branches: Seq<char>) -> Seq<char> {
        match self.language {
            Language::Japanese => "選択されたブランチが候補一覧に見つかりません: "@ + branches,
            Language::English => "the selected branches are not among the candidates: "@ + branches,
        }
    }

    /// Picked branches that were not offered.
    pub fn selection_not_found(self, branches: &str) -> (text: String)
        ensures
            text@ == self.selection_not_found_text(branches@),
    {
        match self.language {
            Language::Japanese => concat2("選択されたブランチが候補一覧に見つかりません: ", branches),
            Language::English => concat2("the selected branches are not among the candidates: ", branches),
        }
    }

    pub open spec fn skipped_text(self, remote: Seq<char>, branch: Seq<char>) -> Seq<char> {
        match self.language {
            Language::Japanese => "リモート `"@ + remote + "` を取得できなかったため `"@ + branch + "` の取り込みを飛ばします"@,
            Language::English => "skipping `"@ + branch + "`: the remote `"@ + remote + "` could not be fetched"@,
        }
    }

    /// A branch is skipped.
    pub fn skipped(self, remote: &str, branch: &str) -> (text: String)
        ensures
            text@ == self.skipped_text(remote@, branch@),
    {
        match self.language {
            Language::Japanese => concat5("リモート `", remote, "` を取得できなかったため `", branch, "` の取り込みを飛ばします"),
            Language::English => concat5("skipping `", branch, "`: the remote `", remote, "` could not be fetched"),
        }
    }

    pub open spec fn fetch_start_failed_text(self, remote: Seq<char>) -> Seq<char> {
        match self.language {
            Language::Japanese => "リモート `"@ + remote + "` の取得を開始できませんでした"@,
            Language::English => "could not start fetching the remote `"@ + remote + "`"@,
        }
    }

    /// Fetching a remote did not start.
    pub fn fetch_start_failed(self, remote: &str) -> (text: String)
        ensures
            text@ == self.fetch_start_failed_text(remote@),
    {
        match self.language {
            Language::Japanese => concat3("リモート `", remote, "` の取得を開始できませんでした"),
            Language::English => concat3("could not start fetching the remote `", remote, "`"),
        }
    }

    pub open spec fn integration_start_failed_text(self, branch: Seq<char>) -> Seq<char> {
        match self.language {
            Language::Japanese => "ブランチ `"@ + branch + "` の取り込みを開始できませんでした"@,
            Language::English => "could not start integrating the branch `"@ + branch + "`"@,
        }
    }

    /// Integrating a branch did not start.
    pub fn integration_start_failed(self, branch: &str) -> (text: String)
        ensures
            text@ == self.integration_start_failed_text(branch@),
    {
        match self.language {
            Language::Japanese => concat3("ブランチ `", branch, "` の取り込みを開始できませんでした"),
            Language::English => concat3("could not start integrating the branch `", branch, "`"),
        }
    }

    pub open spec fn fast_forward_guidance_text(self) -> Seq<char> {
        match self.language {
            Language::Japanese => "fast-forward できないブランチは、切り替えたうえで `gz pull --rebase` または `gz pull --merge` で取り込めます"@,
            Language::English => "switch to a branch that cannot be fast-forwarded and use `gz pull --rebase` or `gz pull --merge`"@,
        }
    }

    /// What to do about a divergence.
    pub fn fast_forward_guidance(self) -> (text: &'static str)
        ensures
            text@ == self.fast_forward_guidance_text(),
    {
        match self.language {
            Language::Japanese => "fast-forward できないブランチは、切り替えたうえで `gz pull --rebase` または `gz pull --merge` で取り込めます",
            Language::English => "switch to a branch that cannot be fast-forwarded and use `gz pull --rebase` or `gz pull --merge`",
        }
    }

    pub open spec fn partial_failure_text(self) -> Seq<char> {
        match self.language {
            Language::Japanese => "取り込みに失敗したブランチがあります"@,
            Language::English => "some branches could not be pulled"@,
        }
    }

    /// Some branches failed.
    pub fn partial_failure(self) -> (text: &'static str)
        ensures
            text@ == self.partial_failure_text(),
    {
        match self.language {
            Language::Japanese => "取り込みに失敗したブランチがあります",
            Language::English => "some branches could not be pulled",
        }
    }

    pub open spec fn notification_title_text(self) -> Seq<char> {
        match self.language {
            Language::Japanese => "gz pull が完了しました"@,
            Language::English => "gz pull has finished"@,
        }
    }

    /// What a notification is about.
    pub fn notification_title(self) -> (text: &'static str)
        ensures
            text@ == self.notification_title_text(),
    {
        match self.language {
            Language::Japanese => "gz pull が完了しました",
            Language::English => "gz pull has finished",
        }
    }

    pub open spec fn conflicting_modes_text(self) -> Seq<char> {
        match self.language {
            Language::Japanese => "`--rebase` と `--merge` は同時に指定できません"@,
            Language::English => "`--rebase` and `--merge` cannot be used together"@,
        }
    }

    /// Two ways at once.
    pub fn conflicting_modes(self) -> (text: &'static str)
        ensures
            text@ == self.conflicting_modes_text(),
    {
        match self.language {
            Language::Japanese => "`--rebase` と `--merge` は同時に指定できません",
            Language::English => "`--rebase` and `--merge` cannot be used together",
        }
    }

    pub open spec fn fetch_failed_text(self, remote: Seq<char>) -> Seq<char> {
        match self.language {
            Language::Japanese => "リモート `"@ + remote + "` の取得に失敗しました"@,
            Language::English => "could not fetch the remote `"@ + remote + "`"@,
        }
    }

    /// Fetching a remote failed.
    pub fn fetch_failed(self, remote: &str) -> (text: String)
        ensures
            text@ == self.fetch_failed_text(remote@),
    {
        match self.language {
            Language::Japanese => concat3("リモート `", remote, "` の取得に失敗しました"),
            Language::English => concat3("could not fetch the remote `", remote, "`"),
        }
    }

    pub open spec fn tracking_ref_unavailable_text(self, branch: Seq<char>, remote: Seq<char>, merge_ref: Seq<char>) -> Seq<char> {
        match self.language {
            Language::Japanese => "ブランチ `"@ + branch + "` の upstream（"@ + remote + " の "@ + merge_ref + "）に対応する追跡参照がありません"@,
            Language::English => "the upstream of `"@ + branch + "` ("@ + merge_ref + " of "@ + remote + ") has no tracking ref"@,
        }
    }

    /// The upstream has no reference.
    pub fn tracking_ref_unavailable(self, branch: &str, remote: &str, merge_ref: &str) -> (text: String)
        ensures
            text@ == self.tracking_ref_unavailable_text(branch@, remote@, merge_ref@),
    {
        match self.language {
            Language::Japanese => {
                let mut text = concat5("ブランチ `", branch, "` の upstream（", remote, " の ");
                text.append(merge_ref);
                text.append("）に対応する追跡参照がありません");
                text
            },
            Language::English => {
                let mut text = concat5("the upstream of `", branch, "` (", merge_ref, " of ");
                text.append(remote);
                text.append(") has no tracking ref");
                text
            },
        }
    }

    pub open spec fn unknown_remote_text(self, branch: Seq<char>, remote: Seq<char>) -> Seq<char> {
        match self.language {
            Language::Japanese => "ブランチ `"@ + branch + "` の upstream のリモート `"@ + remote + "` は登録されていません"@,
            Language::English => "the remote `"@ + remote + "`, which `"@ + branch + "` follows, is not registered"@,
        }
    }

    /// The remote of the upstream is not registered.
    pub fn unknown_remote(self, branch: &str, remote: &str) -> (text: String)
        ensures
            text@ == self.unknown_remote_text(branch@, remote@),
    {
        match self.language {
            Language::Japanese => concat5("ブランチ `", branch, "` の upstream のリモート `", remote, "` は登録されていません"),
            Language::English => concat5("the remote `", remote, "`, which `", branch, "` follows, is not registered"),
        }
    }

    pub open spec fn missing_tracking_ref_text(self, reference: Seq<char>, remote: Seq<char>, branch: Seq<char>) -> Seq<char> {
        match self.language {
            Language::Japanese => "`"@ + reference + "` がありません。リモート `"@ + remote + "` にブランチ `"@ + branch + "` が存在するか確認してください"@,
            Language::English => "there is no `"@ + reference + "`; check that the remote `"@ + remote + "` has what the branch `"@ + branch + "` follows"@,
        }
    }

    /// The reference did not appear.
    pub fn missing_tracking_ref(self, reference: &str, remote: &str, branch: &str) -> (text: String)
        ensures
            text@ == self.missing_tracking_ref_text(reference@, remote@, branch@),
    {
        match self.language {
            Language::Japanese => {
                let mut text = concat5("`", reference, "` がありません。リモート `", remote, "` にブランチ `");
                text.append(branch);
                text.append("` が存在するか確認してください");
                text
            },
            Language::English => {
                let mut text = concat5("there is no `", reference, "`; check that the remote `", remote, "` has what the branch `");
                text.append(branch);
                text.append("` follows");
                text
            },
        }
    }

    pub open spec fn up_to_date_text(self, branch: Seq<char>, reference: Seq<char>) -> Seq<char> {
        match self.language {
            Language::Japanese => "ブランチ `"@ + branch + "` は `"@ + reference + "` に対して最新です"@,
            Language::English => "the branch `"@ + branch + "` is up to date with `"@ + reference + "`"@,
        }
    }

    /// There is nothing to integrate.
    pub fn up_to_date(self, branch: &str, reference: &str) -> (text: String)
        ensures
            text@ == self.up_to_date_text(branch@, reference@),
    {
        match self.language {
            Language::Japanese => concat5("ブランチ `", branch, "` は `", reference, "` に対して最新です"),
            Language::English => concat5("the branch `", branch, "` is up to date with `", reference, "`"),
        }
    }

    pub open spec fn unpushed_commits_text(self, count: usize) -> Seq<char> {
        match self.language {
            Language::Japanese => "まだ push していないコミットが "@ + decimal(count as nat) + " 件あります"@,
            Language::English => decimal(count as nat) + " "@ + one_or_many(count, "commit has"@, "commits have"@) + " not been pushed yet"@,
        }
    }

    /// Commits that are not pushed.
    pub fn unpushed_commits(self, count: usize) -> (text: String)
        ensures
            text@ == self.unpushed_commits_text(count),
    {
        match self.language {
            Language::Japanese => concat3("まだ push していないコミットが ", decimal_text(count).as_str(), " 件あります"),
            Language::English => concat4(decimal_text(count).as_str(), " ", pick_count(count, "commit has", "commits have"), " not been pushed yet"),
        }
    }

    pub open spec fn integration_failed_text(self, reference: Seq<char>) -> Seq<char> {
        match self.language {
            Language::Japanese => "`"@ + reference + "` の取り込みに失敗しました"@,
            Language::English => "could not integrate `"@ + reference + "`"@,
        }
    }

    /// Integrating failed.
    pub fn integration_failed(self, reference: &str) -> (text: String)
        ensures
            text@ == self.integration_failed_text(reference@),
    {
        match self.language {
            Language::Japanese => concat3("`", reference, "` の取り込みに失敗しました"),
            Language::English => concat3("could not integrate `", reference, "`"),
        }
    }

    pub open spec fn confirmation_text(self, reference: Seq<char>, count: usize, branch: Seq<char>) -> Seq<char> {
        match self.language {
            Language::Japanese => "`"@ + reference + "` の "@ + decimal(count as nat) + " 件のコミットを `"@ + branch + "` へ取り込みます"@,
            Language::English => "integrating "@ + decimal(count as nat) + " "@ + one_or_many(count, "commit"@, "commits"@) + " of `"@ + reference + "` into `"@ + branch + "`"@,
        }
    }

    /// What is integrated.
    pub fn confirmation(self, reference: &str, count: usize, branch: &str) -> (text: String)
        ensures
            text@ == self.confirmation_text(reference@, count, branch@),
    {
        match self.language {
            Language::Japanese => {
                let mut text = concat5("`", reference, "` の ", decimal_text(count).as_str(), " 件のコミットを `");
                text.append(branch);
                text.append("` へ取り込みます");
                text
            },
            Language::English => {
                let mut text = concat5("integrating ", decimal_text(count).as_str(), " ", pick_count(count, "commit", "commits"), " of `");
                text.append(reference);
                text.append("` into `");
                text.append(branch);
                text.append("`");
                text
            },
        }
    }
}

/// What is said in Japanese begins or ends in Japanese.
pub proof fn law_japanese_is_spoken(
    messages: PullMessages,
    count: usize,
    branch: Seq<char>,
    branches: Seq<char>,
    remote: Seq<char>,
    merge_ref: Seq<char>,
    reference: Seq<char>,
)
    requires
        messages.language is Japanese,
    ensures
        is_japanese(messages.targets_read_failed_text()),
        is_japanese(messages.no_candidates_text()),
        is_japanese(messages.header_text()),
        is_japanese(messages.excluded_count_text(count)),
        is_japanese(messages.single_target_reason_text()),
        is_japanese(messages.fixed_target_text(branch)),
        is_japanese(messages.unmerged_section_text()),
        is_japanese(messages.selection_not_found_text(branches)),
        is_japanese(messages.skipped_text(remote, branch)),
        is_japanese(messages.fetch_start_failed_text(remote)),
        is_japanese(messages.integration_start_failed_text(branch)),
        is_japanese(messages.fast_forward_guidance_text()),
        is_japanese(messages.partial_failure_text()),
        is_japanese(messages.notification_title_text()),
        is_japanese(messages.conflicting_modes_text()),
        is_japanese(messages.fetch_failed_text(remote)),
        is_japanese(messages.tracking_ref_unavailable_text(branch, remote, merge_ref)),
        is_japanese(messages.unknown_remote_text(branch, remote)),
        is_japanese(messages.missing_tracking_ref_text(reference, remote, branch)),
        is_japanese(messages.up_to_date_text(branch, reference)),
        is_japanese(messages.unpushed_commits_text(count)),
        is_japanese(messages.integration_failed_text(reference)),
        is_japanese(messages.confirmation_text(reference, count, branch)),
{
    reveal_strlit("追随させるブランチの候補を取得できませんでした");
    reveal_strlit("upstream を持つブランチがありません。`git push -u <remote> <branch>` で push するか、`git branch --set-upstream-to=<remote>/<branch>` で upstream を設定してください");
    reveal_strlit("Tab: 選択の切替  |  Enter: 選択したブランチを upstream へ追随（fast-forward のみ）");
    reveal_strlit(" 件を除外（upstream なし）");
    reveal_strlit("候補が 1 件のため選択を省略しました");
    reveal_strlit("` を取り込みます（候補が 1 件のため選択を省略しました）");
    reveal_strlit("取り込まれるコミット（前回の fetch 時点）");
    reveal_strlit("選択されたブランチが候補一覧に見つかりません: ");
    reveal_strlit("リモート `");
    reveal_strlit("ブランチ `");
    reveal_strlit("fast-forward できないブランチは、切り替えたうえで `gz pull --rebase` または `gz pull --merge` で取り込めます");
    reveal_strlit("取り込みに失敗したブランチがあります");
    reveal_strlit("gz pull が完了しました");
    reveal_strlit("`--rebase` と `--merge` は同時に指定できません");
    reveal_strlit("` が存在するか確認してください");
    reveal_strlit("まだ push していないコミットが ");
    reveal_strlit("` の取り込みに失敗しました");
    reveal_strlit("` へ取り込みます");
}

/// What is said in English begins and ends in plain letters.
pub proof fn law_english_is_spoken(
    messages: PullMessages,
    branch: Seq<char>,
    remote: Seq<char>,
    merge_ref: Seq<char>,
    reference: Seq<char>,
    count: usize,
)
    requires
        messages.language is English,
    ensures
        is_english(messages.targets_read_failed_text()),
        is_english(messages.no_candidates_text()),
        is_english(messages.header_text()),
        is_english(messages.single_target_reason_text()),
        is_english(messages.fixed_target_text(branch)),
        is_english(messages.unmerged_section_text()),
        is_english(messages.skipped_text(remote, branch)),
        is_english(messages.fetch_start_failed_text(remote)),
        is_english(messages.integration_start_failed_text(branch)),
        is_english(messages.fast_forward_guidance_text()),
        is_english(messages.partial_failure_text()),
        is_english(messages.notification_title_text()),
        is_english(messages.conflicting_modes_text()),
        is_english(messages.fetch_failed_text(remote)),
        is_english(messages.tracking_ref_unavailable_text(branch, remote, merge_ref)),
        is_english(messages.unknown_remote_text(branch, remote)),
        is_english(messages.missing_tracking_ref_text(reference, remote, branch)),
        is_english(messages.up_to_date_text(branch, reference)),
        is_english(messages.integration_failed_text(reference)),
        is_english(messages.confirmation_text(reference, count, branch)),
{
    reveal_strlit("could not read the branches that can be pulled");
    reveal_strlit("no branch has an upstream; push one with `git push -u <remote> <branch>`, or set it with `git branch --set-upstream-to=<remote>/<branch>`");
    reveal_strlit("Tab: toggle  |  Enter: update the selected branches (fast-forward only)");
    reveal_strlit("the only candidate, so nothing had to be picked");
    reveal_strlit("pulling `");
    reveal_strlit("` (the only candidate, so nothing had to be picked)");
    reveal_strlit("Commits to be integrated (as of the last fetch)");
    reveal_strlit("skipping `");
    reveal_strlit("` could not be fetched");
    reveal_strlit("could not start fetching the remote `");
    reveal_strlit("`");
    reveal_strlit("could not start integrating the branch `");
    reveal_strlit("switch to a branch that cannot be fast-forwarded and use `gz pull --rebase` or `gz pull --merge`");
    reveal_strlit("some branches could not be pulled");
    reveal_strlit("gz pull has finished");
    reveal_strlit("`--rebase` and `--merge` cannot be used together");
    reveal_strlit("could not fetch the remote `");
    reveal_strlit("the upstream of `");
    reveal_strlit(") has no tracking ref");
    reveal_strlit("the remote `");
    reveal_strlit("` follows, is not registered");
    reveal_strlit("there is no `");
    reveal_strlit("` follows");
    reveal_strlit("the branch `");
    reveal_strlit("could not integrate `");
    reveal_strlit("integrating ");
}

/// Where a message names two things, each stands in its place: a branch is called a branch, and a
/// remote a remote.
pub proof fn law_names_stand_in_their_places(
    messages: PullMessages,
    branch: &str,
    remote: &str,
    reference: &str,
    count: usize,
    skipped: String,
    unknown: String,
    current: String,
    missing: String,
    question: String,
)
    requires
        call_ensures(PullMessages::skipped, (messages, remote, branch), skipped),
        call_ensures(PullMessages::unknown_remote, (messages, branch, remote), unknown),
        call_ensures(PullMessages::up_to_date, (messages, branch, reference), current),
        call_ensures(
            PullMessages::missing_tracking_ref,
            (messages, reference, remote, branch),
            missing,
        ),
        call_ensures(PullMessages::confirmation, (messages, reference, count, branch), question),
    ensures
        messages.language is English ==> {
            &&& ("skipping `"@ + branch@ + "`: the remote `"@ + remote@ + "`"@).is_prefix_of(skipped@)
            &&& ("the remote `"@ + remote@ + "`, which `"@ + branch@ + "`"@).is_prefix_of(unknown@)
            &&& ("the branch `"@ + branch@ + "` is up to date with `"@ + reference@).is_prefix_of(
                current@,
            )
            &&& ("there is no `"@ + reference@ + "`; check that the remote `"@ + remote@
                + "` has what the branch `"@ + branch@).is_prefix_of(missing@)
            &&& ("integrating "@ + decimal(count as nat) + " "@).is_prefix_of(question@)
        },
        messages.language is Japanese ==> {
            &&& ("リモート `"@ + remote@ + "` を取得できなかったため `"@ + branch@).is_prefix_of(skipped@)
            &&& ("ブランチ `"@ + branch@ + "` の upstream のリモート `"@ + remote@).is_prefix_of(unknown@)
            &&& ("ブランチ `"@ + branch@ + "` は `"@ + reference@).is_prefix_of(current@)
            &&& ("`"@ + reference@ + "` がありません。リモート `"@ + remote@ + "` にブランチ `"@
                + branch@).is_prefix_of(missing@)
            &&& ("`"@ + reference@ + "` の "@ + decimal(count as nat) + " 件のコミットを `"@
                + branch@).is_prefix_of(question@)
        },
{
    reveal_strlit("`");
    reveal_strlit("` could not be fetched");
    reveal_strlit("` follows, is not registered");
    if messages.language is English {
        lemma_begins("skipping `"@ + branch@ + "`: the remote `"@ + remote@ + "`"@, skipped@);
        lemma_begins("the remote `"@ + remote@ + "`, which `"@ + branch@ + "`"@, unknown@);
        lemma_begins(
            "the branch `"@ + branch@ + "` is up to date with `"@ + reference@,
            current@,
        );
        lemma_begins(
            "there is no `"@ + reference@ + "`; check that the remote `"@ + remote@
                + "` has what the branch `"@ + branch@,
            missing@,
        );
        lemma_begins("integrating "@ + decimal(count as nat) + " "@, question@);
    } else {
        lemma_begins(
            "リモート `"@ + remote@ + "` を取得できなかったため `"@ + branch@,
            skipped@,
        );
        lemma_begins(
            "ブランチ `"@ + branch@ + "` の upstream のリモート `"@ + remote@,
            unknown@,
        );
        lemma_begins("ブランチ `"@ + branch@ + "` は `"@ + reference@, current@);
        lemma_begins(
            "`"@ + reference@ + "` がありません。リモート `"@ + remote@ + "` にブランチ `"@ + branch@,
            missing@,
        );
        lemma_begins(
            "`"@ + reference@ + "` の "@ + decimal(count as nat) + " 件のコミットを `"@ + branch@,
            question@,
        );
    }
}

proof fn lemma_begins(start: Seq<char>, text: Seq<char>)
    requires
        start.len() <= text.len(),
        text.take(start.len() as int) =~= start,
    ensures
        start.is_prefix_of(text),
{
}

/// What a message is given stands in it, in either language.
pub proof fn law_what_is_named_is_there(
    messages: PullMessages,
    count: usize,
    branch: Seq<char>,
    branches: Seq<char>,
    remote: Seq<char>,
    merge_ref: Seq<char>,
    reference: Seq<char>,
)
    ensures
        holds(messages.excluded_count_text(count), decimal(count as nat)),
        holds(messages.fixed_target_text(branch), branch),
        holds(messages.selection_not_found_text(branches), branches),
        holds(messages.fetch_start_failed_text(remote), remote),
        holds(messages.integration_start_failed_text(branch), branch),
        holds(messages.fetch_failed_text(remote), remote),
        holds(messages.tracking_ref_unavailable_text(branch, remote, merge_ref), branch),
        holds(messages.tracking_ref_unavailable_text(branch, remote, merge_ref), remote),
        holds(messages.tracking_ref_unavailable_text(branch, remote, merge_ref), merge_ref),
        holds(messages.unpushed_commits_text(count), decimal(count as nat)),
        holds(messages.integration_failed_text(reference), reference),
        holds(messages.confirmation_text(reference, count, branch), reference),
        holds(messages.confirmation_text(reference, count, branch), decimal(count as nat)),
        holds(messages.confirmation_text(reference, count, branch), branch),
{
    match messages.language {
        Language::Japanese => {
            lemma_holds(messages.excluded_count_text(count), decimal(count as nat), 0);
            lemma_holds(messages.fixed_target_text(branch), branch, "`"@.len() as int);
            lemma_holds(messages.selection_not_found_text(branches), branches, "選択されたブランチが候補一覧に見つかりません: "@.len() as int);
            lemma_holds(messages.fetch_start_failed_text(remote), remote, "リモート `"@.len() as int);
            lemma_holds(messages.integration_start_failed_text(branch), branch, "ブランチ `"@.len() as int);
            lemma_holds(messages.fetch_failed_text(remote), remote, "リモート `"@.len() as int);
            lemma_holds(messages.tracking_ref_unavailable_text(branch, remote, merge_ref), branch, "ブランチ `"@.len() as int);
            lemma_holds(messages.tracking_ref_unavailable_text(branch, remote, merge_ref), remote, ("ブランチ `"@ + branch + "` の upstream（"@).len() as int);
            lemma_holds(messages.tracking_ref_unavailable_text(branch, remote, merge_ref), merge_ref, ("ブランチ `"@ + branch + "` の upstream（"@ + remote + " の "@).len() as int);
            lemma_holds(messages.unpushed_commits_text(count), decimal(count as nat), "まだ push していないコミットが "@.len() as int);
            lemma_holds(messages.integration_failed_text(reference), reference, "`"@.len() as int);
            lemma_holds(messages.confirmation_text(reference, count, branch), reference, "`"@.len() as int);
            lemma_holds(messages.confirmation_text(reference, count, branch), decimal(count as nat), ("`"@ + reference + "` の "@).len() as int);
            lemma_holds(messages.confirmation_text(reference, count, branch), branch, ("`"@ + reference + "` の "@ + decimal(count as nat) + " 件のコミットを `"@).len() as int);
        },
        Language::English => {
            lemma_holds(messages.excluded_count_text(count), decimal(count as nat), 0);
            lemma_holds(messages.fixed_target_text(branch), branch, "pulling `"@.len() as int);
            lemma_holds(messages.selection_not_found_text(branches), branches, "the selected branches are not among the candidates: "@.len() as int);
            lemma_holds(messages.fetch_start_failed_text(remote), remote, "could not start fetching the remote `"@.len() as int);
            lemma_holds(messages.integration_start_failed_text(branch), branch, "could not start integrating the branch `"@.len() as int);
            lemma_holds(messages.fetch_failed_text(remote), remote, "could not fetch the remote `"@.len() as int);
            lemma_holds(messages.tracking_ref_unavailable_text(branch, remote, merge_ref), branch, "the upstream of `"@.len() as int);
            lemma_holds(messages.tracking_ref_unavailable_text(branch, remote, merge_ref), remote, ("the upstream of `"@ + branch + "` ("@ + merge_ref + " of "@).len() as int);
            lemma_holds(messages.tracking_ref_unavailable_text(branch, remote, merge_ref), merge_ref, ("the upstream of `"@ + branch + "` ("@).len() as int);
            lemma_holds(messages.unpushed_commits_text(count), decimal(count as nat), 0);
            lemma_holds(messages.integration_failed_text(reference), reference, "could not integrate `"@.len() as int);
            lemma_holds(messages.confirmation_text(reference, count, branch), reference, ("integrating "@ + decimal(count as nat) + " "@ + one_or_many(count, "commit"@, "commits"@) + " of `"@).len() as int);
            lemma_holds(messages.confirmation_text(reference, count, branch), decimal(count as nat), "integrating "@.len() as int);
            lemma_holds(messages.confirmation_text(reference, count, branch), branch, ("integrating "@ + decimal(count as nat) + " "@ + one_or_many(count, "commit"@, "commits"@) + " of `"@ + reference + "` into `"@).len() as int);
        },
    }
}

} // verus!
