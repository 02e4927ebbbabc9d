//! `gz branch`: switch to a picked branch.

use vstd::prelude::*;
use vstd::utf8::encode_utf8;

use crate::commands::{selection_header, DECIDE_KEY, HEADER_SEPARATOR};
use crate::error::Error;
use crate::finder::{
    headed, item_views, items_of, plain, Candidate, FinderItem, FinderOptions, Highlight,
    HighlightColor, Panel, Picker, Preview, PreviewPanel, PreviewSource, SelectionMode,
};
use crate::git::{BranchDetail, BranchInfo, GitRun};
use crate::i18n::Messages;
use crate::selection::{find_by_key, keys_of, Keyed};
use crate::text::{
    byte_len, byte_length, chars_of, concat2, decimal, decimal_text, lemma_byte_len_concat,
    lemma_encode_concat, owned_all, text_of_chars, texts,
};

verus! {

broadcast use crate::text::lemma_texts_push;

/// What marks the current branch.
pub const CURRENT_MARK: &'static str = "* ";

/// What stands before any other branch.
pub const OTHER_MARK: &'static str = "  ";

/// How many commits a preview shows.
pub const PREVIEW_COMMIT_COUNT: &'static str = "50";

/// What marks the commits that a switch gains.
pub const AHEAD_MARK: &'static str = "↑";

/// What marks the commits that a switch loses sight of.
pub const BEHIND_MARK: &'static str = "↓";

impl Keyed for BranchInfo {
    open spec fn key_text(&self) -> Seq<char> {
        self.name@
    }

    fn key_of(&self) -> (key: &str) {
        self.name.as_str()
    }
}

/// The line of a branch.
pub open spec fn line_of(branch: BranchInfo) -> Seq<char> {
    (if branch.is_current {
        CURRENT_MARK@
    } else {
        OTHER_MARK@
    }) + branch.name@
}

/// The arguments that show the log of a branch.
pub open spec fn log_arguments(name: Seq<char>) -> Seq<Seq<char>> {
    seq![
        "log"@,
        "--color=always"@,
        "--oneline"@,
        "--decorate"@,
        "-n"@,
        PREVIEW_COMMIT_COUNT@,
        name,
        "--"@,
    ]
}

/// Commits gained by a switch.
pub open spec fn ahead_of(detail: BranchDetail) -> Seq<char> {
    AHEAD_MARK@ + decimal(detail.ahead as nat)
}

/// Commits lost sight of by a switch.
pub open spec fn behind_of(detail: BranchDetail) -> Seq<char> {
    BEHIND_MARK@ + decimal(detail.behind as nat)
}

/// The coloured parts of the figure. A side without commits takes no colour.
pub open spec fn metric_highlights(detail: BranchDetail) -> Seq<Highlight> {
    let middle = byte_len(ahead_of(detail));
    let gained = if detail.ahead > 0 {
        seq![Highlight { start: 0, end: middle as usize, color: HighlightColor::Green }]
    } else {
        Seq::empty()
    };
    let lost = if detail.behind > 0 {
        seq![
            Highlight {
                start: (middle + 1) as usize,
                end: (middle + 1 + byte_len(behind_of(detail))) as usize,
                color: HighlightColor::Red,
            },
        ]
    } else {
        Seq::empty()
    };
    gained + lost
}

/// The context of a branch: its upstream, its last commit and author, as far as known.
pub open spec fn context_of(detail: BranchDetail) -> Seq<Seq<char>> {
    (match detail.upstream {
        Some(upstream) => seq![upstream@],
        None => Seq::empty(),
    }) + (if detail.committed@.len() > 0 {
        seq![detail.committed@]
    } else {
        Seq::empty()
    }) + (if detail.author@.len() > 0 {
        seq![detail.author@]
    } else {
        Seq::empty()
    })
}

/// The panel of a branch.
pub open spec fn panel_of(detail: BranchDetail) -> Panel {
    Panel {
        metric: ahead_of(detail) + " "@ + behind_of(detail),
        highlights: metric_highlights(detail),
        context: context_of(detail),
    }
}

/// A branch in the list.
pub open spec fn candidate_of(branch: BranchInfo, detail: Option<BranchDetail>) -> Candidate {
    Candidate {
        panel: match detail {
            Some(detail) => Some(panel_of(detail)),
            None => None,
        },
        ..plain(line_of(branch), branch.name@, Preview::Git(log_arguments(branch.name@)))
    }
}

/// Builds the candidate list.
pub fn picker(messages: Messages, candidates: &[(BranchInfo, Option<BranchDetail>)]) -> (picker:
    Picker)
    ensures
        item_views(picker.items@) == candidates@.map_values(
            |entry: (BranchInfo, Option<BranchDetail>)| candidate_of(entry.0, entry.1),
        ),
        picker.options@ == headed(
            SelectionMode::Single,
            messages.branch().header_subject_text() + HEADER_SEPARATOR@ + DECIDE_KEY@
                + messages.branch().header_outcome_text(),
        ),
{
    let ghost all = candidates@.map_values(
        |entry: (BranchInfo, Option<BranchDetail>)| candidate_of(entry.0, entry.1),
    );
    let item = |entry: &(BranchInfo, Option<BranchDetail>)| -> (item: FinderItem)
        ensures
            item@ == candidate_of(entry.0, entry.1),
        {
            match &entry.1 {
                Some(detail) => to_item(&entry.0, Some(detail)),
                None => to_item(&entry.0, None),
            }
        };
    let items = items_of(candidates, item);
    assert(item_views(items@) =~= all);
    let header = selection_header(
        messages.branch().header_subject(),
        messages.branch().header_outcome(),
    );
    Picker { items, options: FinderOptions::new(SelectionMode::Single).with_header(header) }
}

/// What `git switch` gets for a branch: its own name, or that of a remote branch without the
/// remote. There is none for a remote branch without a slash.
pub open spec fn switch_name(branch: BranchInfo) -> Option<Seq<char>> {
    if !branch.is_remote {
        Some(branch.name@)
    } else {
        match branch.name@.index_of_first('/') {
            Some(at) => Some(branch.name@.skip(at + 1)),
            None => None,
        }
    }
}

/// The run that switches to the picked branch. A name that was not offered is an error, and
/// so is a remote branch that names no branch.
pub fn run_on_selection(messages: Messages, candidates: &[BranchInfo], selected: &str) -> (run:
    Result<GitRun, Error>)
    ensures
        match keys_of(candidates@).index_of_first(selected@) {
            None => run matches Err(error) && error.says(
                messages.branch().selection_not_found_text(selected@),
            ),
            Some(i) => match switch_name(candidates@[i]) {
                None => run matches Err(error) && error.says(
                    messages.branch().tracking_target_undetermined_text(candidates@[i].name@),
                ),
                Some(name) => run matches Ok(run) && run.is(
                    seq!["switch"@, name],
                    messages.common().switch_failed_text(name),
                ),
            },
        },
{
    proof {
        keys_of(candidates@).index_of_first_ensures(selected@);
    }
    let branch = match find_by_key(candidates, selected) {
        Some(branch) => branch,
        None => {
            return Err(Error::Explained(messages.branch().selection_not_found(selected)));
        },
    };
    match switch_target(messages, branch) {
        Ok(target) => {
            let args = owned_all(&["switch", target.as_str()]);
            assert(texts(args@) =~= seq!["switch"@, target@]);
            Ok(GitRun { args, failure: messages.common().switch_failed(target.as_str()) })
        },
        Err(error) => Err(error),
    }
}

/// Writes the line of a branch.
pub fn display_line(branch: &BranchInfo) -> (line: String)
    ensures
        line@ == line_of(*branch),
{
    let mark = if branch.is_current {
        CURRENT_MARK
    } else {
        OTHER_MARK
    };
    concat2(mark, branch.name.as_str())
}

/// The arguments that show the log of a branch.
pub fn preview_args(branch: &BranchInfo) -> (args: Vec<String>)
    ensures
        texts(args@) == log_arguments(branch.name@),
{
    let args = owned_all(
        &[
            "log",
            "--color=always",
            "--oneline",
            "--decorate",
            "-n",
            PREVIEW_COMMIT_COUNT,
            branch.name.as_str(),
            "--",
        ],
    );
    assert(texts(args@) =~= log_arguments(branch.name@));
    args
}

/// A branch as the list shows it.
pub fn to_item(branch: &BranchInfo, detail: Option<&BranchDetail>) -> (item: FinderItem)
    ensures
        item@ == candidate_of(
            *branch,
            match detail {
                Some(detail) => Some(*detail),
                None => None,
            },
        ),
{
    let item = FinderItem::new(
        display_line(branch),
        branch.name.clone(),
        PreviewSource::Git(preview_args(branch)),
    );
    match detail {
        None => item,
        Some(detail) => item.with_panel(panel(detail)),
    }
}

/// Builds the panel of a branch.
pub fn panel(detail: &BranchDetail) -> (panel: PreviewPanel)
    ensures
        panel@ == panel_of(*detail),
{
    let (figure, highlights) = metric(detail);
    let mut context: Vec<String> = Vec::new();
    if let Some(upstream) = &detail.upstream {
        context.push(upstream.clone());
    }
    if !detail.committed.as_str().is_empty() {
        context.push(detail.committed.clone());
    }
    if !detail.author.as_str().is_empty() {
        context.push(detail.author.clone());
    }
    assert(texts(context@) =~= context_of(*detail));
    PreviewPanel::new().with_metric(figure, highlights).with_context(context)
}

/// Writes the figure of a branch, and finds its coloured parts.
pub fn metric(detail: &BranchDetail) -> (metric: (String, Vec<Highlight>))
    ensures
        metric.0@ == ahead_of(*detail) + " "@ + behind_of(*detail),
        metric.1@ == metric_highlights(*detail),
        byte_len(ahead_of(*detail)) + 1 + byte_len(behind_of(*detail)) <= usize::MAX,
{
    let ahead = concat2(AHEAD_MARK, decimal_text(detail.ahead).as_str());
    let behind = concat2(BEHIND_MARK, decimal_text(detail.behind).as_str());
    let before = concat2(ahead.as_str(), " ");
    let figure = concat2(before.as_str(), behind.as_str());
    let middle: usize = byte_length(ahead.as_str());
    let start: usize = byte_length(before.as_str());
    let end: usize = byte_length(figure.as_str());
    proof {
        reveal_strlit(" ");
        vstd::utf8::is_ascii_chars_encode_utf8(" "@);
        lemma_byte_len_concat(ahead@, " "@);
        lemma_byte_len_concat(before@, behind@);
    }
    let mut highlights: Vec<Highlight> = Vec::new();
    if detail.ahead > 0 {
        highlights.push(Highlight::new(0, middle, HighlightColor::Green));
    }
    if detail.behind > 0 {
        highlights.push(Highlight::new(start, end, HighlightColor::Red));
    }
    assert(highlights@ =~= metric_highlights(*detail));
    (figure, highlights)
}

/// The coloured parts of the figure of a branch hold its two counts, byte for byte.
pub proof fn law_metric_highlights_match_the_figure(detail: BranchDetail, i: int)
    requires
        byte_len(ahead_of(detail)) + 1 + byte_len(behind_of(detail)) <= usize::MAX,
        0 <= i < metric_highlights(detail).len(),
    ensures
        ({
            let figure = encode_utf8(ahead_of(detail) + " "@ + behind_of(detail));
            let part = metric_highlights(detail)[i];
            &&& part.start <= part.end <= figure.len()
            &&& figure.subrange(part.start as int, part.end as int) == encode_utf8(
                if part.color == HighlightColor::Green {
                    ahead_of(detail)
                } else {
                    behind_of(detail)
                },
            )
        }),
{
    let ahead = ahead_of(detail);
    let behind = behind_of(detail);
    let figure = encode_utf8(ahead + " "@ + behind);
    let start = byte_len(ahead) as int + 1;
    lemma_encode_concat(ahead + " "@, behind);
    lemma_encode_concat(ahead, " "@);
    reveal_strlit(" ");
    vstd::utf8::is_ascii_chars_encode_utf8(" "@);
    assert(figure.subrange(0, byte_len(ahead) as int) =~= encode_utf8(ahead));
    assert(figure.subrange(start, start + byte_len(behind)) =~= encode_utf8(behind));
}

/// Decides what `git switch` gets for a branch.
pub fn switch_target(messages: Messages, branch: &BranchInfo) -> (target: Result<String, Error>)
    ensures
        match switch_name(*branch) {
            Some(name) => target matches Ok(target) && target@ == name,
            None => target matches Err(error) && error.says(
                messages.branch().tracking_target_undetermined_text(branch.name@),
            ),
        },
{
    if !branch.is_remote {
        return Ok(branch.name.clone());
    }
    let mut chars = chars_of(branch.name.as_str());
    let ghost name = branch.name@;
    let mut i: usize = 0;
    proof {
        name.index_of_first_ensures('/');
    }
    while i < chars.len()
        invariant
            chars@ == name,
            name == branch.name@,
            branch.is_remote,
            i <= name.len(),
            forall|k: int| 0 <= k < i ==> name[k] != '/',
        decreases name.len() - i,
    {
        if chars[i] == '/' {
            proof {
                name.index_of_first_ensures('/');
                assert(name[i as int] == '/');
                assert(name.contains('/'));
            }
            let rest = chars.split_off(i + 1);
            assert(rest@ =~= name.skip(i + 1));
            return Ok(text_of_chars(rest.as_slice()));
        }
        i += 1;
    }
    Err(
        Error::Explained(
            messages.branch().tracking_target_undetermined(branch.name.as_str()),
        ),
    )
}

/// A local branch is switched to by its own name, and a remote one by its name without the
/// remote: whatever the remote is called, and whatever slashes the branch holds.
pub proof fn law_a_remote_branch_is_switched_to_by_its_own_name(
    messages: Messages,
    branch: &BranchInfo,
    remote: Seq<char>,
    local: Seq<char>,
    target: Result<String, Error>,
)
    requires
        !remote.contains('/'),
        branch.name@ == remote + seq!['/'] + local,
        call_ensures(switch_target, (messages, branch), target),
    ensures
        branch.is_remote ==> (target matches Ok(name) && name@ == local),
        !branch.is_remote ==> (target matches Ok(name) && name@ == branch.name@),
{
    let name = branch.name@;
    name.index_of_first_ensures('/');
    let at = name.index_of_first('/').unwrap();
    assert(name[remote.len() as int] == '/');
    assert(name.contains('/'));
    if at < remote.len() {
        assert(remote[at] == '/');
        assert(remote.contains('/'));
    }
    assert(at == remote.len());
    assert(name.skip(at + 1) =~= local);
}

/// A remote branch without a remote in its name is not switched to.
pub proof fn law_a_branch_without_a_name_is_refused(
    messages: Messages,
    branch: &BranchInfo,
    target: Result<String, Error>,
)
    requires
        call_ensures(switch_target, (messages, branch), target),
    ensures
        target is Err <==> branch.is_remote && !branch.name@.contains('/'),
{
    branch.name@.index_of_first_ensures('/');
}

/// What was picked is what is switched to: git gets `switch` and the branch, and the branch is
/// the one of that key.
pub proof fn law_the_picked_branch_is_switched_to(
    messages: Messages,
    candidates: &[BranchInfo],
    selected: &str,
    run: Result<GitRun, Error>,
    i: int,
)
    requires
        0 <= i < candidates@.len(),
        keys_of(candidates@).index_of_first(selected@) == Some(i),
        call_ensures(run_on_selection, (messages, candidates, selected), run),
    ensures
        !candidates@[i].is_remote ==> (run matches Ok(run) && texts(run.args@).len() == 2 && texts(
            run.args@,
        )[0] == "switch"@ && texts(run.args@)[1] == selected@),
        candidates@[i].is_remote ==> (run matches Ok(run) ==> texts(run.args@)[1].len()
            < selected@.len() && texts(run.args@)[1] == selected@.skip(
            selected@.len() - texts(run.args@)[1].len(),
        )),
{
    keys_of(candidates@).index_of_first_ensures(selected@);
    assert(keys_of(candidates@)[i] == candidates@[i].name@);
    let name = candidates@[i].name@;
    name.index_of_first_ensures('/');
    if candidates@[i].is_remote && run is Ok {
        let at = name.index_of_first('/').unwrap();
        assert(texts(run->Ok_0.args@)[1] == name.skip(at + 1));
        assert(name.skip(name.len() - name.skip(at + 1).len()) =~= name.skip(at + 1));
    }
}

/// The current branch is the one that is marked with a star, and all lines are indented alike, so
/// that the names stand below each other.
pub proof fn law_the_current_branch_is_marked(branch: &BranchInfo, line: String)
    requires
        call_ensures(display_line, (branch,), line),
    ensures
        line@.len() == branch.name@.len() + 2,
        line@.skip(2) == branch.name@,
        line@[0] == '*' <==> branch.is_current,
        line@[1] == ' ',
{
    reveal_strlit("* ");
    reveal_strlit("  ");
    assert(line@.skip(2) =~= branch.name@);
}

/// The figure of a branch tells the commits that it is ahead by first, in green, and then those
/// that it is behind by, in red. A side without commits takes no colour.
pub proof fn law_ahead_is_green_and_behind_is_red(
    detail: &BranchDetail,
    figure: (String, Vec<Highlight>),
)
    requires
        call_ensures(metric, (detail,), figure),
    ensures
        figure.0@ == "↑"@ + decimal(detail.ahead as nat) + " "@ + ("↓"@ + decimal(
            detail.behind as nat,
        )),
        figure.1@.len() == (if detail.ahead > 0 {
            1int
        } else {
            0
        }) + (if detail.behind > 0 {
            1int
        } else {
            0
        }),
        detail.ahead > 0 ==> figure.1@[0].color == HighlightColor::Green && figure.1@[0].start == 0,
        detail.behind > 0 ==> figure.1@.last().color == HighlightColor::Red
            && figure.1@.last().start > 0,
{
    assert(figure.0@ =~= "↑"@ + decimal(detail.ahead as nat) + " "@ + ("↓"@ + decimal(
        detail.behind as nat,
    )));
}

/// A branch is found by its name, and its preview shows its own log.
pub proof fn law_a_preview_shows_its_own_branch(
    branch: &BranchInfo,
    detail: Option<&BranchDetail>,
    item: FinderItem,
)
    requires
        call_ensures(to_item, (branch, detail), item),
    ensures
        item.key@ == branch.name@,
        item@.preview matches Preview::Git(args) && args[0] == "log"@ && args[args.len() - 2]
            == branch.name@ && args.last() == "--"@,
        item.panel is Some <==> detail is Some,
{
    assert(item@.key == item.key@);
}

/// What is known of a branch is shown as far as it is known: its upstream, its day and its
/// author, in that order.
pub proof fn law_what_is_known_is_shown(detail: &BranchDetail, panel: PreviewPanel)
    requires
        call_ensures(self::panel, (detail,), panel),
    ensures
        detail.upstream matches Some(upstream) ==> texts(panel.context@)[0] == upstream@,
        detail.author@.len() > 0 ==> texts(panel.context@).last() == detail.author@,
        detail.upstream is None && detail.committed@.len() > 0 ==> texts(panel.context@)[0]
            == detail.committed@,
        panel.context@.len() == (if detail.upstream is Some {
            1int
        } else {
            0
        }) + (if detail.committed@.len() > 0 {
            1int
        } else {
            0
        }) + (if detail.author@.len() > 0 {
            1int
        } else {
            0
        }),
{
    assert(panel@.context == texts(panel.context@));
    assert(texts(panel.context@).len() == panel.context@.len());
}

} // verus!
