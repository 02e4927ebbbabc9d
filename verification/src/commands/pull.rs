//! `gz pull`: let branches follow their upstreams, by fast-forward alone.
//!
//! A fast-forward rewrites no commit, and where git cannot do it git changes nothing: there is
//! nothing to roll back. Another way of integrating is for the current branch only.

use vstd::prelude::*;

use crate::commands::{
    aligned_by, aligned_candidates, aligned_lines, command_display, progress, progress_text,
    row_texts, summary, summary_text, HEADER_SEPARATOR,
};
use crate::error::{Error, RunOutcome};
use crate::finder::{
    item_views, items_of, plain, Candidate, FinderItem, FinderOptions, ListOptions, Picker, Preview,
    PreviewSource, SelectionMode,
};
use crate::git::{GitRun, PullScan, PullTarget, Upstream};
use crate::i18n::Messages;
use crate::selection::{
    keys_of, lemma_filter_empty, lemma_filter_step, missing_keys, picked, resolve_by_key, values,
    Keyed,
};
use crate::text::{
    ascending, concat2, concat3, concat4, contains_text, insert_in_order, join, owned, owned_all,
    strip_prefix, text_of, texts,
};

verus! {

broadcast use {crate::text::lemma_texts_push, crate::finder::lemma_composite_view};

/// The repository itself, as a place to fetch from.
pub const CURRENT_REPOSITORY: &'static str = ".";

/// What the reference of a local branch starts with.
pub const LOCAL_BRANCH_PREFIX: &'static str = "refs/heads/";

/// What marks the current branch.
pub const CURRENT_MARK: &'static str = "* ";

/// What stands before any other branch, as wide as the mark.
pub const OTHER_MARK: &'static str = "  ";

/// What points from a branch to its upstream.
pub const UPSTREAM_ARROW: &'static str = "→";

/// What the reference of a remote branch starts with.
pub const TRACKING_PREFIX: &'static str = "refs/remotes/";

/// How many commits a preview shows.
pub const PREVIEW_COMMIT_COUNT: &'static str = "50";

impl Keyed for PullTarget {
    open spec fn key_text(&self) -> Seq<char> {
        self.branch@
    }

    fn key_of(&self) -> (key: &str) {
        self.branch.as_str()
    }
}

/// How the branches to pull are determined.
#[derive(Debug, Clone, Copy, PartialEq, Eq, Structural)]
pub enum PullDecision {
    /// There is none.
    NoCandidate,
    /// There is one, so nothing is picked.
    Fixed,
    /// They are picked.
    Choose,
}

impl PullDecision {
    pub open spec fn of_count(count: nat) -> Self {
        if count == 0 {
            PullDecision::NoCandidate
        } else if count == 1 {
            PullDecision::Fixed
        } else {
            PullDecision::Choose
        }
    }

    pub fn from_targets(targets: &[PullTarget]) -> (decision: Self)
        ensures
            decision == PullDecision::of_count(targets@.len()),
    {
        if targets.len() == 0 {
            PullDecision::NoCandidate
        } else if targets.len() == 1 {
            PullDecision::Fixed
        } else {
            PullDecision::Choose
        }
    }
}

/// How a branch is integrated.
#[derive(Debug, Clone, Copy, PartialEq, Eq, Structural)]
pub enum PullMode {
    /// By fast-forward, or not at all.
    FfOnly,
    /// By a rebase onto the upstream.
    Rebase,
    /// By a merge of the upstream.
    Merge,
}

impl PullMode {
    /// Reads the flags. They exclude each other.
    pub fn from_flags(messages: Messages, rebase: bool, merge: bool) -> (mode: Result<Self, Error>)
        ensures
            match (rebase, merge) {
                (false, false) => mode == Ok::<Self, Error>(PullMode::FfOnly),
                (true, false) => mode == Ok::<Self, Error>(PullMode::Rebase),
                (false, true) => mode == Ok::<Self, Error>(PullMode::Merge),
                (true, true) => mode matches Err(error) && error.says(
                    messages.pull().conflicting_modes_text(),
                ),
            },
    {
        match (rebase, merge) {
            (false, false) => Ok(PullMode::FfOnly),
            (true, false) => Ok(PullMode::Rebase),
            (false, true) => Ok(PullMode::Merge),
            (true, true) => Err(Error::Explained(owned(messages.pull().conflicting_modes()))),
        }
    }

    /// What is said of rewritten history: a rebase rewrites it.
    pub open spec fn note_text(self, messages: Messages) -> Option<Seq<char>> {
        match self {
            PullMode::FfOnly | PullMode::Merge => None,
            PullMode::Rebase => Some(messages.common().history_rewrite_note_text()),
        }
    }

    pub fn note(self, messages: Messages) -> (note: Option<&'static str>)
        ensures
            text_of(note) == self.note_text(messages),
    {
        match self {
            PullMode::FfOnly | PullMode::Merge => None,
            PullMode::Rebase => Some(messages.common().history_rewrite_note()),
        }
    }
}

/// The short name of an upstream: without the prefix that every one of them has.
pub open spec fn short_upstream(reference: Seq<char>) -> Seq<char> {
    if TRACKING_PREFIX@.is_prefix_of(reference) {
        reference.skip(TRACKING_PREFIX@.len() as int)
    } else {
        reference
    }
}

/// The columns of a branch. They hold no counts: those known now are as old as the last
/// fetch.
pub open spec fn cells_of(target: PullTarget) -> Seq<Seq<char>> {
    seq![
        (if target.is_current {
            CURRENT_MARK@
        } else {
            OTHER_MARK@
        }) + target.branch@,
        UPSTREAM_ARROW@,
        short_upstream(target.tracking_ref@),
    ]
}

/// The lines of branches, in line with each other.
pub open spec fn lines_of(targets: Seq<PullTarget>) -> Seq<Seq<char>> {
    aligned_lines(targets.map_values(|target: PullTarget| cells_of(target)))
}

/// Writes the columns of a branch.
pub fn cells(target: &PullTarget) -> (row: Vec<String>)
    ensures
        texts(row@) == cells_of(*target),
{
    let mark = if target.is_current {
        CURRENT_MARK
    } else {
        OTHER_MARK
    };
    let mut row: Vec<String> = Vec::new();
    row.push(concat2(mark, target.branch.as_str()));
    row.push(owned(UPSTREAM_ARROW));
    row.push(tracking_name(target));
    assert(texts(row@) =~= cells_of(*target));
    row
}

/// Writes the short name of an upstream.
pub fn tracking_name(target: &PullTarget) -> (name: String)
    ensures
        name@ == short_upstream(target.tracking_ref@),
{
    match strip_prefix(target.tracking_ref.as_str(), TRACKING_PREFIX) {
        Some(name) => name,
        None => target.tracking_ref.clone(),
    }
}

/// Whether branches stand beside their lines.
pub open spec fn lined(targets: Seq<PullTarget>, lines: Seq<(&PullTarget, String)>) -> bool {
    &&& lines.len() == targets.len()
    &&& forall|i: int|
        0 <= i < lines.len() ==> *(#[trigger] lines[i]).0 == targets[i] && lines[i].1@ == lines_of(
            targets,
        )[i]
}

/// Pairs branches with their lines.
pub fn target_lines(targets: &[PullTarget]) -> (lines: Vec<(&PullTarget, String)>)
    ensures
        lined(targets@, lines@),
{
    let lines = aligned_candidates(targets, cells);
    proof {
        let rows = choose|rows: Seq<Vec<String>>| #[trigger]
            aligned_by(targets@, cells, rows, lines@);
        assert(row_texts(rows) =~= targets@.map_values(|target: PullTarget| cells_of(target)));
    }
    lines
}

/// The header: what the keys do, and how many branches are left out, where any is.
pub open spec fn header_of(messages: Messages, excluded: usize) -> Seq<char> {
    if excluded > 0 {
        messages.pull().header_text() + HEADER_SEPARATOR@ + messages.pull().excluded_count_text(
            excluded,
        )
    } else {
        messages.pull().header_text()
    }
}

/// Writes the header.
pub fn pull_header(messages: Messages, scan: &PullScan) -> (header: String)
    ensures
        header@ == header_of(messages, scan.excluded),
{
    if scan.excluded > 0 {
        concat3(
            messages.pull().header(),
            HEADER_SEPARATOR,
            messages.pull().excluded_count(scan.excluded).as_str(),
        )
    } else {
        owned(messages.pull().header())
    }
}

/// The lines of the current branches among branches.
pub open spec fn current_lines(targets: Seq<PullTarget>, lines: Seq<Seq<char>>) -> Seq<Seq<char>>
    decreases targets.len(),
{
    if targets.len() == 0 {
        Seq::empty()
    } else {
        let before = current_lines(targets.drop_last(), lines);
        if targets.last().is_current {
            before.push(lines[targets.len() - 1])
        } else {
            before
        }
    }
}

/// The branches and the lines of a list.
pub open spec fn listed(lines: Seq<(&PullTarget, String)>) -> (Seq<PullTarget>, Seq<Seq<char>>) {
    (
        lines.map_values(|line: (&PullTarget, String)| *line.0),
        lines.map_values(|line: (&PullTarget, String)| line.1@),
    )
}

/// The lines that are picked from the start: that of the current branch.
pub fn preselect(lines: &Vec<(&PullTarget, String)>) -> (picked: Vec<String>)
    ensures
        texts(picked@) == current_lines(listed(lines@).0, listed(lines@).1),
{
    let ghost all = listed(lines@);
    let mut picked: Vec<String> = Vec::new();
    let mut i: usize = 0;
    assert(texts(picked@) =~= Seq::empty());
    while i < lines.len()
        invariant
            i <= lines@.len(),
            all == listed(lines@),
            texts(picked@) == current_lines(all.0.take(i as int), all.1),
        decreases lines@.len() - i,
    {
        assert(all.0.take(i + 1).drop_last() =~= all.0.take(i as int));
        assert(all.0.take(i + 1).last() == *lines@[i as int].0);
        if lines[i].0.is_current {
            picked.push(lines[i].1.clone());
        }
        i += 1;
    }
    assert(all.0.take(i as int) =~= all.0);
    picked
}

/// The arguments that show what a branch would integrate. They read stored references only.
pub open spec fn log_arguments(target: PullTarget) -> Seq<Seq<char>> {
    seq![
        "log"@,
        "--color=always"@,
        "--oneline"@,
        "-n"@,
        PREVIEW_COMMIT_COUNT@,
        target.branch@ + ".."@ + target.tracking_ref@,
        "--"@,
    ]
}

/// Writes the arguments that show what a branch would integrate.
pub fn preview_args(target: &PullTarget) -> (args: Vec<String>)
    ensures
        texts(args@) == log_arguments(*target),
{
    let range = concat3(target.branch.as_str(), "..", target.tracking_ref.as_str());
    let args = owned_all(
        &[
            "log",
            "--color=always",
            "--oneline",
            "-n",
            PREVIEW_COMMIT_COUNT,
            range.as_str(),
            "--",
        ],
    );
    assert(texts(args@) =~= log_arguments(*target));
    args
}

/// What the preview of a branch shows.
pub open spec fn preview_of(messages: Messages, target: PullTarget) -> Preview {
    Preview::Composite(
        seq![(messages.pull().unmerged_section_text(), Preview::Git(log_arguments(target)))],
    )
}

/// The preview of a branch.
pub fn preview_source(messages: Messages, target: &PullTarget) -> (preview: PreviewSource)
    ensures
        preview@ == preview_of(messages, *target),
{
    let mut sections: Vec<(String, PreviewSource)> = Vec::new();
    sections.push(
        (owned(messages.pull().unmerged_section()), PreviewSource::Git(preview_args(target))),
    );
    assert(crate::finder::sections_view(sections@) =~= seq![
        (messages.pull().unmerged_section_text(), Preview::Git(log_arguments(*target))),
    ]);
    PreviewSource::Composite(sections)
}

/// A branch in the list.
pub open spec fn candidate_of(messages: Messages, target: PullTarget, line: Seq<char>) -> Candidate {
    plain(line, target.branch@, preview_of(messages, target))
}

/// The candidates of branches with their lines.
pub open spec fn candidates_of(
    messages: Messages,
    targets: Seq<PullTarget>,
    lines: Seq<Seq<char>>,
) -> Seq<Candidate> {
    Seq::new(targets.len(), |i: int| candidate_of(messages, targets[i], lines[i]))
}

/// The candidates, from branches paired with their lines.
pub fn items(messages: Messages, lines: &Vec<(&PullTarget, String)>) -> (items: Vec<FinderItem>)
    ensures
        item_views(items@) == candidates_of(messages, listed(lines@).0, listed(lines@).1),
{
    let ghost all = candidates_of(messages, listed(lines@).0, listed(lines@).1);
    let item = |line: &(&PullTarget, String)| -> (item: FinderItem)
        ensures
            item@ == candidate_of(messages, *line.0, line.1@),
        {
            let target: &PullTarget = line.0;
            FinderItem::new(line.1.clone(), target.branch.clone(), preview_source(messages, target))
        };
    let items = items_of(lines.as_slice(), item);
    assert(item_views(items@) =~= all);
    items
}

/// What follows once the branches are known.
#[derive(Debug, PartialEq, Eq)]
pub enum PullChoice {
    /// There is one: what is said instead of a list.
    Fixed(String),
    /// They are picked.
    Choose(Picker),
}

/// Builds the list of branches, or says that there is one only. There being none is an error.
pub fn choose_targets(messages: Messages, scan: &PullScan) -> (choice: Result<PullChoice, Error>)
    ensures
        ({
            let targets = scan.targets@;
            match PullDecision::of_count(targets.len()) {
                PullDecision::NoCandidate => choice matches Err(error) && error.says(
                    messages.pull().no_candidates_text(),
                ),
                PullDecision::Fixed => choice matches Ok(PullChoice::Fixed(line)) && line@
                    == messages.pull().fixed_target_text(targets[0].branch@) + "\n"@,
                PullDecision::Choose => choice matches Ok(PullChoice::Choose(picker)) && item_views(
                    picker.items@,
                ) == candidates_of(messages, targets, lines_of(targets)) && picker.options@ == (
                ListOptions {
                    mode: SelectionMode::Multi,
                    header: Some(header_of(messages, scan.excluded)),
                    preselect: current_lines(targets, lines_of(targets)),
                }),
            }
        }),
{
    match PullDecision::from_targets(scan.targets.as_slice()) {
        PullDecision::NoCandidate => Err(
            Error::Explained(owned(messages.pull().no_candidates())),
        ),
        PullDecision::Fixed => Ok(PullChoice::Fixed(report_target(messages, &scan.targets[0]))),
        PullDecision::Choose => {
            let lines = target_lines(scan.targets.as_slice());
            proof {
                assert(listed(lines@).0 =~= scan.targets@);
                assert(listed(lines@).1 =~= lines_of(scan.targets@));
            }
            let options = FinderOptions::new(SelectionMode::Multi).with_header(
                pull_header(messages, scan),
            ).with_preselect(preselect(&lines));
            Ok(PullChoice::Choose(Picker { items: items(messages, &lines), options }))
        },
    }
}

/// Finds the picked branches, in the order of the list. A name that was not offered is an
/// error: the wrong reference must not be updated.
pub fn in_candidate_order<'a>(
    messages: Messages,
    targets: &'a [PullTarget],
    selected: &Vec<String>,
) -> (found: Result<Vec<&'a PullTarget>, Error>)
    ensures
        match found {
            Ok(list) => {
                &&& missing_keys(keys_of(targets@), texts(selected@)).len() == 0
                &&& values(list@) == picked(targets@, texts(selected@))
            },
            Err(error) => {
                &&& missing_keys(keys_of(targets@), texts(selected@)).len() > 0
                &&& error.says(
                    messages.pull().selection_not_found_text(
                        join(missing_keys(keys_of(targets@), texts(selected@)), ", "@),
                    ),
                )
            },
        },
{
    match resolve_by_key(targets, selected) {
        Ok(list) => Ok(list),
        Err(absent) => Err(
            Error::Explained(messages.pull().selection_not_found(absent.as_str())),
        ),
    }
}

/// What a run over several branches came to.
#[derive(Debug, PartialEq, Eq, Default)]
pub struct PullSummary {
    /// How many branches were integrated.
    pub succeeded: usize,
    /// Those that were not, in the order of the run, skipped ones among them.
    pub failed: Vec<String>,
    /// How many of those git would not fast-forward: a skipped branch was not tried.
    pub not_fast_forwarded: usize,
}

impl PullSummary {
    pub fn has_failure(&self) -> (failed: bool)
        ensures
            failed == (self.failed@.len() > 0),
    {
        self.failed.len() > 0
    }

    pub fn has_fast_forward_failure(&self) -> (failed: bool)
        ensures
            failed == (self.not_fast_forwarded > 0),
    {
        self.not_fast_forwarded > 0
    }
}

/// Whether a remote is followed by some branch.
pub open spec fn is_followed(targets: Seq<PullTarget>, remote: Seq<char>) -> bool {
    exists|i: int| 0 <= i < targets.len() && (#[trigger] targets[i]).remote@ == remote
}

/// The remotes that branches follow, each once and in order: one fetch updates all of a
/// remote.
pub fn target_remotes(targets: &Vec<&PullTarget>) -> (remotes: Vec<String>)
    ensures
        ascending(texts(remotes@)),
        forall|remote: Seq<char>| #[trigger]
            texts(remotes@).contains(remote) <==> is_followed(values(targets@), remote),
{
    let ghost all = values(targets@);
    let mut remotes: Vec<String> = Vec::new();
    let mut i: usize = 0;
    while i < targets.len()
        invariant
            i <= targets@.len(),
            all == values(targets@),
            ascending(texts(remotes@)),
            forall|remote: Seq<char>| #[trigger]
                texts(remotes@).contains(remote) <==> is_followed(all.take(i as int), remote),
        decreases targets@.len() - i,
    {
        let ghost before = texts(remotes@);
        let target: &PullTarget = targets[i];
        insert_in_order(&mut remotes, target.remote.as_str());
        proof {
            let last = all[i as int].remote@;
            assert forall|remote: Seq<char>| #[trigger]
                texts(remotes@).contains(remote) <==> is_followed(all.take(i + 1), remote) by {
                assert(texts(remotes@).contains(remote) <==> before.contains(remote) || remote
                    == last);
                assert(all.take(i + 1)[i as int].remote@ == last);
                if is_followed(all.take(i as int), remote) {
                    let k = choose|k: int|
                        0 <= k < i && (#[trigger] all.take(i as int)[k]).remote@ == remote;
                    assert(all.take(i + 1)[k].remote@ == remote);
                }
                if is_followed(all.take(i + 1), remote) {
                    let k = choose|k: int|
                        0 <= k < i + 1 && (#[trigger] all.take(i + 1)[k]).remote@ == remote;
                    if k < i {
                        assert(all.take(i as int)[k].remote@ == remote);
                    }
                }
            }
        }
        i += 1;
    }
    assert(all.take(i as int) =~= all);
    remotes
}

/// The arguments that fetch a remote. Stale references are left alone: removing them is
/// asked for elsewhere.
pub open spec fn fetch_arguments(remote: Seq<char>) -> Seq<Seq<char>> {
    seq!["fetch"@, remote]
}

/// Writes the arguments that fetch a remote.
pub fn remote_fetch_args(remote: &str) -> (args: Vec<String>)
    ensures
        texts(args@) == fetch_arguments(remote@),
{
    let args = owned_all(&["fetch", remote]);
    assert(texts(args@) =~= fetch_arguments(remote@));
    args
}

/// The arguments that integrate a reference into the current branch.
pub open spec fn mode_arguments(mode: PullMode, reference: Seq<char>) -> Seq<Seq<char>> {
    match mode {
        PullMode::FfOnly => seq!["merge"@, "--ff-only"@, reference],
        PullMode::Merge => seq!["merge"@, reference],
        PullMode::Rebase => seq!["rebase"@, reference],
    }
}

/// Writes the arguments that integrate a reference into the current branch.
pub fn mode_args(mode: PullMode, reference: &str) -> (args: Vec<String>)
    ensures
        texts(args@) == mode_arguments(mode, reference@),
{
    let args = match mode {
        PullMode::FfOnly => owned_all(&["merge", "--ff-only", reference]),
        PullMode::Merge => owned_all(&["merge", reference]),
        PullMode::Rebase => owned_all(&["rebase", reference]),
    };
    assert(texts(args@) =~= mode_arguments(mode, reference@));
    args
}

/// The reference that a branch which is not checked out gets, and from where. Without a plus
/// sign git refuses what is no fast-forward.
pub open spec fn refspec_of(target: PullTarget) -> Seq<char> {
    target.tracking_ref@ + ":"@ + LOCAL_BRANCH_PREFIX@ + target.branch@
}

/// The arguments that let a branch follow its upstream. Git refuses to write to a branch that
/// is checked out, so the current one is merged.
pub open spec fn integrate_arguments(target: PullTarget) -> Seq<Seq<char>> {
    if target.is_current {
        mode_arguments(PullMode::FfOnly, target.tracking_ref@)
    } else {
        seq!["fetch"@, CURRENT_REPOSITORY@, refspec_of(target)]
    }
}

/// Writes the arguments that let a branch follow its upstream.
pub fn integrate_args(target: &PullTarget) -> (args: Vec<String>)
    ensures
        texts(args@) == integrate_arguments(*target),
{
    if target.is_current {
        current_branch_args(target)
    } else {
        other_branch_args(target)
    }
}

/// Writes the arguments for the current branch.
pub fn current_branch_args(target: &PullTarget) -> (args: Vec<String>)
    ensures
        texts(args@) == mode_arguments(PullMode::FfOnly, target.tracking_ref@),
{
    mode_args(PullMode::FfOnly, target.tracking_ref.as_str())
}

/// Writes the arguments for any other branch.
pub fn other_branch_args(target: &PullTarget) -> (args: Vec<String>)
    ensures
        texts(args@) == seq!["fetch"@, CURRENT_REPOSITORY@, refspec_of(*target)],
{
    let refspec = concat4(
        target.tracking_ref.as_str(),
        ":",
        LOCAL_BRANCH_PREFIX,
        target.branch.as_str(),
    );
    let args = owned_all(&["fetch", CURRENT_REPOSITORY, refspec.as_str()]);
    assert(texts(args@) =~= seq!["fetch"@, CURRENT_REPOSITORY@, refspec_of(*target)]);
    args
}

/// No branch is ever forced: a reference that git forms starts with no plus sign, and then
/// neither does what is fetched.
pub proof fn law_no_update_is_forced(target: PullTarget)
    requires
        TRACKING_PREFIX@.is_prefix_of(target.tracking_ref@),
    ensures
        target.is_current ==> integrate_arguments(target)[1] == "--ff-only"@,
        !target.is_current ==> integrate_arguments(target)[2][0] != '+',
{
    reveal_strlit("refs/remotes/");
    assert(TRACKING_PREFIX@[0] == 'r');
    assert(target.tracking_ref@[0] == TRACKING_PREFIX@[0]);
    assert(refspec_of(target)[0] == target.tracking_ref@[0]);
}

/// A branch is integrated in the same way, whether it is the only one or one of several.
pub proof fn law_current_branch_is_fast_forwarded_alike(target: PullTarget)
    requires
        target.is_current,
    ensures
        integrate_arguments(target) == mode_arguments(PullMode::FfOnly, target.tracking_ref@),
{
}

/// Announces a branch.
pub fn progress_line(index: usize, total: usize, target: &PullTarget) -> (line: String)
    requires
        index < usize::MAX,
    ensures
        line@ == progress_text(index as int, total as nat, target.branch@),
{
    progress(index, total, target.branch.as_str())
}

/// Says that a branch is skipped.
pub fn skipped_line(messages: Messages, target: &PullTarget) -> (line: String)
    ensures
        line@ == messages.pull().skipped_text(target.remote@, target.branch@),
{
    messages.pull().skipped(target.remote.as_str(), target.branch.as_str())
}

/// What comes next in a run over several branches.
#[derive(Debug, PartialEq, Eq)]
pub enum PullStep {
    /// A remote is fetched.
    Fetch(Vec<String>),
    /// A branch is announced and skipped: its remote could not be fetched.
    Skip { progress: String, reason: String },
    /// A branch is announced and integrated.
    Integrate { progress: String, args: Vec<String> },
    /// Nothing.
    Done,
}

/// The contents of a [`PullStep`].
#[verifier::ext_equal]
pub enum NextPull {
    Fetch(Seq<Seq<char>>),
    Skip { progress: Seq<char>, reason: Seq<char> },
    Integrate { progress: Seq<char>, args: Seq<Seq<char>> },
    Done,
}

impl View for PullStep {
    type V = NextPull;

    open spec fn view(&self) -> NextPull {
        match *self {
            PullStep::Fetch(args) => NextPull::Fetch(texts(args@)),
            PullStep::Skip { progress, reason } => NextPull::Skip {
                progress: progress@,
                reason: reason@,
            },
            PullStep::Integrate { progress, args } => NextPull::Integrate {
                progress: progress@,
                args: texts(args@),
            },
            PullStep::Done => NextPull::Done,
        }
    }
}

/// Where a run over several branches is: first the remotes are fetched, each once, and then
/// the branches are visited.
#[verifier::ext_equal]
pub struct PullState {
    pub targets: Seq<PullTarget>,
    pub remotes: Seq<Seq<char>>,
    /// How many remotes were fetched, or tried.
    pub fetched: nat,
    /// Those that failed.
    pub failed_remotes: Seq<Seq<char>>,
    /// How many branches were visited.
    pub visited: nat,
    pub succeeded: nat,
    pub failed: Seq<Seq<char>>,
    pub not_fast_forwarded: nat,
}

impl PullState {
    /// Whether a run can be there.
    pub open spec fn valid(self) -> bool {
        &&& ascending(self.remotes)
        &&& forall|remote: Seq<char>| #[trigger]
            self.remotes.contains(remote) <==> is_followed(self.targets, remote)
        &&& self.fetched <= self.remotes.len()
        &&& self.visited <= self.targets.len()
        &&& self.visited > 0 ==> self.fetched == self.remotes.len()
        &&& self.succeeded + self.failed.len() == self.visited
        &&& self.not_fast_forwarded <= self.failed.len()
    }

    /// The start of a run.
    pub open spec fn is_start(self, targets: Seq<PullTarget>) -> bool {
        &&& self.targets == targets
        &&& self.fetched == 0
        &&& self.failed_remotes.len() == 0
        &&& self.visited == 0
        &&& self.succeeded == 0
        &&& self.failed.len() == 0
        &&& self.not_fast_forwarded == 0
    }

    /// What comes next.
    pub open spec fn next(self, messages: Messages) -> NextPull {
        if self.fetched < self.remotes.len() {
            NextPull::Fetch(fetch_arguments(self.remotes[self.fetched as int]))
        } else if self.visited < self.targets.len() {
            let target = self.targets[self.visited as int];
            let progress = progress_text(self.visited as int, self.targets.len(), target.branch@);
            if self.failed_remotes.contains(target.remote@) {
                NextPull::Skip {
                    progress,
                    reason: messages.pull().skipped_text(target.remote@, target.branch@),
                }
            } else {
                NextPull::Integrate { progress, args: integrate_arguments(target) }
            }
        } else {
            NextPull::Done
        }
    }

    /// The branch that is visited next.
    pub open spec fn branch(self) -> Seq<char> {
        self.targets[self.visited as int].branch@
    }

    /// Where the run is after a skipped branch.
    pub open spec fn after_skip(self) -> PullState {
        PullState {
            visited: self.visited + 1,
            failed: self.failed.push(self.branch()),
            ..self
        }
    }

    /// Where the run is after a run of git.
    pub open spec fn after_run(self, succeeded: bool) -> PullState {
        if self.fetched < self.remotes.len() {
            PullState {
                fetched: self.fetched + 1,
                failed_remotes: if succeeded {
                    self.failed_remotes
                } else {
                    self.failed_remotes.push(self.remotes[self.fetched as int])
                },
                ..self
            }
        } else if succeeded {
            PullState { visited: self.visited + 1, succeeded: self.succeeded + 1, ..self }
        } else {
            PullState {
                visited: self.visited + 1,
                failed: self.failed.push(self.branch()),
                not_fast_forwarded: self.not_fast_forwarded + 1,
                ..self
            }
        }
    }

    /// What is said where git does not start: that stops the run.
    pub open spec fn start_failure(self, messages: Messages) -> Seq<char> {
        if self.fetched < self.remotes.len() {
            messages.pull().fetch_start_failed_text(self.remotes[self.fetched as int])
        } else {
            messages.pull().integration_start_failed_text(self.branch())
        }
    }
}

/// Whether a run is where it is after git ended.
pub open spec fn is_recorded(
    before: PullState,
    after: PullState,
    result: Result<(), Error>,
    messages: Messages,
    outcome: RunOutcome,
) -> bool {
    match outcome {
        RunOutcome::Succeeded => result is Ok && after == before.after_run(true),
        RunOutcome::Failed => result is Ok && after == before.after_run(false),
        RunOutcome::NotStarted(failure) => {
            &&& after == before
            &&& result matches Err(Error::NotStarted { explanation, cause })
            &&& explanation@ == before.start_failure(messages)
            &&& cause == failure
        },
    }
}

/// A run over several branches.
#[derive(Debug)]
pub struct PullRun<'a> {
    targets: Vec<&'a PullTarget>,
    remotes: Vec<String>,
    fetched: usize,
    failed_remotes: Vec<String>,
    visited: usize,
    summary: PullSummary,
}

impl<'a> View for PullRun<'a> {
    type V = PullState;

    closed spec fn view(&self) -> PullState {
        PullState {
            targets: values(self.targets@),
            remotes: texts(self.remotes@),
            fetched: self.fetched as nat,
            failed_remotes: texts(self.failed_remotes@),
            visited: self.visited as nat,
            succeeded: self.summary.succeeded as nat,
            failed: texts(self.summary.failed@),
            not_fast_forwarded: self.summary.not_fast_forwarded as nat,
        }
    }
}

impl<'a> PullRun<'a> {
    /// Starts a run.
    pub fn new(targets: Vec<&'a PullTarget>) -> (run: Self)
        ensures
            run@.valid(),
            run@.is_start(values(targets@)),
    {
        let remotes = target_remotes(&targets);
        let summary = PullSummary { succeeded: 0, failed: Vec::new(), not_fast_forwarded: 0 };
        PullRun { targets, remotes, fetched: 0, failed_remotes: Vec::new(), visited: 0, summary }
    }

    /// Says what comes next.
    pub fn next(&self, messages: Messages) -> (step: PullStep)
        requires
            self@.valid(),
        ensures
            step@ == self@.next(messages),
    {
        if self.fetched < self.remotes.len() {
            let remote: &String = &self.remotes[self.fetched];
            assert(self@.remotes[self.fetched as int] == remote@);
            return PullStep::Fetch(remote_fetch_args(remote.as_str()));
        }
        if self.visited < self.targets.len() {
            let target: &PullTarget = self.targets[self.visited];
            assert(self@.targets[self.visited as int] == *target);
            let progress = progress_line(self.visited, self.targets.len(), target);
            if contains_text(&self.failed_remotes, target.remote.as_str()) {
                PullStep::Skip { progress, reason: skipped_line(messages, target) }
            } else {
                PullStep::Integrate { progress, args: integrate_args(target) }
            }
        } else {
            PullStep::Done
        }
    }

    /// Goes on after a skipped branch.
    pub fn skip(&mut self)
        requires
            old(self)@.valid(),
            old(self)@.fetched == old(self)@.remotes.len(),
            old(self)@.visited < old(self)@.targets.len(),
        ensures
            final(self)@ == old(self)@.after_skip(),
            final(self)@.valid(),
    {
        let total: usize = self.targets.len();
        let target: &PullTarget = self.targets[self.visited];
        assert(self@.targets[self.visited as int] == *target);
        assert(self.visited < total);
        self.summary.failed.push(target.branch.clone());
        self.visited = self.visited + 1;
    }

    /// Goes on after a run of git. Where git did not start, nothing goes on.
    pub fn record(&mut self, messages: Messages, outcome: RunOutcome) -> (result: Result<(), Error>)
        requires
            old(self)@.valid(),
            old(self)@.fetched < old(self)@.remotes.len() || old(self)@.visited
                < old(self)@.targets.len(),
        ensures
            final(self)@.valid(),
            is_recorded(old(self)@, final(self)@, result, messages, outcome),
    {
        if self.fetched < self.remotes.len() {
            let remote: &String = &self.remotes[self.fetched];
            assert(self@.remotes[self.fetched as int] == remote@);
            match outcome {
                RunOutcome::Succeeded => {},
                RunOutcome::Failed => {
                    self.failed_remotes.push(remote.clone());
                },
                RunOutcome::NotStarted(cause) => {
                    return Err(
                        Error::NotStarted {
                            explanation: messages.pull().fetch_start_failed(remote.as_str()),
                            cause,
                        },
                    );
                },
            }
            self.fetched = self.fetched + 1;
            return Ok(());
        }
        let total: usize = self.targets.len();
        let target: &PullTarget = self.targets[self.visited];
        assert(self@.targets[self.visited as int] == *target);
        assert(self@.succeeded + self@.failed.len() == self.visited < total);
        match outcome {
            RunOutcome::Succeeded => {
                self.summary.succeeded = self.summary.succeeded + 1;
            },
            RunOutcome::Failed => {
                self.summary.failed.push(target.branch.clone());
                self.summary.not_fast_forwarded = self.summary.not_fast_forwarded + 1;
            },
            RunOutcome::NotStarted(cause) => {
                return Err(
                    Error::NotStarted {
                        explanation: messages.pull().integration_start_failed(
                            target.branch.as_str(),
                        ),
                        cause,
                    },
                );
            },
        }
        self.visited = self.visited + 1;
        Ok(())
    }

    /// What the run has come to.
    pub fn summary(self) -> (summary: PullSummary)
        ensures
            summary.succeeded == self@.succeeded,
            texts(summary.failed@) == self@.failed,
            summary.not_fast_forwarded == self@.not_fast_forwarded,
    {
        self.summary
    }
}

/// The line that sums a run up.
pub fn summary_line(messages: Messages, result: &PullSummary) -> (line: String)
    ensures
        line@ == summary_text(messages, result.succeeded, texts(result.failed@)),
{
    summary(messages, result.succeeded, &result.failed)
}

/// What is told after a run: the counts, and what to do where a fast-forward failed.
pub open spec fn report_of(messages: Messages, result: PullSummary) -> Seq<char> {
    let line = summary_text(messages, result.succeeded, texts(result.failed@)) + "\n"@;
    if result.not_fast_forwarded > 0 {
        line + messages.pull().fast_forward_guidance_text() + "\n"@
    } else {
        line
    }
}

/// Tells what a run came to.
pub fn report_summary(messages: Messages, result: &PullSummary) -> (text: String)
    ensures
        text@ == report_of(messages, *result),
{
    let mut text = report_line(summary_line(messages, result).as_str());
    if result.has_fast_forward_failure() {
        text.append(messages.pull().fast_forward_guidance());
        text.append("\n");
    }
    text
}

/// What a notification says of a run: counts, and no names.
pub fn notification_body(messages: Messages, result: &PullSummary) -> (text: String)
    ensures
        text@ == messages.common().run_summary_text(
            result.succeeded,
            result.failed@.len() as usize,
        ),
{
    messages.common().run_summary(result.succeeded, result.failed.len())
}

/// How the command ends: a run in which anything failed is an error.
pub fn conclude(messages: Messages, result: &PullSummary) -> (end: Result<(), Error>)
    ensures
        match end {
            Ok(_) => result.failed@.len() == 0,
            Err(error) => result.failed@.len() > 0 && error.says(
                messages.pull().partial_failure_text(),
            ),
        },
{
    if result.has_failure() {
        return Err(Error::Explained(owned(messages.pull().partial_failure())));
    }
    Ok(())
}

/// A line with its end.
pub fn report_line(line: &str) -> (text: String)
    ensures
        text@ == line@ + "\n"@,
{
    concat2(line, "\n")
}

/// What is said where there is one branch only.
pub fn fixed_target_message(messages: Messages, target: &PullTarget) -> (line: String)
    ensures
        line@ == messages.pull().fixed_target_text(target.branch@),
{
    messages.pull().fixed_target(target.branch.as_str())
}

/// Says that there is one branch only.
pub fn report_target(messages: Messages, target: &PullTarget) -> (text: String)
    ensures
        text@ == messages.pull().fixed_target_text(target.branch@) + "\n"@,
{
    report_line(fixed_target_message(messages, target).as_str())
}

/// The current branch and its upstream.
#[derive(Debug, PartialEq, Eq)]
pub struct CurrentTarget {
    pub branch: String,
    pub remote: String,
    /// The local reference that follows the upstream.
    pub reference: String,
}

/// Why the current branch cannot be integrated. A remote that is not registered is not
/// contacted: its name may be any address.
pub open spec fn target_problem(
    messages: Messages,
    branch: Option<Seq<char>>,
    upstream: Option<Upstream>,
    remotes: Seq<Seq<char>>,
) -> Option<Seq<char>> {
    match (branch, upstream) {
        (None, _) => Some(messages.common().detached_head_without_upstream_text()),
        (Some(branch), None) => Some(messages.common().upstream_not_configured_text(branch)),
        (Some(branch), Some(upstream)) => if upstream.tracking_text() is None {
            Some(
                messages.pull().tracking_ref_unavailable_text(
                    branch,
                    upstream.remote@,
                    upstream.merge_ref@,
                ),
            )
        } else if !remotes.contains(upstream.remote@) {
            Some(messages.pull().unknown_remote_text(branch, upstream.remote@))
        } else {
            None
        },
    }
}

/// Determines what the current branch follows.
pub fn resolve_current_target(
    messages: Messages,
    branch: Option<&str>,
    upstream: Option<&Upstream>,
    remotes: &Vec<String>,
) -> (target: Result<CurrentTarget, Error>)
    ensures
        ({
            let known = match upstream {
                Some(upstream) => Some(*upstream),
                None => None,
            };
            match target_problem(messages, text_of(branch), known, texts(remotes@)) {
                Some(problem) => target matches Err(error) && error.says(problem),
                None => target matches Ok(target) && target.branch@ == text_of(branch)->0
                    && target.remote@ == known->0.remote@ && target.reference@
                    == known->0.tracking_text()->0,
            }
        }),
{
    let branch = match branch {
        Some(branch) => branch,
        None => {
            return Err(
                Error::Explained(owned(messages.common().detached_head_without_upstream())),
            );
        },
    };
    let upstream = match upstream {
        Some(upstream) => upstream,
        None => {
            return Err(Error::Explained(messages.common().upstream_not_configured(branch)));
        },
    };
    let reference = match upstream.tracking_ref() {
        Some(reference) => reference,
        None => {
            return Err(
                Error::Explained(
                    messages.pull().tracking_ref_unavailable(
                        branch,
                        upstream.remote.as_str(),
                        upstream.merge_ref.as_str(),
                    ),
                ),
            );
        },
    };
    if !contains_text(remotes, upstream.remote.as_str()) {
        return Err(
            Error::Explained(messages.pull().unknown_remote(branch, upstream.remote.as_str())),
        );
    }
    Ok(CurrentTarget { branch: owned(branch), remote: upstream.remote.clone(), reference })
}

/// The run that fetches what the current branch follows.
pub fn fetch_current(messages: Messages, target: &CurrentTarget) -> (run: GitRun)
    ensures
        run.is(fetch_arguments(target.remote@), messages.pull().fetch_failed_text(target.remote@)),
{
    GitRun {
        args: remote_fetch_args(target.remote.as_str()),
        failure: messages.pull().fetch_failed(target.remote.as_str()),
    }
}

/// What follows once the current branch was compared with what it follows.
#[derive(Debug, PartialEq, Eq)]
pub enum Integration {
    /// There is nothing to integrate. That is no error, and is said.
    UpToDate(String),
    /// Consent is asked for: under a header, for a command. Then git runs.
    Confirm { header: String, command: String, run: GitRun },
}

/// Decides what follows, from how far the branch is ahead and behind after the fetch. A
/// reference that is still missing is an error.
pub fn integrate_current_branch(
    messages: Messages,
    target: &CurrentTarget,
    mode: PullMode,
    position: Option<(usize, usize)>,
) -> (next: Result<Integration, Error>)
    ensures
        match position {
            None => next matches Err(error) && error.says(
                messages.pull().missing_tracking_ref_text(
                    target.reference@,
                    target.remote@,
                    target.branch@,
                ),
            ),
            Some((ahead, behind)) => if behind == 0 {
                next matches Ok(Integration::UpToDate(text)) && text@ == up_to_date_of(
                    messages,
                    *target,
                    ahead,
                ) + "\n"@
            } else {
                next matches Ok(Integration::Confirm { header, command, run }) && header@
                    == confirmation_of(messages, *target, behind, mode) && command@ == "git "@
                    + join(mode_arguments(mode, target.reference@), " "@) && run.is(
                    mode_arguments(mode, target.reference@),
                    messages.pull().integration_failed_text(target.reference@),
                )
            },
        },
{
    let (ahead, behind) = match position {
        Some((ahead, behind)) => (ahead, behind),
        None => {
            return Err(Error::Explained(missing_tracking_message(messages, target)));
        },
    };
    if behind == 0 {
        return Ok(Integration::UpToDate(report_up_to_date(messages, target, ahead)));
    }
    let args = mode_args(mode, target.reference.as_str());
    Ok(
        Integration::Confirm {
            header: confirmation_header(messages, target, behind, mode),
            command: command_display(&args),
            run: GitRun {
                args,
                failure: messages.pull().integration_failed(target.reference.as_str()),
            },
        },
    )
}

/// Says that a reference is missing even after the fetch.
pub fn missing_tracking_message(messages: Messages, target: &CurrentTarget) -> (text: String)
    ensures
        text@ == messages.pull().missing_tracking_ref_text(
            target.reference@,
            target.remote@,
            target.branch@,
        ),
{
    messages.pull().missing_tracking_ref(
        target.reference.as_str(),
        target.remote.as_str(),
        target.branch.as_str(),
    )
}

/// What is said where there is nothing to integrate. Commits that are not pushed yet are
/// counted, being easy to forget.
pub open spec fn up_to_date_of(messages: Messages, target: CurrentTarget, ahead: usize) -> Seq<
    char,
> {
    let line = messages.pull().up_to_date_text(target.branch@, target.reference@);
    if ahead > 0 {
        line + "\n"@ + messages.pull().unpushed_commits_text(ahead)
    } else {
        line
    }
}

/// Says that there is nothing to integrate.
pub fn up_to_date_message(messages: Messages, target: &CurrentTarget, ahead: usize) -> (text: String)
    ensures
        text@ == up_to_date_of(messages, *target, ahead),
{
    let mut text = messages.pull().up_to_date(target.branch.as_str(), target.reference.as_str());
    if ahead > 0 {
        text.append("\n");
        text.append(messages.pull().unpushed_commits(ahead).as_str());
    }
    text
}

/// Says that there is nothing to integrate, on lines of its own.
pub fn report_up_to_date(messages: Messages, target: &CurrentTarget, ahead: usize) -> (text: String)
    ensures
        text@ == up_to_date_of(messages, *target, ahead) + "\n"@,
{
    report_line(up_to_date_message(messages, target, ahead).as_str())
}

/// What is asked: how many commits come in, and that history is rewritten, where it is.
pub open spec fn confirmation_of(
    messages: Messages,
    target: CurrentTarget,
    count: usize,
    mode: PullMode,
) -> Seq<char> {
    let header = messages.pull().confirmation_text(target.reference@, count, target.branch@);
    match mode.note_text(messages) {
        Some(note) => header + "\n"@ + note,
        None => header,
    }
}

/// Writes what is asked.
pub fn confirmation_header(
    messages: Messages,
    target: &CurrentTarget,
    count: usize,
    mode: PullMode,
) -> (header: String)
    ensures
        header@ == confirmation_of(messages, *target, count, mode),
{
    let mut header = messages.pull().confirmation(
        target.reference.as_str(),
        count,
        target.branch.as_str(),
    );
    if let Some(note) = mode.note(messages) {
        header.append("\n");
        header.append(note);
    }
    header
}

/// Where a run ends, where git succeeds on the arguments that `succeeds` says and fails on
/// all others.
pub open spec fn end_of(state: PullState, succeeds: spec_fn(Seq<Seq<char>>) -> bool) -> PullState
    decreases state.remotes.len() - state.fetched, state.targets.len() - state.visited,
{
    if state.fetched < state.remotes.len() {
        end_of(
            state.after_run(succeeds(fetch_arguments(state.remotes[state.fetched as int]))),
            succeeds,
        )
    } else if state.fetched == state.remotes.len() && state.visited < state.targets.len() {
        let target = state.targets[state.visited as int];
        if state.failed_remotes.contains(target.remote@) {
            end_of(state.after_skip(), succeeds)
        } else {
            end_of(state.after_run(succeeds(integrate_arguments(target))), succeeds)
        }
    } else {
        state
    }
}

/// Whether a branch follows its upstream in the end: its remote was fetched, and git then
/// took the branch there.
pub open spec fn follows(target: PullTarget, succeeds: spec_fn(Seq<Seq<char>>) -> bool) -> bool {
    succeeds(fetch_arguments(target.remote@)) && succeeds(integrate_arguments(target))
}

/// The branches that do not follow their upstreams in the end.
pub open spec fn left_behind(
    targets: Seq<PullTarget>,
    succeeds: spec_fn(Seq<Seq<char>>) -> bool,
) -> Seq<Seq<char>> {
    targets.filter(|target: PullTarget| !follows(target, succeeds)).map_values(
        |target: PullTarget| target.branch@,
    )
}

proof fn lemma_end_of(state: PullState, succeeds: spec_fn(Seq<Seq<char>>) -> bool)
    requires
        state.valid(),
        forall|i: int|
            0 <= i < state.fetched ==> (state.failed_remotes.contains(#[trigger] state.remotes[i])
                <==> !succeeds(fetch_arguments(state.remotes[i]))),
        forall|i: int|
            state.fetched <= i < state.remotes.len() ==> !state.failed_remotes.contains(
                #[trigger] state.remotes[i],
            ),
        state.failed == left_behind(state.targets.take(state.visited as int), succeeds),
    ensures
        ({
            let end = end_of(state, succeeds);
            &&& end.valid()
            &&& end.targets == state.targets
            &&& end.visited == state.targets.len()
            &&& end.failed == left_behind(state.targets, succeeds)
        }),
    decreases state.remotes.len() - state.fetched, state.targets.len() - state.visited,
{
    let bad = |target: PullTarget| !follows(target, succeeds);
    let name = |target: PullTarget| target.branch@;
    if state.fetched < state.remotes.len() {
        let remote = state.remotes[state.fetched as int];
        let next = state.after_run(succeeds(fetch_arguments(remote)));
        assert forall|i: int|
            0 <= i < state.remotes.len() && i != state.fetched implies #[trigger] state.remotes[i]
                != remote by {
            crate::text::lemma_precedes_total(state.remotes[i], remote);
            if i < state.fetched {
                assert(crate::text::precedes(state.remotes[i], remote));
            } else {
                assert(crate::text::precedes(remote, state.remotes[i]));
            }
        }
        assert forall|text: Seq<char>| #[trigger]
            next.failed_remotes.contains(text) <==> state.failed_remotes.contains(text) || (text
                == remote && !succeeds(fetch_arguments(remote))) by {
            if !succeeds(fetch_arguments(remote)) {
                let grown = state.failed_remotes.push(remote);
                assert(grown.last() == remote);
                if state.failed_remotes.contains(text) {
                    let k = choose|k: int|
                        0 <= k < state.failed_remotes.len() && state.failed_remotes[k] == text;
                    assert(grown[k] == text);
                }
            }
        }
        lemma_end_of(next, succeeds);
    } else if state.visited < state.targets.len() {
        let i = state.visited as int;
        let target = state.targets[i];
        lemma_filter_step(state.targets, bad, i);
        let before = state.targets.take(i).filter(bad);
        assert(before.push(target).map_values(name) =~= before.map_values(name).push(target.branch@));
        assert(is_followed(state.targets, target.remote@));
        assert(state.remotes.contains(target.remote@));
        let k = choose|k: int| 0 <= k < state.remotes.len() && state.remotes[k] == target.remote@;
        assert(state.failed_remotes.contains(state.remotes[k]) <==> !succeeds(
            fetch_arguments(state.remotes[k]),
        ));
        if state.failed_remotes.contains(target.remote@) {
            lemma_end_of(state.after_skip(), succeeds);
        } else {
            lemma_end_of(state.after_run(succeeds(integrate_arguments(target))), succeeds);
        }
    } else {
        assert(state.targets.take(state.visited as int) =~= state.targets);
    }
}

/// However many branches there are and whatever fails, a run visits every branch, tells
/// each one once, and tells those that do not follow their upstreams in the end, in order.
pub proof fn law_a_run_tells_every_branch_once(
    start: PullState,
    targets: Seq<PullTarget>,
    succeeds: spec_fn(Seq<Seq<char>>) -> bool,
)
    requires
        start.valid(),
        start.is_start(targets),
    ensures
        ({
            let end = end_of(start, succeeds);
            &&& end.failed == left_behind(targets, succeeds)
            &&& end.succeeded + end.failed.len() == targets.len()
            &&& end.not_fast_forwarded <= end.failed.len()
        }),
{
    let bad = |target: PullTarget| !follows(target, succeeds);
    lemma_filter_empty(targets, bad);
    assert(start.failed =~= left_behind(targets.take(0), succeeds));
    lemma_end_of(start, succeeds);
}

/// A branch whose remote could not be fetched is skipped: a stale reference is never
/// integrated.
pub proof fn law_a_stale_reference_is_not_integrated(state: PullState, messages: Messages)
    requires
        state.fetched == state.remotes.len(),
        state.visited < state.targets.len(),
        state.failed_remotes.contains(state.targets[state.visited as int].remote@),
    ensures
        state.next(messages) is Skip,
{
}

/// No branch is integrated before every remote was fetched.
pub proof fn law_remotes_are_fetched_first(state: PullState, messages: Messages)
    requires
        state.valid(),
    ensures
        state.next(messages) is Integrate ==> state.fetched == state.remotes.len(),
        state.next(messages) is Fetch ==> state.visited == 0,
{
}

/// What git is told does not depend on the language.
pub proof fn law_the_language_changes_no_arguments(
    state: PullState,
    messages: Messages,
    others: Messages,
)
    ensures
        state.next(messages) matches NextPull::Fetch(args) ==> state.next(others)
            == NextPull::Fetch(args),
        state.next(messages) matches NextPull::Integrate { progress, args } ==> state.next(others)
            == (NextPull::Integrate { progress, args }),
{
}

/// A branch follows its upstream without being forced: the current one is merged by fast-forward
/// only, and any other one gets the reference of its upstream, from the repository itself.
pub proof fn law_a_branch_gets_its_own_upstream(target: &PullTarget, args: Vec<String>)
    requires
        call_ensures(integrate_args, (target,), args),
    ensures
        target.is_current ==> texts(args@) == seq!["merge"@, "--ff-only"@, target.tracking_ref@],
        !target.is_current ==> texts(args@) == seq![
            "fetch"@,
            "."@,
            target.tracking_ref@ + ":"@ + "refs/heads/"@ + target.branch@,
        ],
{
}

/// That history is rewritten is said of a rebase, and of nothing else.
pub proof fn law_only_a_rebase_rewrites_history(
    messages: Messages,
    mode: PullMode,
    note: Option<&'static str>,
    reference: &str,
    args: Vec<String>,
)
    requires
        call_ensures(PullMode::note, (mode, messages), note),
        call_ensures(mode_args, (mode, reference), args),
    ensures
        note is Some <==> texts(args@)[0] == "rebase"@,
        texts(args@).last() == reference@,
{
    reveal_strlit("rebase");
    reveal_strlit("merge");
    assert("rebase"@.len() == 6 && "merge"@.len() == 5);
}

/// The preview shows what a branch would take in: what its upstream has and it has not.
pub proof fn law_a_preview_shows_what_would_come_in(target: &PullTarget, args: Vec<String>)
    requires
        call_ensures(preview_args, (target,), args),
    ensures
        texts(args@)[0] == "log"@,
        texts(args@).last() == "--"@,
        texts(args@)[texts(args@).len() - 2] == target.branch@ + ".."@ + target.tracking_ref@,
{
}

/// There is nothing to integrate if and only if the branch is behind by nothing, however far it
/// is ahead; a missing reference settles neither.
pub proof fn law_what_is_missing_is_integrated(
    messages: Messages,
    target: &CurrentTarget,
    mode: PullMode,
    ahead: usize,
    behind: usize,
    next: Result<Integration, Error>,
    unknown: Result<Integration, Error>,
    args: Vec<String>,
    reference: &str,
)
    requires
        call_ensures(integrate_current_branch, (messages, target, mode, Some((ahead, behind))), next),
        call_ensures(integrate_current_branch, (messages, target, mode, None), unknown),
        reference@ == target.reference@,
        call_ensures(mode_args, (mode, reference), args),
    ensures
        unknown is Err,
        next is Ok,
        behind == 0 <==> next->Ok_0 is UpToDate,
        behind > 0 ==> (next matches Ok(Integration::Confirm { command, run, .. }) && texts(run.args@)
            == texts(args@) && command@ == "git "@ + join(texts(args@), " "@)),
{
}

/// Commits that are not pushed yet are told if and only if there are any.
pub proof fn law_unpushed_commits_are_told(
    messages: Messages,
    target: &CurrentTarget,
    ahead: usize,
    told: String,
    none: String,
)
    requires
        call_ensures(up_to_date_message, (messages, target, ahead), told),
        call_ensures(up_to_date_message, (messages, target, 0), none),
    ensures
        none@.is_prefix_of(told@),
        ahead > 0 ==> told@ == none@ + "\n"@ + messages.pull().unpushed_commits_text(ahead),
{
}

/// The current branch follows what is configured for it, by the local reference of that branch
/// and remote, and a remote that is not registered is never contacted.
pub proof fn law_the_current_branch_follows_its_upstream(
    messages: Messages,
    branch: &str,
    upstream: &Upstream,
    remotes: &Vec<String>,
    followed: Seq<char>,
    target: Result<CurrentTarget, Error>,
)
    requires
        upstream.merge_ref@ == "refs/heads/"@ + followed,
        call_ensures(
            resolve_current_target,
            (messages, Some(branch), Some(upstream), remotes),
            target,
        ),
    ensures
        target is Ok <==> texts(remotes@).contains(upstream.remote@),
        target matches Ok(target) ==> {
            &&& target.branch@ == branch@
            &&& target.remote@ == upstream.remote@
            &&& target.reference@ == "refs/remotes/"@ + upstream.remote@ + "/"@ + followed
        },
{
    let prefix = "refs/heads/"@;
    assert(prefix.is_prefix_of(upstream.merge_ref@));
    assert(upstream.merge_ref@.skip(prefix.len() as int) =~= followed);
}

/// A run ends in an error if and only if a branch was left behind, and what to do about a
/// fast-forward that git refused is said if and only if it refused one.
pub proof fn law_a_failure_is_told_in_the_end(
    messages: Messages,
    result: &PullSummary,
    end: Result<(), Error>,
    report: String,
    line: String,
)
    requires
        call_ensures(conclude, (messages, result), end),
        call_ensures(report_summary, (messages, result), report),
        call_ensures(summary_line, (messages, result), line),
    ensures
        end is Err <==> result.failed@.len() > 0,
        result.not_fast_forwarded == 0 ==> report@ == line@ + "\n"@,
        result.not_fast_forwarded > 0 ==> report@ == line@ + "\n"@
            + messages.pull().fast_forward_guidance_text() + "\n"@,
{
}

/// The current branch is marked with a star, and its upstream is called without what every
/// upstream begins with.
pub proof fn law_a_line_leads_from_a_branch_to_its_upstream(
    target: &PullTarget,
    short: Seq<char>,
    row: Vec<String>,
)
    requires
        target.tracking_ref@ == "refs/remotes/"@ + short,
        call_ensures(cells, (target,), row),
    ensures
        texts(row@).len() == 3,
        texts(row@)[0].skip(2) == target.branch@,
        texts(row@)[0][0] == '*' <==> target.is_current,
        texts(row@)[2] == short,
{
    reveal_strlit("* ");
    reveal_strlit("  ");
    let prefix = "refs/remotes/"@;
    assert(prefix.is_prefix_of(target.tracking_ref@));
    assert(target.tracking_ref@.skip(prefix.len() as int) =~= short);
    assert(texts(row@)[0].skip(2) =~= target.branch@);
}

/// A list is shown if and only if there is a choice: for one branch it is that one, and for none
/// there is nothing to do. Every branch is in the list, by its name.
pub proof fn law_a_list_is_shown_where_there_is_a_choice(
    messages: Messages,
    scan: &PullScan,
    choice: Result<PullChoice, Error>,
)
    requires
        call_ensures(choose_targets, (messages, scan), choice),
    ensures
        choice is Err <==> scan.targets@.len() == 0,
        choice matches Ok(PullChoice::Fixed(_)) <==> scan.targets@.len() == 1,
        choice matches Ok(PullChoice::Choose(picker)) ==> picker.items@.len() == scan.targets@.len()
            && forall|i: int|
            0 <= i < scan.targets@.len() ==> (#[trigger] picker.items@[i]).key@
                == scan.targets@[i].branch@,
{
    if let Ok(PullChoice::Choose(picker)) = choice {
        assert(item_views(picker.items@).len() == picker.items@.len());
        assert forall|i: int| 0 <= i < scan.targets@.len() implies (#[trigger] picker.items@[i]).key@
            == scan.targets@[i].branch@ by {
            assert(item_views(picker.items@)[i] == picker.items@[i]@);
        }
    }
}

/// What is picked from the start is the current branch, and nothing else.
pub proof fn law_the_current_branch_is_picked_from_the_start(
    targets: Seq<PullTarget>,
    lines: Seq<Seq<char>>,
    line: Seq<char>,
)
    requires
        targets.len() <= lines.len(),
    ensures
        current_lines(targets, lines).contains(line) <==> exists|i: int|
            0 <= i < targets.len() && (#[trigger] targets[i]).is_current && lines[i] == line,
    decreases targets.len(),
{
    if targets.len() > 0 {
        let rest = targets.drop_last();
        let before = current_lines(rest, lines);
        let all = current_lines(targets, lines);
        law_the_current_branch_is_picked_from_the_start(rest, lines, line);
        if all.contains(line) {
            let k = choose|k: int| 0 <= k < all.len() && all[k] == line;
            if k < before.len() {
                assert(before[k] == line);
                let i = choose|i: int|
                    0 <= i < rest.len() && (#[trigger] rest[i]).is_current && lines[i] == line;
                assert(targets[i].is_current);
            } else {
                assert(targets[targets.len() - 1].is_current);
            }
        }
        if exists|i: int|
            0 <= i < targets.len() && (#[trigger] targets[i]).is_current && lines[i] == line {
            let i = choose|i: int|
                0 <= i < targets.len() && (#[trigger] targets[i]).is_current && lines[i] == line;
            if i < rest.len() {
                assert(rest[i].is_current);
                let k = choose|k: int| 0 <= k < before.len() && before[k] == line;
                assert(all[k] == line);
            } else {
                assert(all.last() == line);
            }
        }
    }
}

/// A step is about the branch or the remote whose turn it is, and an outcome counts for it: a
/// branch that git took along counts as one that succeeded, and one that it did not is named.
pub proof fn law_an_outcome_counts_for_its_branch(state: PullState, messages: Messages)
    requires
        state.valid(),
        state.fetched == state.remotes.len(),
        state.visited < state.targets.len(),
    ensures
        ({
            let target = state.targets[state.visited as int];
            &&& state.after_run(true).succeeded == state.succeeded + 1
            &&& state.after_run(true).failed == state.failed
            &&& state.after_run(false).succeeded == state.succeeded
            &&& state.after_run(false).failed == state.failed.push(target.branch@)
            &&& state.after_run(false).not_fast_forwarded == state.not_fast_forwarded + 1
            &&& state.after_skip().failed == state.failed.push(target.branch@)
            &&& state.after_skip().not_fast_forwarded == state.not_fast_forwarded
            &&& state.next(messages) is Skip <==> state.failed_remotes.contains(target.remote@)
            &&& state.next(messages) matches NextPull::Integrate { args, .. } ==> args
                == integrate_arguments(target)
        }),
{
}

/// A remote that could not be fetched is remembered, and one that could is not.
pub proof fn law_a_failed_fetch_is_remembered(state: PullState, messages: Messages)
    requires
        state.valid(),
        state.fetched < state.remotes.len(),
    ensures
        ({
            let remote = state.remotes[state.fetched as int];
            &&& state.next(messages) == NextPull::Fetch(seq!["fetch"@, remote])
            &&& state.after_run(true).failed_remotes == state.failed_remotes
            &&& state.after_run(false).failed_remotes == state.failed_remotes.push(remote)
            &&& state.after_run(true).visited == state.visited
        }),
{
}

/// How many of the first branches git was asked to fast-forward and would not.
pub open spec fn refused_count(
    targets: Seq<PullTarget>,
    succeeds: spec_fn(Seq<Seq<char>>) -> bool,
) -> nat
    decreases targets.len(),
{
    if targets.len() == 0 {
        0
    } else {
        let target = targets.last();
        let refused = succeeds(fetch_arguments(target.remote@)) && !succeeds(
            integrate_arguments(target),
        );
        refused_count(targets.drop_last(), succeeds) + (if refused {
            1nat
        } else {
            0nat
        })
    }
}

proof fn lemma_refused_count(state: PullState, succeeds: spec_fn(Seq<Seq<char>>) -> bool)
    requires
        state.valid(),
        forall|i: int|
            0 <= i < state.fetched ==> (state.failed_remotes.contains(#[trigger] state.remotes[i])
                <==> !succeeds(fetch_arguments(state.remotes[i]))),
        forall|i: int|
            state.fetched <= i < state.remotes.len() ==> !state.failed_remotes.contains(
                #[trigger] state.remotes[i],
            ),
        state.not_fast_forwarded == refused_count(
            state.targets.take(state.visited as int),
            succeeds,
        ),
    ensures
        end_of(state, succeeds).not_fast_forwarded == refused_count(state.targets, succeeds),
    decreases state.remotes.len() - state.fetched, state.targets.len() - state.visited,
{
    if state.fetched < state.remotes.len() {
        let remote = state.remotes[state.fetched as int];
        let next = state.after_run(succeeds(fetch_arguments(remote)));
        assert forall|i: int|
            0 <= i < state.remotes.len() && i != state.fetched implies #[trigger] state.remotes[i]
                != remote by {
            crate::text::lemma_precedes_total(state.remotes[i], remote);
            if i < state.fetched {
                assert(crate::text::precedes(state.remotes[i], remote));
            } else {
                assert(crate::text::precedes(remote, state.remotes[i]));
            }
        }
        assert forall|text: Seq<char>| #[trigger]
            next.failed_remotes.contains(text) <==> state.failed_remotes.contains(text) || (text
                == remote && !succeeds(fetch_arguments(remote))) by {
            if !succeeds(fetch_arguments(remote)) {
                let grown = state.failed_remotes.push(remote);
                assert(grown.last() == remote);
                if state.failed_remotes.contains(text) {
                    let k = choose|k: int|
                        0 <= k < state.failed_remotes.len() && state.failed_remotes[k] == text;
                    assert(grown[k] == text);
                }
            }
        }
        lemma_refused_count(next, succeeds);
    } else if state.visited < state.targets.len() {
        let i = state.visited as int;
        let target = state.targets[i];
        assert(state.targets.take(i + 1).drop_last() =~= state.targets.take(i));
        assert(is_followed(state.targets, target.remote@));
        assert(state.remotes.contains(target.remote@));
        let k = choose|k: int| 0 <= k < state.remotes.len() && state.remotes[k] == target.remote@;
        assert(state.failed_remotes.contains(state.remotes[k]) <==> !succeeds(
            fetch_arguments(state.remotes[k]),
        ));
        if state.failed_remotes.contains(target.remote@) {
            lemma_refused_count(state.after_skip(), succeeds);
        } else {
            lemma_refused_count(state.after_run(succeeds(integrate_arguments(target))), succeeds);
        }
    } else {
        assert(state.targets.take(state.visited as int) =~= state.targets);
    }
}

/// Of a whole run it is counted how many branches git would not fast-forward: those whose remote
/// was fetched and that then failed. A branch that was skipped was not tried.
pub proof fn law_a_skipped_branch_was_not_refused(
    start: PullState,
    targets: Seq<PullTarget>,
    succeeds: spec_fn(Seq<Seq<char>>) -> bool,
)
    requires
        start.valid(),
        start.is_start(targets),
    ensures
        end_of(start, succeeds).not_fast_forwarded == refused_count(targets, succeeds),
{
    assert(targets.take(0) =~= Seq::<PullTarget>::empty());
    lemma_refused_count(start, succeeds);
}

/// Git that did not start ends the command, and nothing is counted; a run that failed is counted
/// and does not end it.
pub proof fn law_a_failed_run_does_not_end_the_command(
    before: PullState,
    after: PullState,
    result: Result<(), Error>,
    messages: Messages,
    outcome: RunOutcome,
)
    requires
        before.valid(),
        is_recorded(before, after, result, messages, outcome),
    ensures
        result is Err <==> outcome is NotStarted,
        outcome is NotStarted ==> after == before,
        outcome is Succeeded ==> after.failed == before.failed && after.failed_remotes
            == before.failed_remotes,
        outcome is Failed ==> after.succeeded == before.succeeded && after.failed.len()
            + after.failed_remotes.len() == before.failed.len() + before.failed_remotes.len() + 1,
        outcome !is NotStarted ==> after.fetched + after.visited == before.fetched + before.visited
            + 1,
{
}

/// How many branches are left out is said if and only if any is.
pub proof fn law_branches_that_are_left_out_are_told(
    messages: Messages,
    scan: &PullScan,
    header: String,
)
    requires
        call_ensures(pull_header, (messages, scan), header),
    ensures
        messages.pull().header_text().is_prefix_of(header@),
        scan.excluded == 0 ==> header@ == messages.pull().header_text(),
        scan.excluded > 0 ==> header@ == messages.pull().header_text() + "  |  "@
            + messages.pull().excluded_count_text(scan.excluded),
{
}

/// What is asked before the current branch is integrated names what comes in, how much of it, and
/// where it goes.
pub proof fn law_the_question_counts_what_comes_in(
    messages: Messages,
    target: &CurrentTarget,
    mode: PullMode,
    ahead: usize,
    behind: usize,
    header: String,
    command: String,
    run: GitRun,
)
    requires
        call_ensures(
            integrate_current_branch,
            (messages, target, mode, Some((ahead, behind))),
            Ok(Integration::Confirm { header, command, run }),
        ),
    ensures
        messages.pull().confirmation_text(
            target.reference@,
            behind,
            target.branch@,
        ).is_prefix_of(header@),
        mode != PullMode::Rebase ==> header@ == messages.pull().confirmation_text(
            target.reference@,
            behind,
            target.branch@,
        ),
        mode == PullMode::Rebase ==> header@ == messages.pull().confirmation_text(
            target.reference@,
            behind,
            target.branch@,
        ) + "\n"@ + messages.common().history_rewrite_note_text(),
{
}

/// Why the current branch cannot be integrated is told by what is missing: a branch, an upstream,
/// a reference for it, or its remote.
pub proof fn law_what_is_missing_is_told(
    messages: Messages,
    branch: &str,
    upstream: &Upstream,
    remotes: &Vec<String>,
    detached: Result<CurrentTarget, Error>,
    unset: Result<CurrentTarget, Error>,
    target: Result<CurrentTarget, Error>,
)
    requires
        call_ensures(resolve_current_target, (messages, None, Some(upstream), remotes), detached),
        call_ensures(resolve_current_target, (messages, Some(branch), None, remotes), unset),
        call_ensures(
            resolve_current_target,
            (messages, Some(branch), Some(upstream), remotes),
            target,
        ),
    ensures
        detached matches Err(error) && error.says(
            messages.common().detached_head_without_upstream_text(),
        ),
        unset matches Err(error) && error.says(
            messages.common().upstream_not_configured_text(branch@),
        ),
        !"refs/heads/"@.is_prefix_of(upstream.merge_ref@) ==> (target matches Err(error)
            && error.says(
            messages.pull().tracking_ref_unavailable_text(
                branch@,
                upstream.remote@,
                upstream.merge_ref@,
            ),
        )),
        "refs/heads/"@.is_prefix_of(upstream.merge_ref@) && !texts(remotes@).contains(
            upstream.remote@,
        ) ==> (target matches Err(error) && error.says(
            messages.pull().unknown_remote_text(branch@, upstream.remote@),
        )),
{
}

/// The preview of a branch is the one section that shows what would come in.
pub proof fn law_a_preview_is_about_its_own_branch(
    messages: Messages,
    target: &PullTarget,
    preview: PreviewSource,
    args: Vec<String>,
)
    requires
        call_ensures(preview_source, (messages, target), preview),
        call_ensures(preview_args, (target,), args),
    ensures
        preview@ matches Preview::Composite(sections) && sections.len() == 1 && sections[0].1
            == Preview::Git(texts(args@)),
{
}

/// What a notification says is what the summary begins with: how many succeeded and how many did
/// not.
pub proof fn law_a_notification_tells_the_counts(
    messages: Messages,
    result: &PullSummary,
    body: String,
    line: String,
)
    requires
        call_ensures(notification_body, (messages, result), body),
        call_ensures(summary_line, (messages, result), line),
    ensures
        body@ == messages.common().run_summary_text(
            result.succeeded,
            result.failed@.len() as usize,
        ),
        body@.is_prefix_of(line@),
        result.failed@.len() == 0 ==> body@ == line@,
{
    assert(texts(result.failed@).len() == result.failed@.len());
}

/// A remote is fetched once, however many branches follow it, and no other remote is.
pub proof fn law_each_remote_is_fetched_once(targets: &Vec<&PullTarget>, remotes: Vec<String>)
    requires
        call_ensures(target_remotes, (targets,), remotes),
    ensures
        texts(remotes@).no_duplicates(),
        forall|i: int|
            0 <= i < targets@.len() ==> texts(remotes@).contains((#[trigger] targets@[i]).remote@),
{
    let all = texts(remotes@);
    assert forall|i: int, j: int| 0 <= i < j < all.len() implies all[i] != all[j] by {
        assert(crate::text::precedes(all[i], all[j]));
        crate::text::lemma_precedes_total(all[i], all[j]);
    }
    assert forall|i: int| 0 <= i < targets@.len() implies all.contains(
        (#[trigger] targets@[i]).remote@,
    ) by {
        assert(values(targets@)[i] == *targets@[i]);
        assert(is_followed(values(targets@), targets@[i].remote@));
    }
}

} // verus!
