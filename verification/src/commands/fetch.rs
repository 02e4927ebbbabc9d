//! `gz fetch`: fetch remotes, of the current repository or of several that lie beside it.
//!
//! Lists and previews read what is stored only; git reaches the network once the targets are
//! settled. Several repositories are fetched at once, without a terminal to ask on, and those
//! that fail are run again one at a time.

use vstd::prelude::*;
use vstd::utf8::{encode_utf8, valid_utf8};

use crate::commands::{
    aligned_by, aligned_candidates, aligned_lines, last_column_of, last_column_range, progress,
    progress_text, row_texts, selection_header, DECIDE_KEY, HEADER_SEPARATOR,
};
use crate::error::Error;
use crate::finder::{
    headed, item_views, items_of, plain, sections_view, Candidate, FinderItem, FinderOptions,
    Highlight, HighlightColor, ListOptions, Picker, Preview, PreviewSource, SelectionMode,
};
use crate::git::{
    branch_tracking_args, remote_refs_arguments, remote_tracking_refs_args, remote_url_args,
    tracking_arguments, url_arguments, GitRun, SiblingRepository, SiblingScan, WorkPath,
};
use crate::i18n::Messages;
use crate::selection::{lemma_filter_empty, lemma_filter_step, values};
use crate::text::{
    are_same_path, concat2, concat3, contains_text, decimal, join, join_texts, number_of, owned,
    parse_number, same_path, same_text, text_of, texts,
};

pub mod phases;

verus! {

broadcast use {
    crate::text::lemma_texts_push,
    crate::finder::lemma_item_views_push,
    crate::finder::lemma_composite_view,
    crate::finder::lemma_sections_push,
};

/// The key of the candidate that stands for all remotes. No remote is called so: a reference
/// cannot hold a star.
pub const ALL_REMOTES_KEY: &'static str = "*all*";

/// The option that fetches all remotes.
pub const ALL_REMOTES_OPTION: &'static str = "--all";

/// The option that removes references to what the remote no longer has.
pub const PRUNE_OPTION: &'static str = "--prune";

/// What is shown of a repository whose `HEAD` is on no branch.
pub const DETACHED_LABEL: &'static str = "detached HEAD";

/// The option that keeps git from taking locks it can do without.
pub const NO_OPTIONAL_LOCKS: &'static str = "--no-optional-locks";

/// The setting that says how many repositories are fetched at once.
pub const FETCH_JOBS_CONFIG_KEY: &'static str = "fuzgit.fetchJobs";

/// How many repositories are fetched at once where nothing is set. It does not grow with the
/// machine: what counts is how many connections the other side takes.
pub const DEFAULT_FETCH_JOBS: usize = 4;

/// Whether references to what a remote no longer has are removed.
#[derive(Debug, Clone, Copy, PartialEq, Eq, Structural)]
pub enum PruneMode {
    Keep,
    Prune,
}

impl PruneMode {
    pub fn from_flag(prune: bool) -> (mode: Self)
        ensures
            mode == (if prune {
                PruneMode::Prune
            } else {
                PruneMode::Keep
            }),
    {
        if prune {
            PruneMode::Prune
        } else {
            PruneMode::Keep
        }
    }

    pub open spec fn option_text(self) -> Option<Seq<char>> {
        match self {
            PruneMode::Keep => None,
            PruneMode::Prune => Some(PRUNE_OPTION@),
        }
    }

    /// The option of `git fetch`, where there is one.
    pub fn option(self) -> (option: Option<&'static str>)
        ensures
            text_of(option) == self.option_text(),
    {
        match self {
            PruneMode::Keep => None,
            PruneMode::Prune => Some(PRUNE_OPTION),
        }
    }
}

/// Where targets are looked for.
#[derive(Debug, Clone, Copy, PartialEq, Eq, Structural)]
pub enum FetchScope {
    /// Among the remotes of the current repository.
    Current,
    /// Among the repositories beside the current one as well.
    Siblings,
}

impl FetchScope {
    pub fn from_flag(siblings: bool) -> (scope: Self)
        ensures
            scope == (if siblings {
                FetchScope::Siblings
            } else {
                FetchScope::Current
            }),
    {
        if siblings {
            FetchScope::Siblings
        } else {
            FetchScope::Current
        }
    }
}

/// What is fetched.
#[derive(Debug, PartialEq, Eq)]
pub enum FetchTarget {
    /// One remote.
    Remote(String),
    /// All of them.
    All,
}

impl FetchTarget {
    /// The name of the remote, where it is one.
    pub open spec fn remote(self) -> Option<Seq<char>> {
        match self {
            FetchTarget::Remote(name) => Some(name@),
            FetchTarget::All => None,
        }
    }

    /// Writes how the target is called.
    pub fn description(&self, messages: Messages) -> (text: String)
        ensures
            text@ == description_of(messages, self.remote()),
    {
        match self {
            FetchTarget::Remote(name) => messages.fetch().remote_description(name.as_str()),
            FetchTarget::All => owned(messages.fetch().all_remotes_label()),
        }
    }
}

/// How a target is called.
pub open spec fn description_of(messages: Messages, remote: Option<Seq<char>>) -> Seq<char> {
    match remote {
        Some(name) => messages.fetch().remote_description_text(name),
        None => messages.fetch().all_remotes_label_text(),
    }
}

/// How the target is determined.
#[derive(Debug, PartialEq, Eq)]
pub enum FetchDecision {
    /// There is no remote.
    NoRemote,
    /// There is one, so nothing is picked.
    Fixed(FetchTarget),
    /// It is picked.
    Choose,
}

impl FetchDecision {
    pub fn from_remotes(remotes: &[String]) -> (decision: Self)
        ensures
            if remotes@.len() == 0 {
                decision is NoRemote
            } else if remotes@.len() == 1 {
                decision matches FetchDecision::Fixed(target) && target.remote() == Some(
                    remotes@[0]@,
                )
            } else {
                decision is Choose
            },
    {
        if remotes.len() == 0 {
            FetchDecision::NoRemote
        } else if remotes.len() == 1 {
            FetchDecision::Fixed(FetchTarget::Remote(remotes[0].clone()))
        } else {
            FetchDecision::Choose
        }
    }
}

/// What follows once the remotes are known.
#[derive(Debug, PartialEq, Eq)]
pub enum RemoteChoice {
    /// There is one: what is said instead of a list.
    Fixed(FetchTarget, String),
    /// One is picked.
    Choose(Picker),
}

/// Builds the list of remotes, or says that there is one only. There being none is an error.
pub fn choose_remote(messages: Messages, remotes: &Vec<String>) -> (choice: Result<
    RemoteChoice,
    Error,
>)
    ensures
        if remotes@.len() == 0 {
            choice matches Err(error) && error.says(messages.fetch().no_remotes_text())
        } else if remotes@.len() == 1 {
            choice matches Ok(RemoteChoice::Fixed(target, line)) && target.remote() == Some(
                remotes@[0]@,
            ) && line@ == fixed_text(messages, Some(remotes@[0]@)) + "\n"@
        } else {
            choice matches Ok(RemoteChoice::Choose(picker)) && item_views(picker.items@)
                == candidates_of(messages, texts(remotes@)) && picker.options@ == headed(
                SelectionMode::Single,
                messages.fetch().remote_header_subject_text() + HEADER_SEPARATOR@ + DECIDE_KEY@
                    + messages.fetch().remote_header_outcome_text(),
            )
        },
{
    match FetchDecision::from_remotes(remotes.as_slice()) {
        FetchDecision::NoRemote => Err(Error::Explained(owned(messages.fetch().no_remotes()))),
        FetchDecision::Fixed(target) => {
            let line = report_target(messages, &target);
            Ok(RemoteChoice::Fixed(target, line))
        },
        FetchDecision::Choose => {
            let header = selection_header(
                messages.fetch().remote_header_subject(),
                messages.fetch().remote_header_outcome(),
            );
            let options = FinderOptions::new(SelectionMode::Single).with_header(header);
            Ok(RemoteChoice::Choose(Picker { items: items(messages, remotes), options }))
        },
    }
}

/// The run that fetches a target.
pub fn run_on_target(messages: Messages, target: &FetchTarget, prune: PruneMode) -> (run: GitRun)
    ensures
        run.is(
            fetch_arguments(target.remote(), prune),
            messages.fetch().fetch_failed_text(description_of(messages, target.remote())),
        ),
{
    GitRun {
        args: fetch_args(target, prune),
        failure: messages.fetch().fetch_failed(target.description(messages).as_str()),
    }
}

/// The run that fetches what was picked. A name that was not offered is an error: nothing
/// protects the name of a remote among the arguments of git, so no other name reaches it.
pub fn run_on_selection(
    messages: Messages,
    remotes: &Vec<String>,
    selected: &str,
    prune: PruneMode,
) -> (run: Result<GitRun, Error>)
    ensures
        ({
            let remote = if selected@ == ALL_REMOTES_KEY@ {
                None
            } else {
                Some(selected@)
            };
            if remote is None || texts(remotes@).contains(selected@) {
                run matches Ok(run) && run.is(
                    fetch_arguments(remote, prune),
                    messages.fetch().fetch_failed_text(description_of(messages, remote)),
                )
            } else {
                run matches Err(error) && error.says(
                    messages.fetch().selection_not_found_text(selected@),
                )
            }
        }),
{
    match resolve(messages, remotes, selected) {
        Ok(target) => Ok(run_on_target(messages, &target, prune)),
        Err(error) => Err(error),
    }
}

/// What is said where there is one remote only.
pub open spec fn fixed_text(messages: Messages, remote: Option<Seq<char>>) -> Seq<char> {
    messages.fetch().fixed_target_text(description_of(messages, remote))
}

/// Writes what is said where there is one remote only.
pub fn fixed_target_message(messages: Messages, target: &FetchTarget) -> (line: String)
    ensures
        line@ == fixed_text(messages, target.remote()),
{
    messages.fetch().fixed_target(target.description(messages).as_str())
}

/// Says that there is one remote only.
pub fn report_target(messages: Messages, target: &FetchTarget) -> (text: String)
    ensures
        text@ == fixed_text(messages, target.remote()) + "\n"@,
{
    report_line(fixed_target_message(messages, target).as_str())
}

/// A line with its end.
pub fn report_line(line: &str) -> (text: String)
    ensures
        text@ == line@ + "\n"@,
{
    concat2(line, "\n")
}

/// What the preview of a remote shows: its address, and what was stored by the last fetch.
pub open spec fn preview_of(messages: Messages, remote: Seq<char>) -> Preview {
    Preview::Composite(
        seq![
            (messages.fetch().url_section_text(), Preview::Git(url_arguments(remote))),
            (messages.fetch().tracking_section_text(), Preview::Git(remote_refs_arguments(remote))),
        ],
    )
}

/// The preview of a remote.
pub fn preview_source(messages: Messages, remote: &str) -> (preview: PreviewSource)
    ensures
        preview@ == preview_of(messages, remote@),
{
    let mut sections: Vec<(String, PreviewSource)> = Vec::new();
    sections.push(
        (owned(messages.fetch().url_section()), PreviewSource::Git(remote_url_args(remote))),
    );
    sections.push(
        (
            owned(messages.fetch().tracking_section()),
            PreviewSource::Git(remote_tracking_refs_args(remote)),
        ),
    );
    assert(sections_view(sections@) =~= seq![
        (messages.fetch().url_section_text(), Preview::Git(url_arguments(remote@))),
        (messages.fetch().tracking_section_text(), Preview::Git(remote_refs_arguments(remote@))),
    ]);
    PreviewSource::Composite(sections)
}

/// The addresses of remotes, each under its name.
pub open spec fn addresses_of(remotes: Seq<Seq<char>>) -> Seq<(Seq<char>, Preview)> {
    remotes.map_values(|remote: Seq<char>| (remote, Preview::Git(url_arguments(remote))))
}

/// The preview of all remotes.
pub fn all_remotes_preview(remotes: &Vec<String>) -> (preview: PreviewSource)
    ensures
        preview@ == Preview::Composite(addresses_of(texts(remotes@))),
{
    let ghost all = addresses_of(texts(remotes@));
    let mut sections: Vec<(String, PreviewSource)> = Vec::new();
    let mut i: usize = 0;
    assert(sections_view(sections@) =~= all.take(0));
    while i < remotes.len()
        invariant
            i <= remotes@.len(),
            all == addresses_of(texts(remotes@)),
            sections_view(sections@) == all.take(i as int),
        decreases remotes@.len() - i,
    {
        sections.push(
            (remotes[i].clone(), PreviewSource::Git(remote_url_args(remotes[i].as_str()))),
        );
        i += 1;
        assert(sections_view(sections@) =~= all.take(i as int));
    }
    assert(all.take(i as int) =~= all);
    PreviewSource::Composite(sections)
}

/// A remote in the list.
pub open spec fn candidate_of(messages: Messages, remote: Seq<char>) -> Candidate {
    plain(remote, remote, preview_of(messages, remote))
}

/// The candidate that stands for all remotes.
pub open spec fn all_candidate(messages: Messages, remotes: Seq<Seq<char>>) -> Candidate {
    plain(
        messages.fetch().all_remotes_label_text(),
        ALL_REMOTES_KEY@,
        Preview::Composite(addresses_of(remotes)),
    )
}

/// The list: the remotes, and then all of them.
pub open spec fn candidates_of(messages: Messages, remotes: Seq<Seq<char>>) -> Seq<Candidate> {
    remotes.map_values(|remote: Seq<char>| candidate_of(messages, remote)).push(
        all_candidate(messages, remotes),
    )
}

/// The candidates.
pub fn items(messages: Messages, remotes: &Vec<String>) -> (items: Vec<FinderItem>)
    ensures
        item_views(items@) == candidates_of(messages, texts(remotes@)),
{
    let ghost all = texts(remotes@).map_values(
        |remote: Seq<char>| candidate_of(messages, remote),
    );
    let item = |remote: &String| -> (item: FinderItem)
        ensures
            item@ == candidate_of(messages, remote@),
        { to_item(messages, remote.as_str()) };
    let mut items = items_of(remotes.as_slice(), item);
    assert(item_views(items@) =~= all);
    items.push(all_remotes_item(messages, remotes));
    items
}

/// A remote as the list shows it.
pub fn to_item(messages: Messages, remote: &str) -> (item: FinderItem)
    ensures
        item@ == candidate_of(messages, remote@),
{
    FinderItem::new(owned(remote), owned(remote), preview_source(messages, remote))
}

/// The candidate that stands for all remotes, as the list shows it.
pub fn all_remotes_item(messages: Messages, remotes: &Vec<String>) -> (item: FinderItem)
    ensures
        item@ == all_candidate(messages, texts(remotes@)),
{
    FinderItem::new(
        owned(messages.fetch().all_remotes_label()),
        owned(ALL_REMOTES_KEY),
        all_remotes_preview(remotes),
    )
}

/// Finds what was picked. A name that was not offered is an error: a remote cannot be
/// protected by a separator.
pub fn resolve(messages: Messages, remotes: &Vec<String>, selected: &str) -> (target: Result<
    FetchTarget,
    Error,
>)
    ensures
        if selected@ == ALL_REMOTES_KEY@ {
            target matches Ok(target) && target is All
        } else if texts(remotes@).contains(selected@) {
            target matches Ok(target) && target.remote() == Some(selected@)
        } else {
            target matches Err(error) && error.says(
                messages.fetch().selection_not_found_text(selected@),
            )
        },
{
    if same_text(selected, ALL_REMOTES_KEY) {
        return Ok(FetchTarget::All);
    }
    if contains_text(remotes, selected) {
        Ok(FetchTarget::Remote(owned(selected)))
    } else {
        Err(Error::Explained(messages.fetch().selection_not_found(selected)))
    }
}

/// The arguments of a fetch.
pub open spec fn fetch_arguments(remote: Option<Seq<char>>, prune: PruneMode) -> Seq<Seq<char>> {
    seq!["fetch"@] + (match prune.option_text() {
        Some(option) => seq![option],
        None => Seq::empty(),
    }) + seq![
        match remote {
            Some(name) => name,
            None => ALL_REMOTES_OPTION@,
        },
    ]
}

/// Writes the arguments of a fetch.
pub fn fetch_args(target: &FetchTarget, prune: PruneMode) -> (args: Vec<String>)
    ensures
        texts(args@) == fetch_arguments(target.remote(), prune),
{
    let mut args: Vec<String> = Vec::new();
    args.push(owned("fetch"));
    if let Some(option) = prune.option() {
        args.push(owned(option));
    }
    match target {
        FetchTarget::Remote(name) => args.push(name.clone()),
        FetchTarget::All => args.push(owned(ALL_REMOTES_OPTION)),
    }
    assert(texts(args@) =~= fetch_arguments(target.remote(), prune));
    args
}

/// No two candidates share a key: no remote is called like the key for all of them, where no
/// remote holds a star.
pub proof fn law_the_fixed_key_is_no_remote(remotes: Seq<Seq<char>>)
    requires
        forall|i: int| 0 <= i < remotes.len() ==> !(#[trigger] remotes[i]).contains('*'),
    ensures
        !remotes.contains(ALL_REMOTES_KEY@),
{
    reveal_strlit("*all*");
    assert(ALL_REMOTES_KEY@[0] == '*');
    if remotes.contains(ALL_REMOTES_KEY@) {
        let i = choose|i: int| 0 <= i < remotes.len() && remotes[i] == ALL_REMOTES_KEY@;
        assert(remotes[i].contains(remotes[i][0]));
    }
}

/// The key for all remotes never reaches git, where no remote is called so.
pub proof fn law_the_fixed_key_never_reaches_git(remote: Option<Seq<char>>, prune: PruneMode)
    requires
        remote != Some(ALL_REMOTES_KEY@),
    ensures
        !fetch_arguments(remote, prune).contains(ALL_REMOTES_KEY@),
{
    reveal_strlit("*all*");
    reveal_strlit("fetch");
    reveal_strlit("--prune");
    reveal_strlit("--all");
    assert(ALL_REMOTES_KEY@[0] == '*');
    assert("fetch"@[0] == 'f');
    assert(PRUNE_OPTION@[0] == '-');
    assert(ALL_REMOTES_OPTION@[0] == '-');
    let args = fetch_arguments(remote, prune);
    assert forall|i: int| 0 <= i < args.len() implies args[i] != ALL_REMOTES_KEY@ by {
        if i == 0 {
            assert(args[0] == "fetch"@);
        } else if i == args.len() - 1 {
            assert(args[i] == match remote {
                Some(name) => name,
                None => ALL_REMOTES_OPTION@,
            });
        } else {
            assert(args[i] == PRUNE_OPTION@);
        }
    }
}

/// References are removed if and only if that was asked for, whatever the target is called.
pub proof fn law_pruning_is_asked_for(remote: Option<Seq<char>>, prune: PruneMode)
    requires
        remote != Some(PRUNE_OPTION@),
    ensures
        fetch_arguments(remote, prune).contains(PRUNE_OPTION@) <==> prune is Prune,
{
    reveal_strlit("fetch");
    reveal_strlit("--prune");
    reveal_strlit("--all");
    assert(ALL_REMOTES_OPTION@.len() == 5);
    assert("fetch"@.len() == 5);
    assert(PRUNE_OPTION@.len() == 7);
    let args = fetch_arguments(remote, prune);
    if prune is Prune {
        assert(args[1] == PRUNE_OPTION@);
    } else {
        assert(args =~= seq![
            "fetch"@,
            match remote {
                Some(name) => name,
                None => ALL_REMOTES_OPTION@,
            },
        ]);
    }
}

/// The text of a setting, as `bstr` reads bytes that need not be UTF-8.
pub uninterp spec fn setting_text(bytes: Seq<u8>) -> Seq<char>;

/// Reads a setting as text with `bstr`'s `ByteSlice::to_str_lossy`, which `gix` hands on.
///
/// Claimed of it: the text is a function of the bytes, and bytes that are UTF-8 are kept.
#[verifier::external_body]
fn read_setting(bytes: &[u8]) -> (text: String)
    ensures
        text@ == setting_text(bytes@),
        valid_utf8(bytes@) ==> encode_utf8(text@) == bytes@,
{
    gix::bstr::ByteSlice::to_str_lossy(bytes).into_owned()
}

/// The number of jobs that a setting stands for. What is not set, or is empty, stands for the
/// default; what is no positive number stands for none.
pub open spec fn jobs_of(value: Option<Seq<char>>) -> Option<usize> {
    match value {
        None => Some(DEFAULT_FETCH_JOBS),
        Some(text) => if text.len() == 0 {
            Some(DEFAULT_FETCH_JOBS)
        } else {
            match number_of(text) {
                Some(number) => if number > 0 {
                    Some(number)
                } else {
                    None
                },
                None => None,
            }
        },
    }
}

/// Reads how many repositories are fetched at once. A wrong setting is an error and not
/// replaced by the default: nothing is fetched in a way that was not asked for.
pub fn parse_fetch_jobs(value: Option<&str>) -> (jobs: Result<usize, Error>)
    ensures
        match jobs {
            Ok(jobs) => jobs_of(text_of(value)) == Some(jobs) && jobs > 0,
            Err(error) => jobs_of(text_of(value)) is None
                && (error matches Error::InvalidFetchJobs { value: shown } && Some(shown@)
                == text_of(value)),
        },
{
    let value = match value {
        Some(value) => value,
        None => {
            return Ok(DEFAULT_FETCH_JOBS);
        },
    };
    if value.is_empty() {
        return Ok(DEFAULT_FETCH_JOBS);
    }
    match parse_number(value) {
        Some(number) if number > 0 => Ok(number),
        _ => Err(Error::InvalidFetchJobs { value: owned(value) }),
    }
}

/// Reads how many repositories are fetched at once, from the bytes of the setting.
pub fn fetch_jobs(setting: Option<&[u8]>) -> (jobs: Result<usize, Error>)
    ensures
        ({
            let value = match setting {
                Some(bytes) => Some(setting_text(bytes@)),
                None => None,
            };
            match jobs {
                Ok(jobs) => jobs_of(value) == Some(jobs) && jobs > 0,
                Err(error) => jobs_of(value) is None && (error matches Error::InvalidFetchJobs {
                    value: shown,
                } && Some(shown@) == value),
            }
        }),
        setting matches Some(bytes) ==> (valid_utf8(bytes@) ==> encode_utf8(setting_text(bytes@))
            == bytes@),
{
    match setting {
        Some(bytes) => {
            let text = read_setting(bytes);
            parse_fetch_jobs(Some(text.as_str()))
        },
        None => parse_fetch_jobs(None),
    }
}

/// How the repositories are determined.
#[derive(Debug, Clone, Copy, PartialEq, Eq, Structural)]
pub enum SiblingsDecision {
    /// There is none.
    NoCandidate,
    /// There is the current one only, so nothing is picked.
    Fixed,
    /// They are picked. A single one that is not the current one is looked at first.
    Choose,
}

impl SiblingsDecision {
    pub open spec fn of(candidates: Seq<SiblingRepository>) -> Self {
        if candidates.len() == 0 {
            SiblingsDecision::NoCandidate
        } else if candidates.len() == 1 && candidates[0].is_current {
            SiblingsDecision::Fixed
        } else {
            SiblingsDecision::Choose
        }
    }

    pub fn from_candidates(candidates: &[SiblingRepository]) -> (decision: Self)
        ensures
            decision == SiblingsDecision::of(candidates@),
    {
        if candidates.len() == 0 {
            SiblingsDecision::NoCandidate
        } else if candidates.len() == 1 && candidates[0].is_current {
            SiblingsDecision::Fixed
        } else {
            SiblingsDecision::Choose
        }
    }
}

/// The header: what the keys do, how many repositories are left out, where any is, and what
/// pruning applies to, where it was asked for.
pub open spec fn header_sections(messages: Messages, excluded: usize, prune: PruneMode) -> Seq<
    Seq<char>,
> {
    seq![messages.fetch().siblings_header_text()] + (if excluded > 0 {
        seq![messages.fetch().excluded_count_text(excluded)]
    } else {
        Seq::empty()
    }) + (if prune is Prune {
        seq![messages.fetch().prune_scope_note_text()]
    } else {
        Seq::empty()
    })
}

/// Writes the header.
pub fn sibling_header(messages: Messages, scan: &SiblingScan, prune: PruneMode) -> (header: String)
    ensures
        header@ == join(header_sections(messages, scan.excluded, prune), HEADER_SEPARATOR@),
{
    let mut sections: Vec<String> = Vec::new();
    sections.push(owned(messages.fetch().siblings_header()));
    if scan.excluded > 0 {
        sections.push(messages.fetch().excluded_count(scan.excluded));
    }
    if let PruneMode::Prune = prune {
        sections.push(owned(messages.fetch().prune_scope_note()));
    }
    assert(texts(sections@) =~= header_sections(messages, scan.excluded, prune));
    join_texts(&sections, HEADER_SEPARATOR)
}

/// Where a repository would be fetched from: the branch of each remote, or that there is no
/// branch.
pub open spec fn destination_of(candidate: SiblingRepository) -> Seq<char> {
    match candidate.current_branch {
        None => DETACHED_LABEL@,
        Some(branch) => join(
            texts(candidate.remotes@).map_values(|remote: Seq<char>| remote + "/"@ + branch@),
            ", "@,
        ),
    }
}

/// The columns of a repository.
pub open spec fn cells_of(candidate: SiblingRepository) -> Seq<Seq<char>> {
    match candidate.current_branch {
        None => seq![
            candidate.name@,
            join(texts(candidate.remotes@), ", "@),
            destination_of(candidate),
        ],
        Some(_) => seq![candidate.name@, destination_of(candidate)],
    }
}

/// The lines of repositories, in line with each other.
pub open spec fn lines_of(candidates: Seq<SiblingRepository>) -> Seq<Seq<char>> {
    aligned_lines(candidates.map_values(|candidate: SiblingRepository| cells_of(candidate)))
}

/// Writes the columns of a repository.
pub fn sibling_cells(candidate: &SiblingRepository) -> (row: Vec<String>)
    ensures
        texts(row@) == cells_of(*candidate),
{
    let mut row: Vec<String> = Vec::new();
    row.push(candidate.name.clone());
    if candidate.current_branch.is_none() {
        row.push(join_texts(&candidate.remotes, ", "));
    }
    row.push(sibling_destination(candidate));
    assert(texts(row@) =~= cells_of(*candidate));
    row
}

/// Writes where a repository would be fetched from.
pub fn sibling_destination(candidate: &SiblingRepository) -> (text: String)
    ensures
        text@ == destination_of(*candidate),
{
    match &candidate.current_branch {
        None => owned(DETACHED_LABEL),
        Some(branch) => {
            let ghost all = texts(candidate.remotes@).map_values(
                |remote: Seq<char>| remote + "/"@ + branch@,
            );
            let mut parts: Vec<String> = Vec::new();
            let mut i: usize = 0;
            assert(texts(parts@) =~= all.take(0));
            while i < candidate.remotes.len()
                invariant
                    i <= candidate.remotes@.len(),
                    all == texts(candidate.remotes@).map_values(
                        |remote: Seq<char>| remote + "/"@ + branch@,
                    ),
                    texts(parts@) == all.take(i as int),
                decreases candidate.remotes@.len() - i,
            {
                let part = concat3(candidate.remotes[i].as_str(), "/", branch.as_str());
                assert(part@ == all[i as int]);
                parts.push(part);
                i += 1;
                assert(texts(parts@) =~= all.take(i as int));
            }
            assert(all.take(i as int) =~= all);
            join_texts(&parts, ", ")
        },
    }
}

/// The coloured part of the line of a repository: its last column, where that holds anything.
pub open spec fn highlights_of(line: Seq<char>, candidate: SiblingRepository) -> Seq<Highlight> {
    let range = last_column_of(line, destination_of(candidate));
    if range.0 < range.1 {
        seq![
            Highlight {
                start: range.0 as usize,
                end: range.1 as usize,
                color: if candidate.current_branch is Some {
                    HighlightColor::Blue
                } else {
                    HighlightColor::Yellow
                },
            },
        ]
    } else {
        Seq::empty()
    }
}

/// Finds the coloured part of the line of a repository.
pub fn sibling_highlights(line: &str, candidate: &SiblingRepository) -> (highlights: Vec<Highlight>)
    ensures
        highlights@ == highlights_of(line@, *candidate),
{
    let destination = sibling_destination(candidate);
    let range: (usize, usize) = last_column_range(line, destination.as_str());
    let mut highlights: Vec<Highlight> = Vec::new();
    if range.0 < range.1 {
        let color = if candidate.current_branch.is_some() {
            HighlightColor::Blue
        } else {
            HighlightColor::Yellow
        };
        highlights.push(Highlight::new(range.0, range.1, color));
    }
    assert(highlights@ =~= highlights_of(line@, *candidate));
    highlights
}

/// Whether repositories stand beside their lines.
pub open spec fn lined(
    candidates: Seq<SiblingRepository>,
    lines: Seq<(&SiblingRepository, String)>,
) -> bool {
    &&& lines.len() == candidates.len()
    &&& forall|i: int|
        0 <= i < lines.len() ==> *(#[trigger] lines[i]).0 == candidates[i] && lines[i].1@
            == lines_of(candidates)[i]
}

/// Pairs repositories with their lines.
pub fn sibling_lines(candidates: &[SiblingRepository]) -> (lines: Vec<(&SiblingRepository, String)>)
    ensures
        lined(candidates@, lines@),
{
    let lines = aligned_candidates(candidates, sibling_cells);
    proof {
        let rows = choose|rows: Seq<Vec<String>>| #[trigger]
            aligned_by(candidates@, sibling_cells, rows, lines@);
        assert(row_texts(rows) =~= candidates@.map_values(
            |candidate: SiblingRepository| cells_of(candidate),
        ));
    }
    lines
}

/// The repositories and the lines of a list.
pub open spec fn listed(lines: Seq<(&SiblingRepository, String)>) -> (
    Seq<SiblingRepository>,
    Seq<Seq<char>>,
) {
    (
        lines.map_values(|line: (&SiblingRepository, String)| *line.0),
        lines.map_values(|line: (&SiblingRepository, String)| line.1@),
    )
}

/// The lines of the current repositories among repositories.
pub open spec fn current_lines(
    candidates: Seq<SiblingRepository>,
    lines: Seq<Seq<char>>,
) -> Seq<Seq<char>>
    decreases candidates.len(),
{
    if candidates.len() == 0 {
        Seq::empty()
    } else {
        let before = current_lines(candidates.drop_last(), lines);
        if candidates.last().is_current {
            before.push(lines[candidates.len() - 1])
        } else {
            before
        }
    }
}

/// The lines that are picked from the start: that of the current repository.
pub fn preselect(lines: &Vec<(&SiblingRepository, String)>) -> (picked: Vec<String>)
    ensures
        texts(picked@) == current_lines(listed(lines@).0, listed(lines@).1),
{
    let ghost all = listed(lines@);
    let mut picked: Vec<String> = Vec::new();
    let mut i: usize = 0;
    assert(texts(picked@) =~= Seq::empty());
    while i < lines.len()
        invariant
            i <= lines@.len(),
            all == listed(lines@),
            texts(picked@) == current_lines(all.0.take(i as int), all.1),
        decreases lines@.len() - i,
    {
        assert(all.0.take(i + 1).drop_last() =~= all.0.take(i as int));
        assert(all.0.take(i + 1).last() == *lines@[i as int].0);
        if lines[i].0.is_current {
            picked.push(lines[i].1.clone());
        }
        i += 1;
    }
    assert(all.0.take(i as int) =~= all.0);
    picked
}

/// The arguments that show how the branches of a repository follow their upstreams. No lock
/// is taken in a repository that may be in use.
pub open spec fn sibling_tracking_arguments() -> Seq<Seq<char>> {
    seq![NO_OPTIONAL_LOCKS@] + tracking_arguments()
}

/// Writes the arguments that show how the branches of a repository follow their upstreams.
pub fn sibling_tracking_args() -> (args: Vec<String>)
    ensures
        texts(args@) == sibling_tracking_arguments(),
{
    let mut args: Vec<String> = Vec::new();
    args.push(owned(NO_OPTIONAL_LOCKS));
    let mut rest = branch_tracking_args();
    let ghost copies = rest@;
    args.append(&mut rest);
    assert(texts(args@) =~= seq![NO_OPTIONAL_LOCKS@] + texts(copies));
    args
}

/// What the preview of a repository shows: the addresses of its remotes, and how its branches
/// follow their upstreams. The directory is where git runs, and no argument.
pub open spec fn sibling_sections(messages: Messages, candidate: SiblingRepository) -> Seq<
    (Seq<char>, Preview),
> {
    let directory = candidate.workdir@;
    texts(candidate.remotes@).map_values(
        |remote: Seq<char>|
            (remote, Preview::GitIn { directory, args: url_arguments(remote) }),
    ).push(
        (
            messages.fetch().tracking_state_section_text(),
            Preview::GitIn { directory, args: sibling_tracking_arguments() },
        ),
    )
}

/// The preview of a repository.
pub fn sibling_preview_source(messages: Messages, candidate: &SiblingRepository) -> (preview:
    PreviewSource)
    ensures
        preview@ == Preview::Composite(sibling_sections(messages, *candidate)),
{
    let ghost all = sibling_sections(messages, *candidate);
    let mut sections: Vec<(String, PreviewSource)> = Vec::new();
    let mut i: usize = 0;
    assert(sections_view(sections@) =~= all.take(0));
    while i < candidate.remotes.len()
        invariant
            i <= candidate.remotes@.len(),
            all == sibling_sections(messages, *candidate),
            sections_view(sections@) == all.take(i as int),
        decreases candidate.remotes@.len() - i,
    {
        let source = PreviewSource::GitIn {
            directory: candidate.workdir.duplicate(),
            args: remote_url_args(candidate.remotes[i].as_str()),
        };
        sections.push((candidate.remotes[i].clone(), source));
        i += 1;
        assert(sections_view(sections@) =~= all.take(i as int));
    }
    let source = PreviewSource::GitIn {
        directory: candidate.workdir.duplicate(),
        args: sibling_tracking_args(),
    };
    sections.push((owned(messages.fetch().tracking_state_section()), source));
    assert(sections_view(sections@) =~= all);
    PreviewSource::Composite(sections)
}

/// A repository in the list.
pub open spec fn sibling_candidate(
    messages: Messages,
    candidate: SiblingRepository,
    line: Seq<char>,
) -> Candidate {
    Candidate {
        highlights: highlights_of(line, candidate),
        ..plain(
            line,
            candidate.workdir.shown_text(),
            Preview::Composite(sibling_sections(messages, candidate)),
        )
    }
}

/// The candidates of repositories with their lines.
pub open spec fn sibling_candidates(
    messages: Messages,
    candidates: Seq<SiblingRepository>,
    lines: Seq<Seq<char>>,
) -> Seq<Candidate> {
    Seq::new(candidates.len(), |i: int| sibling_candidate(messages, candidates[i], lines[i]))
}

/// The first repository whose path is no text.
pub open spec fn first_unreadable(candidates: Seq<SiblingRepository>) -> Option<int>
    decreases candidates.len(),
{
    if candidates.len() == 0 {
        None
    } else {
        match first_unreadable(candidates.drop_last()) {
            Some(i) => Some(i),
            None => if candidates.last().workdir is Text {
                None
            } else {
                Some(candidates.len() - 1)
            },
        }
    }
}

proof fn lemma_first_unreadable(candidates: Seq<SiblingRepository>, i: int)
    requires
        0 <= i < candidates.len(),
        first_unreadable(candidates.take(i + 1)) is Some,
    ensures
        first_unreadable(candidates) == first_unreadable(candidates.take(i + 1)),
    decreases candidates.len(),
{
    if i + 1 < candidates.len() {
        assert(candidates.drop_last().take(i + 1) =~= candidates.take(i + 1));
        lemma_first_unreadable(candidates.drop_last(), i);
    } else {
        assert(candidates.take(i + 1) =~= candidates);
    }
}

/// The candidates, from repositories paired with their lines. A path that is no text cannot
/// be a key, and is an error.
pub fn sibling_items(messages: Messages, lines: &Vec<(&SiblingRepository, String)>) -> (items: Result<
    Vec<FinderItem>,
    Error,
>)
    ensures
        ({
            let all = listed(lines@);
            match first_unreadable(all.0) {
                None => items matches Ok(items) && item_views(items@) == sibling_candidates(
                    messages,
                    all.0,
                    all.1,
                ),
                Some(i) => items matches Err(error) && error.says(
                    messages.fetch().path_not_utf8_text(all.0[i].workdir.shown_text()),
                ),
            }
        }),
{
    let ghost all = listed(lines@);
    let ghost views = sibling_candidates(messages, all.0, all.1);
    let mut items: Vec<FinderItem> = Vec::new();
    let mut i: usize = 0;
    assert(item_views(items@) =~= views.take(0));
    while i < lines.len()
        invariant
            i <= lines@.len(),
            all == listed(lines@),
            views == sibling_candidates(messages, all.0, all.1),
            first_unreadable(all.0.take(i as int)) is None,
            item_views(items@) == views.take(i as int),
        decreases lines@.len() - i,
    {
        let candidate: &SiblingRepository = lines[i].0;
        proof {
            assert(all.0.take(i + 1).drop_last() =~= all.0.take(i as int));
            assert(all.0.take(i + 1).last() == *candidate);
            if !(candidate.workdir is Text) {
                lemma_first_unreadable(all.0, i as int);
            }
        }
        let key = match sibling_key(messages, candidate) {
            Ok(key) => key,
            Err(error) => {
                return Err(error);
            },
        };
        let item = FinderItem::new(
            lines[i].1.clone(),
            owned(key),
            sibling_preview_source(messages, candidate),
        ).with_highlights(sibling_highlights(lines[i].1.as_str(), candidate));
        assert(item@ == views[i as int]);
        items.push(item);
        i += 1;
        assert(item_views(items@) =~= views.take(i as int));
    }
    assert(all.0.take(i as int) =~= all.0);
    assert(views.take(i as int) =~= views);
    Ok(items)
}

/// The key of a repository: its path, where that is text.
pub fn sibling_key<'a>(messages: Messages, candidate: &'a SiblingRepository) -> (key: Result<
    &'a str,
    Error,
>)
    ensures
        match candidate.workdir {
            WorkPath::Text(path) => key matches Ok(key) && key@ == path@,
            WorkPath::Other { shown, .. } => key matches Err(error) && error.says(
                messages.fetch().path_not_utf8_text(shown@),
            ),
        },
{
    match &candidate.workdir {
        WorkPath::Text(path) => Ok(path.as_str()),
        WorkPath::Other { shown, .. } => Err(
            Error::Explained(messages.fetch().path_not_utf8(shown.as_str())),
        ),
    }
}

/// What follows once the repositories are known.
#[derive(Debug, PartialEq, Eq)]
pub enum SiblingChoice {
    /// There is the current one only: what is said instead of a list.
    Fixed(String),
    /// They are picked.
    Choose(Picker),
}

/// Builds the list of repositories, or says that there is the current one only. There being
/// none is an error.
pub fn choose_siblings(messages: Messages, scan: &SiblingScan, prune: PruneMode) -> (choice: Result<
    SiblingChoice,
    Error,
>)
    ensures
        ({
            let candidates = scan.candidates@;
            match SiblingsDecision::of(candidates) {
                SiblingsDecision::NoCandidate => choice matches Err(error) && error.says(
                    messages.fetch().no_sibling_candidates_text(),
                ),
                SiblingsDecision::Fixed => choice matches Ok(SiblingChoice::Fixed(line)) && line@
                    == messages.fetch().single_sibling_reason_text() + "\n"@,
                SiblingsDecision::Choose => match first_unreadable(candidates) {
                    Some(i) => choice matches Err(error) && error.says(
                        messages.fetch().path_not_utf8_text(candidates[i].workdir.shown_text()),
                    ),
                    None => choice matches Ok(SiblingChoice::Choose(picker)) && item_views(
                        picker.items@,
                    ) == sibling_candidates(messages, candidates, lines_of(candidates))
                        && picker.options@ == (ListOptions {
                        mode: SelectionMode::Multi,
                        header: Some(
                            join(
                                header_sections(messages, scan.excluded, prune),
                                HEADER_SEPARATOR@,
                            ),
                        ),
                        preselect: current_lines(candidates, lines_of(candidates)),
                    }),
                },
            }
        }),
{
    match SiblingsDecision::from_candidates(scan.candidates.as_slice()) {
        SiblingsDecision::NoCandidate => Err(
            Error::Explained(owned(messages.fetch().no_sibling_candidates())),
        ),
        SiblingsDecision::Fixed => Ok(
            SiblingChoice::Fixed(report_line(messages.fetch().single_sibling_reason())),
        ),
        SiblingsDecision::Choose => {
            let lines = sibling_lines(scan.candidates.as_slice());
            proof {
                assert(listed(lines@).0 =~= scan.candidates@);
                assert(listed(lines@).1 =~= lines_of(scan.candidates@));
            }
            let options = FinderOptions::new(SelectionMode::Multi).with_header(
                sibling_header(messages, scan, prune),
            ).with_preselect(preselect(&lines));
            match sibling_items(messages, &lines) {
                Ok(items) => Ok(SiblingChoice::Choose(Picker { items, options })),
                Err(error) => Err(error),
            }
        },
    }
}

/// Whether a repository lies at a POSIX path.
pub open spec fn lies_at(candidate: SiblingRepository, key: Seq<char>) -> bool {
    candidate.workdir matches WorkPath::Text(path) && are_same_path(path@, key)
}

/// Whether some repository lies at a path.
pub open spec fn any_lies_at(candidates: Seq<SiblingRepository>, key: Seq<char>) -> bool {
    exists|i: int| 0 <= i < candidates.len() && lies_at(#[trigger] candidates[i], key)
}

/// Whether a repository lies at some path.
pub open spec fn lies_at_any(candidate: SiblingRepository, keys: Seq<Seq<char>>) -> bool {
    exists|i: int| 0 <= i < keys.len() && lies_at(candidate, #[trigger] keys[i])
}

/// The picked paths at which no repository lies.
pub open spec fn unknown_paths(
    candidates: Seq<SiblingRepository>,
    selected: Seq<Seq<char>>,
) -> Seq<Seq<char>> {
    selected.filter(|key: Seq<char>| !any_lies_at(candidates, key))
}

/// Whether a repository lies at a POSIX path.
pub fn has_key(candidate: &SiblingRepository, key: &str) -> (found: bool)
    ensures
        found == lies_at(*candidate, key@),
{
    match &candidate.workdir {
        WorkPath::Text(path) => same_path(path.as_str(), key),
        WorkPath::Other { .. } => false,
    }
}

fn some_has_key(candidates: &[SiblingRepository], key: &str) -> (found: bool)
    ensures
        found == any_lies_at(candidates@, key@),
{
    let mut i: usize = 0;
    while i < candidates.len()
        invariant
            i <= candidates@.len(),
            forall|k: int| 0 <= k < i ==> !lies_at(#[trigger] candidates@[k], key@),
        decreases candidates@.len() - i,
    {
        if has_key(&candidates[i], key) {
            return true;
        }
        i += 1;
    }
    false
}

fn has_some_key(candidate: &SiblingRepository, keys: &Vec<String>) -> (found: bool)
    ensures
        found == lies_at_any(*candidate, texts(keys@)),
{
    let mut i: usize = 0;
    while i < keys.len()
        invariant
            i <= keys@.len(),
            forall|k: int| 0 <= k < i ==> !lies_at(*candidate, #[trigger] texts(keys@)[k]),
        decreases keys@.len() - i,
    {
        assert(texts(keys@)[i as int] == keys@[i as int]@);
        if has_key(candidate, keys[i].as_str()) {
            return true;
        }
        i += 1;
    }
    false
}

/// Finds the picked repositories, in the order of the list. A path that was not offered is an
/// error: no repository is contacted that was not meant.
pub fn in_candidate_order<'a>(
    messages: Messages,
    candidates: &'a [SiblingRepository],
    selected: &Vec<String>,
) -> (found: Result<Vec<&'a SiblingRepository>, Error>)
    ensures
        match found {
            Ok(list) => {
                &&& unknown_paths(candidates@, texts(selected@)).len() == 0
                &&& values(list@) == candidates@.filter(
                    |candidate: SiblingRepository| lies_at_any(candidate, texts(selected@)),
                )
            },
            Err(error) => {
                &&& unknown_paths(candidates@, texts(selected@)).len() > 0
                &&& error.says(
                    messages.fetch().sibling_selection_not_found_text(
                        join(unknown_paths(candidates@, texts(selected@)), ", "@),
                    ),
                )
            },
        },
{
    let ghost keys = texts(selected@);
    let ghost unknown = |key: Seq<char>| !any_lies_at(candidates@, key);
    let mut absent: Vec<String> = Vec::new();
    let mut i: usize = 0;
    proof {
        lemma_filter_empty(keys, unknown);
        assert(texts(absent@) =~= Seq::empty());
    }
    while i < selected.len()
        invariant
            i <= selected@.len(),
            keys == texts(selected@),
            unknown == (|key: Seq<char>| !any_lies_at(candidates@, key)),
            texts(absent@) == keys.take(i as int).filter(unknown),
        decreases selected@.len() - i,
    {
        proof {
            lemma_filter_step(keys, unknown, i as int);
            assert(keys[i as int] == selected@[i as int]@);
        }
        if !some_has_key(candidates, selected[i].as_str()) {
            absent.push(selected[i].clone());
        }
        i += 1;
    }
    assert(keys.take(i as int) =~= keys);
    assert(texts(absent@).len() == absent@.len());
    if absent.len() > 0 {
        let names = join_texts(&absent, ", ");
        return Err(Error::Explained(messages.fetch().sibling_selection_not_found(names.as_str())));
    }
    let ghost wanted = |candidate: SiblingRepository| lies_at_any(candidate, keys);
    let mut list: Vec<&'a SiblingRepository> = Vec::new();
    let mut j: usize = 0;
    proof {
        lemma_filter_empty(candidates@, wanted);
        assert(values(list@) =~= Seq::empty());
    }
    while j < candidates.len()
        invariant
            j <= candidates@.len(),
            keys == texts(selected@),
            wanted == (|candidate: SiblingRepository| lies_at_any(candidate, keys)),
            values(list@) == candidates@.take(j as int).filter(wanted),
        decreases candidates@.len() - j,
    {
        proof {
            lemma_filter_step(candidates@, wanted, j as int);
        }
        let ghost before = list@;
        if has_some_key(&candidates[j], selected) {
            list.push(&candidates[j]);
            assert(values(list@) =~= values(before).push(candidates@[j as int]));
        }
        j += 1;
    }
    assert(candidates@.take(j as int) =~= candidates@);
    Ok(list)
}

/// The arguments that fetch a repository: all of its remotes.
pub fn sibling_fetch_args(prune: PruneMode) -> (args: Vec<String>)
    ensures
        texts(args@) == fetch_arguments(None, prune),
{
    let mut args: Vec<String> = Vec::new();
    args.push(owned("fetch"));
    if let Some(option) = prune.option() {
        args.push(owned(option));
    }
    args.push(owned(ALL_REMOTES_OPTION));
    assert(texts(args@) =~= fetch_arguments(None, prune));
    args
}

/// Announces a repository.
pub fn progress_line(index: usize, total: usize, target: &SiblingRepository) -> (line: String)
    requires
        index < usize::MAX,
    ensures
        line@ == progress_text(index as int, total as nat, target.name@),
{
    progress(index, total, target.name.as_str())
}

/// Nothing set is the default, and what is set holds: a number in decimal that is not zero is
/// taken as it is, and anything else stops the command before it contacts anyone.
pub proof fn law_a_setting_is_taken_at_its_word(
    value: Option<&str>,
    jobs: Result<usize, Error>,
    n: usize,
)
    requires
        call_ensures(parse_fetch_jobs, (value,), jobs),
    ensures
        value is None ==> jobs == Ok::<usize, Error>(4),
        value matches Some(text) ==> (text@.len() == 0 ==> jobs == Ok::<usize, Error>(4)),
        value matches Some(text) ==> (text@ == decimal(n as nat) && n > 0 ==> jobs == Ok::<usize, Error>(
            n,
        )),
        value matches Some(text) ==> (text@ == decimal(0) ==> jobs is Err),
        value matches Some(text) ==> (text@.len() > 0 && text@[0] == '-' ==> jobs is Err),
        jobs matches Ok(number) ==> number > 0,
        jobs matches Err(error) ==> (error matches Error::InvalidFetchJobs { value: shown } && Some(
            shown@,
        ) == text_of(value)),
{
    crate::text::law_a_number_is_read_back(n);
    crate::text::law_a_number_is_read_back(0);
    if let Some(text) = value {
        if text@.len() > 0 && text@[0] == '-' {
            assert(crate::text::without_plus(text@) == text@);
            assert(!crate::text::is_digit(text@[0]));
        }
        assert(decimal(0).len() == 1);
        if text@ == decimal(n as nat) {
            crate::text::lemma_decimal_is_not_empty(n as nat);
        }
    }
}

/// A list of remotes is shown if and only if there are several. It holds every remote by its
/// name, and behind them the one entry that stands for all.
pub proof fn law_a_list_is_shown_where_there_is_a_choice(
    messages: Messages,
    remotes: &Vec<String>,
    choice: Result<RemoteChoice, Error>,
)
    requires
        call_ensures(choose_remote, (messages, remotes), choice),
    ensures
        choice is Err <==> remotes@.len() == 0,
        remotes@.len() == 1 ==> (choice matches Ok(RemoteChoice::Fixed(target, _)) && target.remote()
            == Some(remotes@[0]@)),
        remotes@.len() > 1 ==> (choice matches Ok(RemoteChoice::Choose(picker)) && {
            &&& picker.items@.len() == remotes@.len() + 1
            &&& picker.items@.last().key@ == "*all*"@
            &&& forall|i: int|
                0 <= i < remotes@.len() ==> (#[trigger] picker.items@[i]).key@ == remotes@[i]@
        }),
{
    if remotes@.len() > 1 {
        if let Ok(RemoteChoice::Choose(picker)) = choice {
            let views = item_views(picker.items@);
            assert(views.len() == picker.items@.len());
            assert(texts(remotes@).len() == remotes@.len());
            assert(views.last() == picker.items@.last()@);
            assert forall|i: int| 0 <= i < remotes@.len() implies (#[trigger] picker.items@[i]).key@
                == remotes@[i]@ by {
                assert(views[i] == picker.items@[i]@);
                assert(texts(remotes@)[i] == remotes@[i]@);
            }
        }
    }
}

/// What is picked is what is fetched: the key for all of them fetches all, and the name of a
/// remote fetches that remote.
pub proof fn law_the_picked_remote_is_fetched(
    messages: Messages,
    remotes: &Vec<String>,
    selected: &str,
    prune: PruneMode,
    run: Result<GitRun, Error>,
)
    requires
        call_ensures(run_on_selection, (messages, remotes, selected, prune), run),
    ensures
        run is Ok <==> selected@ == "*all*"@ || texts(remotes@).contains(selected@),
        run matches Ok(run) ==> {
            &&& texts(run.args@)[0] == "fetch"@
            &&& texts(run.args@).last() == (if selected@ == "*all*"@ {
                "--all"@
            } else {
                selected@
            })
            &&& texts(run.args@).len() == (if prune is Prune {
                3int
            } else {
                2
            })
        },
{
}

/// Siblings are fetched without a list if and only if the current repository is the only one: a
/// repository that is not the current one is never contacted without being picked.
pub proof fn law_no_other_repository_is_contacted_unasked(
    candidates: &[SiblingRepository],
    decision: SiblingsDecision,
)
    requires
        call_ensures(SiblingsDecision::from_candidates, (candidates,), decision),
    ensures
        decision == SiblingsDecision::NoCandidate <==> candidates@.len() == 0,
        decision == SiblingsDecision::Fixed <==> candidates@.len() == 1 && candidates@[0].is_current,
{
}

/// A repository is fetched if and only if it was picked, by the path at which it lies, and a path
/// at which none lies is refused.
pub proof fn law_the_picked_repositories_are_fetched<'a>(
    messages: Messages,
    candidates: &'a [SiblingRepository],
    selected: &Vec<String>,
    found: Result<Vec<&'a SiblingRepository>, Error>,
    i: int,
)
    requires
        0 <= i < candidates@.len(),
        call_ensures(in_candidate_order, (messages, candidates, selected), found),
    ensures
        found matches Ok(list) ==> (values(list@).contains(candidates@[i]) <==> exists|k: int|
            0 <= k < selected@.len() && (candidates@[i].workdir matches WorkPath::Text(path)
                && are_same_path(path@, (#[trigger] selected@[k])@))),
{
    broadcast use vstd::seq_lib::group_filter_ensures;

    let keys = texts(selected@);
    let wanted = |candidate: SiblingRepository| lies_at_any(candidate, keys);
    let candidate = candidates@[i];
    if found is Ok {
        if candidates@.filter(wanted).contains(candidate) {
            let j = choose|j: int|
                0 <= j < candidates@.filter(wanted).len() && candidates@.filter(wanted)[j]
                    == candidate;
            assert(wanted(candidates@.filter(wanted)[j]));
            let k = choose|k: int| 0 <= k < keys.len() && lies_at(candidate, #[trigger] keys[k]);
            assert(keys[k] == selected@[k]@);
        }
        if exists|k: int|
            0 <= k < selected@.len() && (candidate.workdir matches WorkPath::Text(path)
                && are_same_path(path@, (#[trigger] selected@[k])@)) {
            let k = choose|k: int|
                0 <= k < selected@.len() && (candidate.workdir matches WorkPath::Text(path)
                    && are_same_path(path@, (#[trigger] selected@[k])@));
            assert(lies_at(candidate, keys[k]));
            assert(wanted(candidates@[i]));
            assert(candidates@.filter(wanted).contains(candidates@[i]));
        }
    }
}

/// What is picked from the start is the current repository, and nothing else.
pub proof fn law_the_current_repository_is_picked_from_the_start(
    candidates: Seq<SiblingRepository>,
    lines: Seq<Seq<char>>,
    line: Seq<char>,
)
    requires
        candidates.len() <= lines.len(),
    ensures
        current_lines(candidates, lines).contains(line) <==> exists|i: int|
            0 <= i < candidates.len() && (#[trigger] candidates[i]).is_current && lines[i] == line,
    decreases candidates.len(),
{
    if candidates.len() > 0 {
        let rest = candidates.drop_last();
        let before = current_lines(rest, lines);
        let all = current_lines(candidates, lines);
        law_the_current_repository_is_picked_from_the_start(rest, lines, line);
        if all.contains(line) {
            let k = choose|k: int| 0 <= k < all.len() && all[k] == line;
            if k < before.len() {
                assert(before[k] == line);
                let i = choose|i: int|
                    0 <= i < rest.len() && (#[trigger] rest[i]).is_current && lines[i] == line;
                assert(candidates[i].is_current);
            } else {
                assert(candidates[candidates.len() - 1].is_current);
            }
        }
        if exists|i: int|
            0 <= i < candidates.len() && (#[trigger] candidates[i]).is_current && lines[i] == line {
            let i = choose|i: int|
                0 <= i < candidates.len() && (#[trigger] candidates[i]).is_current && lines[i]
                    == line;
            if i < rest.len() {
                assert(rest[i].is_current);
                let k = choose|k: int| 0 <= k < before.len() && before[k] == line;
                assert(all[k] == line);
            } else {
                assert(all.last() == line);
            }
        }
    }
}

/// The preview of a repository runs git in that repository, for every remote of it and for its
/// branches, and takes no lock there that it can do without.
pub proof fn law_a_preview_runs_in_its_own_repository(
    messages: Messages,
    candidate: &SiblingRepository,
    preview: PreviewSource,
)
    requires
        call_ensures(sibling_preview_source, (messages, candidate), preview),
    ensures
        preview@ matches Preview::Composite(sections) && {
            &&& sections.len() == candidate.remotes@.len() + 1
            &&& forall|i: int|
                0 <= i < sections.len() ==> ((#[trigger] sections[i]).1 matches Preview::GitIn {
                    directory,
                    ..
                } && directory == candidate.workdir@)
            &&& sections.last().1 matches Preview::GitIn { args, .. }
            &&& args[0] == "--no-optional-locks"@
            &&& args[1] == "for-each-ref"@
        },
{
    assert(texts(candidate.remotes@).len() == candidate.remotes@.len());
}

/// A repository on a branch is shown in blue by the branches of its remotes, and one on no branch
/// in yellow.
pub proof fn law_the_color_tells_whether_there_is_a_branch(
    line: &str,
    candidate: &SiblingRepository,
    highlights: Vec<Highlight>,
    i: int,
)
    requires
        0 <= i < highlights@.len(),
        call_ensures(sibling_highlights, (line, candidate), highlights),
    ensures
        highlights@.len() == 1,
        highlights@[i].color == HighlightColor::Blue <==> candidate.current_branch is Some,
        highlights@[i].color == HighlightColor::Yellow <==> candidate.current_branch is None,
{
}

/// What pruning applies to is said if and only if pruning was asked for, and how many
/// repositories are left out if and only if any is.
pub proof fn law_the_header_says_what_applies(
    messages: Messages,
    excluded: usize,
    prune: PruneMode,
)
    ensures
        header_sections(messages, excluded, prune).len() == 1 + (if excluded > 0 {
            1int
        } else {
            0
        }) + (if prune is Prune {
            1int
        } else {
            0
        }),
        header_sections(messages, excluded, prune)[0] == messages.fetch().siblings_header_text(),
        prune is Prune ==> header_sections(messages, excluded, prune).last()
            == messages.fetch().prune_scope_note_text(),
        excluded > 0 ==> header_sections(messages, excluded, prune)[1]
            == messages.fetch().excluded_count_text(excluded),
{
}

/// The line of a repository begins with its name and ends with where it would be fetched from: on
/// a branch, that branch of each remote, in order; on none, that there is none.
pub proof fn law_a_line_leads_from_a_repository_to_its_remotes(
    candidate: &SiblingRepository,
    row: Vec<String>,
)
    requires
        call_ensures(sibling_cells, (candidate,), row),
    ensures
        texts(row@)[0] == candidate.name@,
        candidate.current_branch is None ==> texts(row@).len() == 3 && texts(row@)[2]
            == "detached HEAD"@ && texts(row@)[1] == join(texts(candidate.remotes@), ", "@),
        candidate.current_branch matches Some(branch) ==> texts(row@).len() == 2 && texts(row@)[1]
            == join(
            texts(candidate.remotes@).map_values(|remote: Seq<char>| remote + "/"@ + branch@),
            ", "@,
        ),
{
}

/// A remote is found by its name, and its preview is about it and stays at home.
pub proof fn law_a_remote_is_found_by_its_name(messages: Messages, remote: &str, item: FinderItem)
    requires
        call_ensures(to_item, (messages, remote), item),
    ensures
        item.key@ == remote@,
        item.display@ == remote@,
        item@.preview matches Preview::Composite(sections) && sections.len() == 2 && sections[0].1
            == Preview::Git(seq!["remote"@, "get-url"@, "--all"@, remote@]),
{
    assert(item@.key == item.key@);
}

/// A setting is read from its bytes as from its text.
pub proof fn law_bytes_are_read_like_text(
    bytes: &[u8],
    text: &str,
    jobs: Result<usize, Error>,
    parsed: Result<usize, Error>,
    unset: Result<usize, Error>,
)
    requires
        text@ == setting_text(bytes@),
        call_ensures(fetch_jobs, (Some(bytes),), jobs),
        call_ensures(parse_fetch_jobs, (Some(text),), parsed),
        call_ensures(fetch_jobs, (None,), unset),
    ensures
        jobs is Ok <==> parsed is Ok,
        jobs matches Ok(number) ==> parsed == Ok::<usize, Error>(number),
        unset == Ok::<usize, Error>(4),
{
}

/// A repository is found by its path, as it is, and one whose path is no text cannot be found.
pub proof fn law_a_repository_is_found_by_its_path<'a>(
    messages: Messages,
    candidate: &'a SiblingRepository,
    key: Result<&'a str, Error>,
    found: bool,
)
    requires
        call_ensures(sibling_key, (messages, candidate), key),
        key is Ok ==> call_ensures(has_key, (candidate, key->Ok_0), found),
    ensures
        key is Ok <==> candidate.workdir is Text,
        key matches Ok(key) ==> found && (candidate.workdir matches WorkPath::Text(path) && key@
            == path@),
{
}

/// The preview of all remotes shows the address of each of them, under its name and in order.
pub proof fn law_all_addresses_are_shown(remotes: &Vec<String>, preview: PreviewSource, i: int)
    requires
        call_ensures(all_remotes_preview, (remotes,), preview),
        0 <= i < remotes@.len(),
    ensures
        preview@ matches Preview::Composite(sections) && sections.len() == remotes@.len()
            && sections[i] == (
            remotes@[i]@,
            Preview::Git(seq!["remote"@, "get-url"@, "--all"@, remotes@[i]@]),
        ),
{
    assert(texts(remotes@)[i] == remotes@[i]@);
}

} // verus!
