//! Fetching several repositories: all of them at once, and then what failed, one at a time.
//!
//! Nobody can be asked anything while several run, so what needs a password fails first and
//! then runs again with the terminal. Nothing is tried more often than that.

use vstd::prelude::*;
use vstd::utf8::encode_utf8;

use crate::color::append_bytes;
use crate::commands::fetch::{progress_line, report_line};
use crate::commands::{progress_text, summary, summary_text};
use crate::error::{Error, RunOutcome, StartFailure};
use crate::git::SiblingRepository;
use crate::i18n::Messages;
use crate::selection::{lemma_filter_empty, lemma_filter_step, values};
use crate::text::{owned, texts};

verus! {

broadcast use crate::text::lemma_texts_push;

/// How a repository fared among the others.
#[derive(Debug, Clone, Copy, PartialEq, Eq, Structural)]
pub enum Outcome {
    Succeeded,
    Failed,
}

/// What git wrote while nobody looked.
#[derive(Debug, PartialEq, Eq)]
pub struct CapturedRun {
    pub stdout: Vec<u8>,
    pub stderr: Vec<u8>,
}

/// How a run among others ended.
#[derive(Debug, PartialEq, Eq)]
pub enum ParallelResult {
    /// It succeeded, having written this.
    Captured(CapturedRun),
    /// It failed. Git says why when it runs again.
    Failed,
    /// It did not start.
    NotStarted(StartFailure),
}

/// How many workers there are: no more than there are repositories.
pub fn worker_count(jobs: usize, total: usize) -> (workers: usize)
    ensures
        workers == (if jobs <= total {
            jobs
        } else {
            total
        }),
{
    if jobs <= total {
        jobs
    } else {
        total
    }
}

/// Where the first phase is.
#[verifier::ext_equal]
pub struct PhaseState {
    /// The repository that is taken next.
    pub next: nat,
    /// How many repositories are done.
    pub completed: nat,
    /// How each of them fared, where it is known.
    pub outcomes: Seq<Option<Outcome>>,
    /// Why no more repositories are taken.
    pub failure: Option<Error>,
}

impl PhaseState {
    /// The start, where nothing was taken.
    pub open spec fn start(total: nat) -> PhaseState {
        PhaseState {
            next: 0,
            completed: 0,
            outcomes: Seq::new(total, |i: int| None::<Outcome>),
            failure: None,
        }
    }

    /// The repository that a worker gets, where there is one.
    pub open spec fn claimed(self) -> Option<nat> {
        if self.failure is None && self.next < self.outcomes.len() {
            Some(self.next)
        } else {
            None
        }
    }

    /// Where the phase is after a worker asked.
    pub open spec fn after_claim(self) -> PhaseState {
        if self.claimed() is Some {
            PhaseState { next: self.next + 1, ..self }
        } else {
            self
        }
    }

    /// Where the phase is after it was stopped. The first reason is kept: those after it may
    /// follow from it.
    pub open spec fn after_stop(self, failure: Error) -> PhaseState {
        if self.failure is None {
            PhaseState { failure: Some(failure), ..self }
        } else {
            self
        }
    }

    /// Where the phase is after a repository was done.
    pub open spec fn after_outcome(self, index: int, outcome: Outcome) -> PhaseState {
        PhaseState {
            completed: self.completed + 1,
            outcomes: if index < self.outcomes.len() {
                self.outcomes.update(index, Some(outcome))
            } else {
                self.outcomes
            },
            ..self
        }
    }
}

/// How a repository fared, by how its run ended.
pub open spec fn outcome_of(result: ParallelResult) -> Outcome {
    if result is Captured {
        Outcome::Succeeded
    } else {
        Outcome::Failed
    }
}

/// What is written for a repository that is done: its place, and all that git wrote.
pub open spec fn block_of(
    completed: nat,
    total: nat,
    name: Seq<char>,
    result: ParallelResult,
) -> Seq<u8> {
    encode_utf8(progress_text(completed as int, total, name) + "\n"@) + (match result {
        ParallelResult::Captured(run) => run.stdout@ + run.stderr@,
        _ => Seq::empty(),
    })
}

/// Whether a phase is where it is after the run of a repository ended, and what is written for
/// it is that.
pub open spec fn is_recorded(
    before: PhaseState,
    after: PhaseState,
    block: Option<Vec<u8>>,
    messages: Messages,
    index: int,
    total: nat,
    name: Seq<char>,
    result: ParallelResult,
) -> bool {
    match result {
        ParallelResult::NotStarted(cause) => {
            &&& block is None
            &&& exists|failure: Error|
                {
                    &&& #[trigger] is_start_failure(failure, messages, name, cause)
                    &&& after == before.after_stop(failure)
                }
        },
        _ => {
            &&& after == before.after_outcome(index, outcome_of(result))
            &&& block matches Some(block)
            &&& block@ == block_of(before.completed, total, name, result)
        },
    }
}

/// The phase in which several repositories are fetched at once.
#[derive(Debug)]
pub struct ParallelPhase {
    next: usize,
    completed: usize,
    outcomes: Vec<Option<Outcome>>,
    failure: Option<Error>,
}

impl View for ParallelPhase {
    type V = PhaseState;

    closed spec fn view(&self) -> PhaseState {
        PhaseState {
            next: self.next as nat,
            completed: self.completed as nat,
            outcomes: self.outcomes@,
            failure: self.failure,
        }
    }
}

impl ParallelPhase {
    pub fn new(total: usize) -> (phase: Self)
        ensures
            phase@ == PhaseState::start(total as nat),
    {
        let mut outcomes: Vec<Option<Outcome>> = Vec::new();
        let mut i: usize = 0;
        while i < total
            invariant
                i <= total,
                outcomes@ =~= Seq::new(i as nat, |i: int| None::<Outcome>),
            decreases total - i,
        {
            outcomes.push(None);
            i += 1;
        }
        ParallelPhase { next: 0, completed: 0, outcomes, failure: None }
    }

    /// Takes a repository. Once the phase is stopped none is taken any more.
    pub fn claim(&mut self) -> (index: Option<usize>)
        ensures
            final(self)@ == old(self)@.after_claim(),
            match index {
                Some(index) => old(self)@.claimed() == Some(index as nat),
                None => old(self)@.claimed() is None,
            },
    {
        if self.failure.is_some() {
            return None;
        }
        let total: usize = self.outcomes.len();
        if self.next < total {
            let index: usize = self.next;
            self.next = self.next + 1;
            Some(index)
        } else {
            None
        }
    }

    /// Notes how a repository fared, and gives all that is written for it, in one piece. Where
    /// git did not start the phase is stopped and nothing is written.
    pub fn record(
        &mut self,
        messages: Messages,
        index: usize,
        total: usize,
        target: &SiblingRepository,
        result: ParallelResult,
    ) -> (block: Option<Vec<u8>>)
        requires
            old(self)@.completed < usize::MAX,
        ensures
            is_recorded(
                old(self)@,
                final(self)@,
                block,
                messages,
                index as int,
                total as nat,
                target.name@,
                result,
            ),
    {
        let run = match result {
            ParallelResult::Captured(run) => Some(run),
            ParallelResult::Failed => None,
            ParallelResult::NotStarted(cause) => {
                let failure = Error::NotStarted {
                    explanation: messages.fetch().sibling_start_failed(target.name.as_str()),
                    cause,
                };
                assert(is_start_failure(failure, messages, target.name@, cause));
                self.stop(failure);
                return None;
            },
        };
        let line = progress_line(self.completed, total, target);
        self.completed = self.completed + 1;
        let outcome = if run.is_some() {
            Outcome::Succeeded
        } else {
            Outcome::Failed
        };
        if index < self.outcomes.len() {
            self.outcomes.set(index, Some(outcome));
        }
        let mut block: Vec<u8> = Vec::new();
        let head = report_line(line.as_str());
        append_bytes(&mut block, head.as_str().as_bytes());
        if let Some(run) = run {
            append_bytes(&mut block, run.stdout.as_slice());
            append_bytes(&mut block, run.stderr.as_slice());
        }
        assert(block@ =~= block_of(old(self)@.completed, total as nat, target.name@, result));
        Some(block)
    }

    /// Stops the phase: what runs is waited for, and nothing else is taken.
    pub fn stop(&mut self, failure: Error)
        ensures
            final(self)@ == old(self)@.after_stop(failure),
    {
        if self.failure.is_none() {
            self.failure = Some(failure);
        }
    }

    /// Ends the phase, with how each repository fared or with why it was stopped.
    pub fn finish(self) -> (end: Result<Vec<Option<Outcome>>, Error>)
        ensures
            match self@.failure {
                Some(failure) => end == Err::<Vec<Option<Outcome>>, Error>(failure),
                None => end matches Ok(outcomes) && outcomes@ == self@.outcomes,
            },
    {
        match self.failure {
            Some(failure) => Err(failure),
            None => Ok(self.outcomes),
        }
    }
}

/// Whether an error says that fetching a repository did not start.
pub open spec fn is_start_failure(
    error: Error,
    messages: Messages,
    name: Seq<char>,
    cause: StartFailure,
) -> bool {
    error matches Error::NotStarted { explanation, cause: kept } && explanation@
        == messages.fetch().sibling_start_failed_text(name) && kept == cause
}

/// How many outcomes are known.
pub open spec fn known_count(outcomes: Seq<Option<Outcome>>) -> nat
    decreases outcomes.len(),
{
    if outcomes.len() == 0 {
        0
    } else {
        known_count(outcomes.drop_last()) + (if outcomes.last() is Some {
            1nat
        } else {
            0nat
        })
    }
}

proof fn lemma_known_count_update(outcomes: Seq<Option<Outcome>>, index: int, outcome: Outcome)
    requires
        0 <= index < outcomes.len(),
        outcomes[index] is None,
    ensures
        known_count(outcomes.update(index, Some(outcome))) == known_count(outcomes) + 1,
    decreases outcomes.len(),
{
    let after = outcomes.update(index, Some(outcome));
    if index == outcomes.len() - 1 {
        assert(after.drop_last() =~= outcomes.drop_last());
    } else {
        lemma_known_count_update(outcomes.drop_last(), index, outcome);
        assert(after.drop_last() =~= outcomes.drop_last().update(index, Some(outcome)));
    }
}

proof fn lemma_known_count_bound(outcomes: Seq<Option<Outcome>>)
    ensures
        known_count(outcomes) <= outcomes.len(),
        known_count(outcomes) == outcomes.len() ==> forall|i: int|
            0 <= i < outcomes.len() ==> (#[trigger] outcomes[i]) is Some,
    decreases outcomes.len(),
{
    if outcomes.len() > 0 {
        lemma_known_count_bound(outcomes.drop_last());
        if known_count(outcomes) == outcomes.len() {
            assert forall|i: int| 0 <= i < outcomes.len() implies (#[trigger] outcomes[i]) is Some by {
                if i < outcomes.len() - 1 {
                    assert(outcomes.drop_last()[i] is Some);
                }
            }
        }
    }
}

/// As long as every repository is done once, the place that a repository gets is the number
/// of those that are done.
pub proof fn law_places_count_what_is_done(state: PhaseState, index: int, outcome: Outcome)
    requires
        state.completed == known_count(state.outcomes),
        0 <= index < state.outcomes.len(),
        state.outcomes[index] is None,
    ensures
        ({
            let after = state.after_outcome(index, outcome);
            &&& after.completed == known_count(after.outcomes)
            &&& 1 <= after.completed <= after.outcomes.len()
        }),
{
    lemma_known_count_update(state.outcomes, index, outcome);
    lemma_known_count_bound(state.after_outcome(index, outcome).outcomes);
}

/// Once as many are done as there are, every outcome is known.
pub proof fn law_every_outcome_is_known_in_the_end(state: PhaseState)
    requires
        state.completed == known_count(state.outcomes),
        state.completed == state.outcomes.len(),
    ensures
        forall|i: int| 0 <= i < state.outcomes.len() ==> (#[trigger] state.outcomes[i]) is Some,
{
    lemma_known_count_bound(state.outcomes);
}

/// No repository is taken twice: what is taken later comes later in the list, whatever
/// happens in between.
pub proof fn law_a_repository_is_taken_once(state: PhaseState, index: int, outcome: Outcome, failure: Error)
    ensures
        state.claimed() matches Some(taken) ==> taken < state.after_claim().next,
        state.next <= state.after_claim().next,
        state.next == state.after_outcome(index, outcome).next,
        state.next == state.after_stop(failure).next,
{
}

/// Once the phase is stopped, no repository is taken, and the reason stays.
pub proof fn law_a_stopped_phase_stays_stopped(
    state: PhaseState,
    index: int,
    outcome: Outcome,
    failure: Error,
)
    requires
        state.failure is Some,
    ensures
        state.claimed() is None,
        state.after_claim().failure == state.failure,
        state.after_outcome(index, outcome).failure == state.failure,
        state.after_stop(failure).failure == state.failure,
{
}

/// What happens in a first phase that is not stopped.
pub enum Event {
    /// A worker asks for a repository.
    Asked,
    /// The run of a repository ended.
    Ended { index: int, result: ParallelResult },
}

/// Where a phase over `total` repositories is after all that happened.
pub open spec fn state_after(total: nat, events: Seq<Event>) -> PhaseState
    decreases events.len(),
{
    if events.len() == 0 {
        PhaseState::start(total)
    } else {
        let before = state_after(total, events.drop_last());
        match events.last() {
            Event::Asked => before.after_claim(),
            Event::Ended { index, result } => before.after_outcome(index, outcome_of(result)),
        }
    }
}

/// The repositories that workers got, in order.
pub open spec fn taken_in(total: nat, events: Seq<Event>) -> Seq<int>
    decreases events.len(),
{
    if events.len() == 0 {
        Seq::empty()
    } else {
        let earlier = taken_in(total, events.drop_last());
        match (events.last(), state_after(total, events.drop_last()).claimed()) {
            (Event::Asked, Some(index)) => earlier.push(index as int),
            _ => earlier,
        }
    }
}

/// The repositories whose runs ended, in order.
pub open spec fn ended_in(events: Seq<Event>) -> Seq<int>
    decreases events.len(),
{
    if events.len() == 0 {
        Seq::empty()
    } else {
        let earlier = ended_in(events.drop_last());
        match events.last() {
            Event::Ended { index, .. } => earlier.push(index),
            Event::Asked => earlier,
        }
    }
}

/// How the runs ended, in order.
pub open spec fn results_in(events: Seq<Event>) -> Seq<ParallelResult>
    decreases events.len(),
{
    if events.len() == 0 {
        Seq::empty()
    } else {
        let earlier = results_in(events.drop_last());
        match events.last() {
            Event::Ended { result, .. } => earlier.push(result),
            Event::Asked => earlier,
        }
    }
}

/// What is written for the runs, in order.
pub open spec fn blocks_in(names: Seq<Seq<char>>, events: Seq<Event>) -> Seq<Seq<u8>>
    decreases events.len(),
{
    if events.len() == 0 {
        Seq::empty()
    } else {
        let earlier = blocks_in(names, events.drop_last());
        let completed = state_after(names.len(), events.drop_last()).completed;
        match events.last() {
            Event::Ended { index, result } => earlier.push(
                block_of(completed, names.len(), names[index], result),
            ),
            Event::Asked => earlier,
        }
    }
}

/// Whether all this can happen in a phase that is not stopped: what ends was taken, git
/// started, and it ended once.
pub open spec fn can_happen(total: nat, events: Seq<Event>) -> bool
    decreases events.len(),
{
    events.len() > 0 ==> {
        &&& can_happen(total, events.drop_last())
        &&& events.last() matches Event::Ended { index, result } ==> {
            &&& taken_in(total, events.drop_last()).contains(index)
            &&& !ended_in(events.drop_last()).contains(index)
            &&& result !is NotStarted
        }
    }
}

/// Whether the phase is over: there is nothing left to take, and what was taken has ended.
pub open spec fn is_over(total: nat, events: Seq<Event>) -> bool {
    &&& state_after(total, events).claimed() is None
    &&& forall|k: int|
        0 <= k < taken_in(total, events).len() ==> ended_in(events).contains(
            #[trigger] taken_in(total, events)[k],
        )
}

proof fn lemma_known_count_start(total: nat)
    ensures
        known_count(PhaseState::start(total).outcomes) == 0,
    decreases total,
{
    if total > 0 {
        lemma_known_count_start((total - 1) as nat);
        assert(PhaseState::start(total).outcomes.drop_last() =~= PhaseState::start(
            (total - 1) as nat,
        ).outcomes);
    }
}

proof fn lemma_all_known(outcomes: Seq<Option<Outcome>>)
    requires
        forall|i: int| 0 <= i < outcomes.len() ==> (#[trigger] outcomes[i]) is Some,
    ensures
        known_count(outcomes) == outcomes.len(),
    decreases outcomes.len(),
{
    if outcomes.len() > 0 {
        lemma_all_known(outcomes.drop_last());
    }
}

/// At any moment of a phase that is not stopped: the repositories are taken in the order of the
/// list, and the runs that ended are known, counted and told by their places.
proof fn lemma_phase(names: Seq<Seq<char>>, events: Seq<Event>)
    requires
        can_happen(names.len(), events),
    ensures
        ({
            let total = names.len();
            let state = state_after(total, events);
            let ended = ended_in(events);
            &&& state.failure is None
            &&& state.outcomes.len() == total
            &&& state.next <= total
            &&& taken_in(total, events) == indices(state.next)
            &&& ended.no_duplicates()
            &&& results_in(events).len() == ended.len()
            &&& blocks_in(names, events).len() == ended.len()
            &&& state.completed == ended.len() == known_count(state.outcomes)
            &&& forall|i: int|
                0 <= i < total ==> ((#[trigger] state.outcomes[i]) is Some <==> ended.contains(i))
            &&& forall|k: int|
                0 <= k < ended.len() ==> {
                    &&& 0 <= #[trigger] ended[k] < total
                    &&& state.outcomes[ended[k]] == Some(outcome_of(results_in(events)[k]))
                    &&& blocks_in(names, events)[k] == block_of(
                        k as nat,
                        total,
                        names[ended[k]],
                        results_in(events)[k],
                    )
                }
        }),
    decreases events.len(),
{
    let total = names.len();
    if events.len() == 0 {
        lemma_known_count_start(total);
        assert(taken_in(total, events) =~= indices(0));
    } else {
        let earlier = events.drop_last();
        let before = state_after(total, earlier);
        lemma_phase(names, earlier);
        match events.last() {
            Event::Asked => {
                if before.claimed() is Some {
                    assert(taken_in(total, events) =~= indices(before.next + 1));
                }
            },
            Event::Ended { index, result } => {
                let state = state_after(total, events);
                let ended = ended_in(earlier);
                let now = ended_in(events);
                assert(0 <= index < before.next);
                assert(before.outcomes[index] is None);
                lemma_known_count_update(before.outcomes, index, outcome_of(result));
                assert(now == ended.push(index));
                assert forall|i: int| 0 <= i < total implies ((#[trigger] state.outcomes[i]) is Some
                    <==> now.contains(i)) by {
                    if i == index {
                        assert(now[ended.len() as int] == index);
                    } else {
                        assert(before.outcomes[i] == state.outcomes[i]);
                        if ended.contains(i) {
                            let k = choose|k: int| 0 <= k < ended.len() && ended[k] == i;
                            assert(now[k] == i);
                        }
                        if now.contains(i) {
                            let k = choose|k: int| 0 <= k < now.len() && now[k] == i;
                            assert(ended[k] == i);
                        }
                    }
                }
                assert forall|k: int| 0 <= k < now.len() implies {
                    &&& 0 <= #[trigger] now[k] < total
                    &&& state.outcomes[now[k]] == Some(outcome_of(results_in(events)[k]))
                    &&& blocks_in(names, events)[k] == block_of(
                        k as nat,
                        total,
                        names[now[k]],
                        results_in(events)[k],
                    )
                } by {
                    if k < ended.len() {
                        assert(now[k] == ended[k]);
                        assert(ended.contains(ended[k]));
                    }
                }
            },
        }
    }
}

/// Whatever the order in which workers ask and runs end, as long as nothing stops the phase:
/// the repositories are taken in the order of the list, each of them once. The k-th run that
/// ends is told at place k, in one block that is its own and no other's, and its outcome is
/// kept. Once the phase is over every repository was taken, has its one block, and its outcome
/// is known, so that the places run from the first to the last.
pub proof fn law_a_whole_phase_fetches_each_repository_once(
    names: Seq<Seq<char>>,
    events: Seq<Event>,
)
    requires
        can_happen(names.len(), events),
    ensures
        ({
            let total = names.len();
            let state = state_after(total, events);
            let taken = taken_in(total, events);
            let ended = ended_in(events);
            let results = results_in(events);
            let blocks = blocks_in(names, events);
            &&& taken == indices(taken.len())
            &&& taken.no_duplicates()
            &&& taken.len() <= total
            &&& ended.no_duplicates()
            &&& state.completed == ended.len() == results.len() == blocks.len()
            &&& forall|k: int|
                0 <= k < ended.len() ==> {
                    &&& 0 <= #[trigger] ended[k] < total
                    &&& blocks[k] == block_of(k as nat, total, names[ended[k]], results[k])
                    &&& state.outcomes[ended[k]] == Some(outcome_of(results[k]))
                }
            &&& is_over(total, events) ==> {
                &&& taken == indices(total)
                &&& ended.len() == total
                &&& forall|i: int|
                    0 <= i < total ==> ended.contains(i) && (#[trigger] state.outcomes[i]) is Some
            }
        }),
{
    let total = names.len();
    let state = state_after(total, events);
    let taken = taken_in(total, events);
    let ended = ended_in(events);
    lemma_phase(names, events);
    if is_over(total, events) {
        assert(state.next == total);
        assert forall|i: int| 0 <= i < total implies ended.contains(i) && (
        #[trigger] state.outcomes[i]) is Some by {
            assert(taken[i] == i);
        }
        lemma_all_known(state.outcomes);
    }
}

/// What a run over several repositories came to. Each is told by its last run.
#[derive(Debug, PartialEq, Eq, Default)]
pub struct FetchSummary {
    /// How many repositories were fetched.
    pub succeeded: usize,
    /// Those that were not, in the order of the list: several at once finish in any order.
    pub failed: Vec<String>,
}

impl FetchSummary {
    pub fn has_failure(&self) -> (failed: bool)
        ensures
            failed == (self.failed@.len() > 0),
    {
        self.failed.len() > 0
    }
}

/// The first numbers.
pub open spec fn indices(count: nat) -> Seq<int> {
    Seq::new(count, |i: int| i)
}

/// The repositories that run again: all but those that succeeded.
pub open spec fn retries_of(outcomes: Seq<Option<Outcome>>) -> Seq<int> {
    indices(outcomes.len()).filter(|i: int| outcomes[i] != Some(Outcome::Succeeded))
}

/// Where the second phase is.
#[verifier::ext_equal]
pub struct SerialState {
    pub targets: Seq<SiblingRepository>,
    /// The repositories that run again.
    pub retries: Seq<int>,
    /// How many of them did.
    pub position: nat,
    pub succeeded: nat,
    pub failed: Seq<Seq<char>>,
}

impl SerialState {
    /// Whether a run can be there.
    pub open spec fn valid(self) -> bool {
        &&& self.position <= self.retries.len() <= self.targets.len()
        &&& forall|i: int| 0 <= i < self.retries.len() ==> 0 <= #[trigger] self.retries[i]
            < self.targets.len()
        &&& self.succeeded + self.failed.len() + (self.retries.len() - self.position)
            == self.targets.len()
    }

    /// The start, after the first phase.
    pub open spec fn start(
        targets: Seq<SiblingRepository>,
        outcomes: Seq<Option<Outcome>>,
    ) -> SerialState {
        SerialState {
            targets,
            retries: retries_of(outcomes),
            position: 0,
            succeeded: (targets.len() - retries_of(outcomes).len()) as nat,
            failed: Seq::empty(),
        }
    }

    /// The repository that runs next.
    pub open spec fn current(self) -> SiblingRepository {
        self.targets[self.retries[self.position as int]]
    }

    /// Where the phase is after a run.
    pub open spec fn after_run(self, succeeded: bool) -> SerialState {
        if succeeded {
            SerialState { position: self.position + 1, succeeded: self.succeeded + 1, ..self }
        } else {
            SerialState {
                position: self.position + 1,
                failed: self.failed.push(self.current().name@),
                ..self
            }
        }
    }
}

/// Whether the second phase is where it is after a run ended.
pub open spec fn is_told(
    before: SerialState,
    after: SerialState,
    result: Result<(), Error>,
    messages: Messages,
    outcome: RunOutcome,
) -> bool {
    match outcome {
        RunOutcome::Succeeded => result is Ok && after == before.after_run(true),
        RunOutcome::Failed => result is Ok && after == before.after_run(false),
        RunOutcome::NotStarted(cause) => {
            &&& after == before
            &&& result matches Err(error)
            &&& is_start_failure(error, messages, before.current().name@, cause)
        },
    }
}

/// The phase in which what failed runs again, one at a time.
#[derive(Debug)]
pub struct SerialPhase<'a> {
    targets: Vec<&'a SiblingRepository>,
    retries: Vec<usize>,
    position: usize,
    summary: FetchSummary,
}

impl<'a> View for SerialPhase<'a> {
    type V = SerialState;

    closed spec fn view(&self) -> SerialState {
        SerialState {
            targets: values(self.targets@),
            retries: self.retries@.map_values(|i: usize| i as int),
            position: self.position as nat,
            succeeded: self.summary.succeeded as nat,
            failed: texts(self.summary.failed@),
        }
    }
}

impl<'a> SerialPhase<'a> {
    /// Starts the phase, with how each repository fared in the first.
    pub fn new(targets: Vec<&'a SiblingRepository>, outcomes: &Vec<Option<Outcome>>) -> (phase: Self)
        requires
            targets@.len() == outcomes@.len(),
        ensures
            phase@.valid(),
            phase@ == SerialState::start(values(targets@), outcomes@),
    {
        let ghost all = indices(outcomes@.len());
        let ghost again = |i: int| outcomes@[i] != Some(Outcome::Succeeded);
        let ghost number = |i: usize| i as int;
        let mut retries: Vec<usize> = Vec::new();
        let mut succeeded: usize = 0;
        let mut i: usize = 0;
        proof {
            lemma_filter_empty(all, again);
            assert(retries@.map_values(number) =~= Seq::empty());
        }
        while i < outcomes.len()
            invariant
                i <= outcomes@.len(),
                all == indices(outcomes@.len()),
                again == (|i: int| outcomes@[i] != Some(Outcome::Succeeded)),
                number == (|i: usize| i as int),
                retries@.map_values(number) == all.take(i as int).filter(again),
                retries@.len() + succeeded == i,
                forall|k: int|
                    0 <= k < retries@.len() ==> (#[trigger] retries@[k]) < outcomes@.len(),
            decreases outcomes@.len() - i,
        {
            proof {
                lemma_filter_step(all, again, i as int);
                assert(all[i as int] == i);
            }
            let ghost before = retries@;
            match outcomes[i] {
                Some(Outcome::Succeeded) => {
                    succeeded += 1;
                },
                _ => {
                    retries.push(i);
                    assert(retries@.map_values(number) =~= before.map_values(number).push(
                        i as int,
                    ));
                },
            }
            i += 1;
        }
        assert(all.take(i as int) =~= all);
        let summary = FetchSummary { succeeded, failed: Vec::new() };
        let phase = SerialPhase { targets, retries, position: 0, summary };
        proof {
            assert(phase@.retries =~= retries_of(outcomes@));
            assert(phase@.failed =~= Seq::empty());
        }
        phase
    }

    /// Says that what failed runs again, where anything did.
    pub fn announcement(&self, messages: Messages) -> (text: Option<String>)
        ensures
            match text {
                Some(text) => self@.retries.len() > 0 && text@
                    == messages.fetch().serial_fallback_text(self@.retries.len() as usize) + "\n"@,
                None => self@.retries.len() == 0,
            },
    {
        if self.retries.len() > 0 {
            Some(report_line(messages.fetch().serial_fallback(self.retries.len()).as_str()))
        } else {
            None
        }
    }

    /// The repository that runs next, and what announces it: a password may be asked for.
    pub fn next(&self) -> (next: Option<(usize, String)>)
        requires
            self@.valid(),
        ensures
            match next {
                Some((index, line)) => {
                    &&& self@.position < self@.retries.len()
                    &&& index == self@.retries[self@.position as int]
                    &&& line@ == progress_text(
                        self@.position as int,
                        self@.retries.len(),
                        self@.current().name@,
                    )
                },
                None => self@.position == self@.retries.len(),
            },
    {
        if self.position < self.retries.len() {
            let index: usize = self.retries[self.position];
            assert(self@.retries[self.position as int] == index);
            assert(self@.targets[index as int] == *self.targets@[index as int]);
            let target: &SiblingRepository = self.targets[index];
            Some((index, progress_line(self.position, self.retries.len(), target)))
        } else {
            None
        }
    }

    /// Notes how a repository fared. Where git did not start, nothing goes on.
    pub fn record(&mut self, messages: Messages, outcome: RunOutcome) -> (result: Result<(), Error>)
        requires
            old(self)@.valid(),
            old(self)@.position < old(self)@.retries.len(),
        ensures
            final(self)@.valid(),
            is_told(old(self)@, final(self)@, result, messages, outcome),
    {
        let total: usize = self.targets.len();
        let index: usize = self.retries[self.position];
        assert(self@.retries[self.position as int] == index);
        assert(self@.targets[index as int] == *self.targets@[index as int]);
        assert(self@.targets.len() == total);
        let target: &SiblingRepository = self.targets[index];
        match outcome {
            RunOutcome::Succeeded => {
                self.summary.succeeded = self.summary.succeeded + 1;
            },
            RunOutcome::Failed => {
                self.summary.failed.push(target.name.clone());
            },
            RunOutcome::NotStarted(cause) => {
                return Err(
                    Error::NotStarted {
                        explanation: messages.fetch().sibling_start_failed(target.name.as_str()),
                        cause,
                    },
                );
            },
        }
        self.position = self.position + 1;
        Ok(())
    }

    /// What the run has come to.
    pub fn summary(self) -> (summary: FetchSummary)
        ensures
            summary.succeeded == self@.succeeded,
            texts(summary.failed@) == self@.failed,
    {
        self.summary
    }
}

/// Where the second phase ends, where git succeeds on the repositories that `succeeds` says.
pub open spec fn end_of(state: SerialState, succeeds: spec_fn(int) -> bool) -> SerialState
    decreases state.retries.len() - state.position,
{
    if state.position < state.retries.len() {
        end_of(state.after_run(succeeds(state.retries[state.position as int])), succeeds)
    } else {
        state
    }
}

proof fn lemma_end_of(state: SerialState, succeeds: spec_fn(int) -> bool)
    requires
        state.valid(),
        state.failed == state.retries.take(state.position as int).filter(
            |i: int| !succeeds(i),
        ).map_values(|i: int| state.targets[i].name@),
    ensures
        ({
            let end = end_of(state, succeeds);
            &&& end.valid()
            &&& end.position == state.retries.len()
            &&& end.retries == state.retries
            &&& end.targets == state.targets
            &&& end.failed == state.retries.filter(|i: int| !succeeds(i)).map_values(
                |i: int| state.targets[i].name@,
            )
        }),
    decreases state.retries.len() - state.position,
{
    let fails = |i: int| !succeeds(i);
    let name = |i: int| state.targets[i].name@;
    if state.position < state.retries.len() {
        let p = state.position as int;
        lemma_filter_step(state.retries, fails, p);
        let before = state.retries.take(p).filter(fails);
        assert(before.push(state.retries[p]).map_values(name) =~= before.map_values(name).push(
            name(state.retries[p]),
        ));
        let next = state.after_run(succeeds(state.retries[p]));
        assert(next.failed =~= state.retries.take(p + 1).filter(fails).map_values(name));
        lemma_end_of(next, succeeds);
    } else {
        assert(state.retries.take(state.position as int) =~= state.retries);
    }
}

proof fn lemma_retries(outcomes: Seq<Option<Outcome>>, i: int)
    requires
        0 <= i <= outcomes.len(),
    ensures
        ({
            let some = indices(outcomes.len()).take(i).filter(
                |i: int| outcomes[i] != Some(Outcome::Succeeded),
            );
            some.len() <= i && forall|k: int|
                0 <= k < some.len() ==> 0 <= #[trigger] some[k] < i
        }),
    decreases i,
{
    let all = indices(outcomes.len());
    let again = |i: int| outcomes[i] != Some(Outcome::Succeeded);
    if i == 0 {
        lemma_filter_empty(all, again);
    } else {
        lemma_retries(outcomes, i - 1);
        lemma_filter_step(all, again, i - 1);
        assert(all[i - 1] == i - 1);
    }
}

/// Whatever fails, each repository is told once, by its last run: what failed again is told
/// by name, in the order of the list, and all others are counted.
pub proof fn law_each_repository_is_told_once(
    targets: Seq<SiblingRepository>,
    outcomes: Seq<Option<Outcome>>,
    succeeds: spec_fn(int) -> bool,
)
    requires
        targets.len() == outcomes.len(),
    ensures
        ({
            let end = end_of(SerialState::start(targets, outcomes), succeeds);
            &&& end.failed == retries_of(outcomes).filter(|i: int| !succeeds(i)).map_values(
                |i: int| targets[i].name@,
            )
            &&& end.succeeded + end.failed.len() == targets.len()
        }),
{
    let start = SerialState::start(targets, outcomes);
    lemma_retries(outcomes, outcomes.len() as int);
    assert(indices(outcomes.len()).take(outcomes.len() as int) =~= indices(outcomes.len()));
    lemma_filter_empty(start.retries, |i: int| !succeeds(i));
    assert(start.failed =~= start.retries.take(0).filter(|i: int| !succeeds(i)).map_values(
        |i: int| targets[i].name@,
    ));
    lemma_end_of(start, succeeds);
}

/// The line that sums a run up.
pub fn summary_line(messages: Messages, result: &FetchSummary) -> (line: String)
    ensures
        line@ == summary_text(messages, result.succeeded, texts(result.failed@)),
{
    summary(messages, result.succeeded, &result.failed)
}

/// What a notification says of a run: counts, and no names.
pub fn notification_body(messages: Messages, result: &FetchSummary) -> (text: String)
    ensures
        text@ == messages.common().run_summary_text(
            result.succeeded,
            result.failed@.len() as usize,
        ),
{
    messages.common().run_summary(result.succeeded, result.failed.len())
}

/// How the command ends: a run in which anything failed is an error.
pub fn conclude(messages: Messages, result: &FetchSummary) -> (end: Result<(), Error>)
    ensures
        match end {
            Ok(_) => result.failed@.len() == 0,
            Err(error) => result.failed@.len() > 0 && error.says(
                messages.fetch().partial_failure_text(),
            ),
        },
{
    if result.has_failure() {
        return Err(Error::Explained(owned(messages.fetch().partial_failure())));
    }
    Ok(())
}

/// What runs again is what did not succeed, whether it failed or has no outcome, and nothing
/// else: a repository that was fetched is not fetched twice.
pub proof fn law_what_did_not_succeed_runs_again(outcomes: Seq<Option<Outcome>>, i: int)
    requires
        0 <= i < outcomes.len(),
    ensures
        retries_of(outcomes).contains(i) <==> outcomes[i] != Some(Outcome::Succeeded),
        outcomes[i] == Some(Outcome::Failed) || outcomes[i] is None ==> retries_of(outcomes).contains(
            i,
        ),
{
    broadcast use vstd::seq_lib::group_filter_ensures;

    let all = indices(outcomes.len());
    let again = |i: int| outcomes[i] != Some(Outcome::Succeeded);
    assert(all[i] == i);
    if again(i) {
        assert(again(all[i]));
        assert(all.filter(again).contains(all[i]));
    }
    if retries_of(outcomes).contains(i) {
        let k = choose|k: int| 0 <= k < all.filter(again).len() && all.filter(again)[k] == i;
        assert(again(all.filter(again)[k]));
    }
}

/// A run that git ended well is one that succeeded, and any other one failed.
pub proof fn law_what_was_captured_succeeded(result: ParallelResult)
    ensures
        outcome_of(result) == Outcome::Succeeded <==> result is Captured,
        outcome_of(result) == Outcome::Failed <==> !(result is Captured),
{
}

/// All that git wrote for a repository is handed on, in one piece behind its place: first what it
/// wrote to the one stream, and then to the other. Of a run that failed the place is told alone.
pub proof fn law_a_block_holds_all_that_git_wrote(
    completed: nat,
    total: nat,
    name: Seq<char>,
    run: CapturedRun,
)
    ensures
        block_of(completed, total, name, ParallelResult::Captured(run)) == block_of(
            completed,
            total,
            name,
            ParallelResult::Failed,
        ) + run.stdout@ + run.stderr@,
        block_of(completed, total, name, ParallelResult::Failed) == encode_utf8(
            "["@ + crate::text::decimal(completed + 1) + "/"@ + crate::text::decimal(total) + "] "@
                + name + "\n"@,
        ),
{
    let head = block_of(completed, total, name, ParallelResult::Failed);
    assert(block_of(completed, total, name, ParallelResult::Captured(run)) =~= head + run.stdout@
        + run.stderr@);
}

/// There are as many workers as were asked for, but never more than repositories, and some
/// wherever there is anything to do.
pub proof fn law_no_worker_is_idle(jobs: usize, total: usize, workers: usize)
    requires
        call_ensures(worker_count, (jobs, total), workers),
    ensures
        workers <= jobs,
        workers <= total,
        workers == jobs || workers == total,
        jobs > 0 && total > 0 ==> workers > 0,
{
}

/// A run ends in an error if and only if a repository could not be fetched.
pub proof fn law_a_failure_is_told_in_the_end(
    messages: Messages,
    result: &FetchSummary,
    end: Result<(), Error>,
    line: String,
    body: String,
)
    requires
        call_ensures(conclude, (messages, result), end),
        call_ensures(summary_line, (messages, result), line),
        call_ensures(notification_body, (messages, result), body),
    ensures
        end is Err <==> result.failed@.len() > 0,
        result.failed@.len() == 0 ==> line@ == body@,
        body@.is_prefix_of(line@),
{
    assert(texts(result.failed@).len() == result.failed@.len());
}

/// An outcome of the second phase counts for the repository whose turn it was.
pub proof fn law_an_outcome_counts_for_its_repository(state: SerialState)
    requires
        state.valid(),
        state.position < state.retries.len(),
    ensures
        ({
            let target = state.targets[state.retries[state.position as int]];
            &&& state.after_run(true).succeeded == state.succeeded + 1
            &&& state.after_run(true).failed == state.failed
            &&& state.after_run(false).succeeded == state.succeeded
            &&& state.after_run(false).failed == state.failed.push(target.name@)
            &&& state.after_run(true).position == state.position + 1
            &&& state.after_run(false).position == state.position + 1
        }),
{
}

/// Git that did not start is no failure of a repository: nothing is written for it, no outcome
/// is noted and it is not counted, and the phase stops with what kept git from starting, unless
/// it had stopped before.
pub proof fn law_git_that_did_not_start_stops_the_phase(
    before: PhaseState,
    after: PhaseState,
    block: Option<Vec<u8>>,
    messages: Messages,
    index: int,
    total: nat,
    name: Seq<char>,
    cause: StartFailure,
)
    requires
        is_recorded(
            before,
            after,
            block,
            messages,
            index,
            total,
            name,
            ParallelResult::NotStarted(cause),
        ),
    ensures
        block is None,
        after.outcomes == before.outcomes,
        after.completed == before.completed,
        after.next == before.next,
        after.claimed() is None,
        before.failure is Some ==> after.failure == before.failure,
        before.failure is None ==> (after.failure matches Some(Error::NotStarted { cause: kept, .. })
            && kept == cause),
{
}

/// A run that ended is noted for its repository and for no other, is counted, and stops nothing:
/// one that failed is left for the second phase.
pub proof fn law_a_run_is_noted_for_its_repository(
    before: PhaseState,
    after: PhaseState,
    block: Option<Vec<u8>>,
    messages: Messages,
    index: int,
    total: nat,
    name: Seq<char>,
    result: ParallelResult,
    other: int,
)
    requires
        !(result is NotStarted),
        0 <= index < before.outcomes.len(),
        0 <= other < before.outcomes.len(),
        is_recorded(before, after, block, messages, index, total, name, result),
    ensures
        block is Some,
        after.completed == before.completed + 1,
        after.failure == before.failure,
        after.outcomes[index] == Some(Outcome::Succeeded) <==> result is Captured,
        after.outcomes[index] == Some(Outcome::Failed) <==> result is Failed,
        other != index ==> after.outcomes[other] == before.outcomes[other],
{
}

/// In the second phase git that did not start ends the command, and nothing is counted; a run
/// that failed does not end it.
pub proof fn law_a_failed_run_does_not_end_the_command(
    before: SerialState,
    after: SerialState,
    result: Result<(), Error>,
    messages: Messages,
    outcome: RunOutcome,
)
    requires
        is_told(before, after, result, messages, outcome),
    ensures
        result is Err <==> outcome is NotStarted,
        outcome is NotStarted ==> after == before,
        outcome is Failed ==> after.failed.len() == before.failed.len() + 1 && after.succeeded
            == before.succeeded,
        outcome is Succeeded ==> after.failed == before.failed && after.succeeded
            == before.succeeded + 1,
{
}

/// The first phase ends with all outcomes, or with what stopped it.
pub proof fn law_a_phase_ends_with_what_stopped_it(
    phase: ParallelPhase,
    end: Result<Vec<Option<Outcome>>, Error>,
)
    requires
        call_ensures(ParallelPhase::finish, (phase,), end),
    ensures
        end is Err <==> phase@.failure is Some,
        end matches Err(error) ==> Some(error) == phase@.failure,
        end matches Ok(outcomes) ==> outcomes@ == phase@.outcomes,
{
}

/// That something runs again is said if and only if anything does, and what runs next is the next
/// of those, by its place among them.
pub proof fn law_what_runs_again_is_announced<'a>(
    phase: &SerialPhase<'a>,
    messages: Messages,
    text: Option<String>,
    next: Option<(usize, String)>,
)
    requires
        phase@.valid(),
        call_ensures(SerialPhase::announcement, (phase, messages), text),
        call_ensures(SerialPhase::next, (phase,), next),
    ensures
        text is Some <==> phase@.retries.len() > 0,
        next is None <==> phase@.position == phase@.retries.len(),
        next matches Some((index, line)) ==> {
            &&& index == phase@.retries[phase@.position as int]
            &&& line@ == "["@ + crate::text::decimal(phase@.position + 1) + "/"@
                + crate::text::decimal(phase@.retries.len()) + "] "@
                + phase@.targets[index as int].name@
        },
{
}

} // verus!
