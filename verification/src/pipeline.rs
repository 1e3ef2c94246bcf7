//! A run of the mirror: fetch the catalogue, split it against the mirror,
//! launch one task for each missing track at a measured pace, wait for all
//! of them, and account for every track. The run decides; its caller
//! performs what it asks for and reports back.

use crate::error::{CatalogError, Failure};
use crate::http::{Reply, ReplyView};
use crate::mirror::{
    partition, skipped, to_download, Partition, SkipReason, Skipped, SkippedView, Snapshot,
    SnapshotView,
};
use crate::song::{Song, SongView};
use crate::task::Outcome;
use crate::tx::{catalog_of_reply, TXPlayList};
use vstd::prelude::*;

verus! {

/// The pace of launches: no task is launched sooner than `spacing`
/// milliseconds after the one before it.
#[derive(Debug, Clone, Copy, PartialEq, Eq)]
pub struct RateGate {
    /// The least time between two launches, in milliseconds.
    pub spacing: u64,
    /// When the last task was launched, on the caller's clock, in
    /// milliseconds; `None` before the first launch.
    pub last: Option<u64>,
}

impl RateGate {
    /// How long a launch has to wait at the time `now`: nothing before the
    /// first launch and once `spacing` has passed since the last one, else
    /// what is left of `spacing`. A clock that has gone back waits `spacing`.
    pub open spec fn wait(self, now: u64) -> u64 {
        match self.last {
            None => 0,
            Some(last) => if now < last {
                self.spacing
            } else if now - last >= self.spacing {
                0
            } else {
                (self.spacing - (now - last)) as u64
            },
        }
    }

    /// The pace after a launch at the time `now`.
    pub open spec fn passed(self, now: u64) -> RateGate {
        RateGate { spacing: self.spacing, last: Some(now) }
    }

    /// The pace before the first launch.
    pub fn new(spacing: u64) -> (gate: RateGate)
        ensures
            gate == (RateGate { spacing, last: None }),
    {
        RateGate { spacing, last: None }
    }

    /// How many milliseconds a launch has to wait at the time `now`.
    pub fn wait_for(&self, now: u64) -> (millis: u64)
        ensures
            millis == self.wait(now),
    {
        match self.last {
            None => 0,
            Some(last) => {
                if now < last {
                    self.spacing
                } else if now - last >= self.spacing {
                    0
                } else {
                    self.spacing - (now - last)
                }
            },
        }
    }

    /// Records a launch at the time `now`.
    pub fn pass(&self, now: u64) -> (gate: RateGate)
        ensures
            gate == self.passed(now),
    {
        RateGate { spacing: self.spacing, last: Some(now) }
    }
}

/// Where a run stands.
#[derive(Debug, Clone, Copy, PartialEq, Eq, Structural)]
pub enum Phase {
    FetchingCatalog,
    Partitioning,
    Dispatching,
    Draining,
    Done,
}

/// What a run asks of its caller.
#[derive(Debug, Clone, Copy, PartialEq, Eq, Structural)]
pub enum RunAction {
    /// Send the request for the playlist and report the answer.
    FetchCatalog,
    /// List the content directory, read the ignore file, and report both.
    ReadMirror,
    /// Report the time.
    Poll,
    /// Report the time after this many milliseconds, or sooner the end of a
    /// task.
    Wait { millis: u64 },
    /// Start the task for this work item, then report the time.
    Launch { item: usize },
    /// Wait for a task to end and report how it ended.
    Drain,
    /// The run is over: every work item has its outcome.
    Report,
    /// The run is over: there is no catalogue.
    Fail(CatalogError),
    /// Nothing: the event does not belong to the phase of the run.
    Ignore,
}

/// What the caller reports to a run.
#[derive(Debug, PartialEq, Eq)]
pub enum RunEvent {
    /// The answer to the request for the playlist.
    Catalog(Reply),
    /// What the mirror holds now.
    Mirror(Snapshot),
    /// The time on the caller's clock, in milliseconds.
    Tick { now: u64 },
    /// The task for this work item has ended in this way.
    Finished { item: usize, outcome: Outcome },
}

/// The mathematical value of a [`RunEvent`].
pub enum RunEventView {
    Catalog(ReplyView),
    Mirror(SnapshotView),
    Tick { now: u64 },
    Finished { item: usize, outcome: Outcome },
}

impl View for RunEvent {
    type V = RunEventView;

    open spec fn view(&self) -> RunEventView {
        match self {
            RunEvent::Catalog(reply) => RunEventView::Catalog(reply@),
            RunEvent::Mirror(snapshot) => RunEventView::Mirror(snapshot@),
            RunEvent::Tick { now } => RunEventView::Tick { now: *now },
            RunEvent::Finished { item, outcome } => RunEventView::Finished {
                item: *item,
                outcome: *outcome,
            },
        }
    }
}

/// One run.
#[derive(Debug, PartialEq, Eq)]
pub struct Run {
    play_id: i64,
    phase: Phase,
    catalog: Vec<Song>,
    work: Vec<Song>,
    skipped: Vec<Skipped>,
    outcomes: Vec<Option<Outcome>>,
    launched: usize,
    gate: RateGate,
    error: Option<CatalogError>,
}

/// The mathematical value of a [`Run`].
pub struct RunView {
    /// The playlist that is mirrored.
    pub play_id: int,
    pub phase: Phase,
    /// The catalogue, once it is fetched.
    pub catalog: Seq<SongView>,
    /// The work items: the tracks to download, in catalogue order.
    pub work: Seq<SongView>,
    /// The tracks that are not downloaded, in catalogue order.
    pub skipped: Seq<SkippedView>,
    /// For each work item, how its task ended, once it has.
    pub outcomes: Seq<Option<Outcome>>,
    /// How many work items have been launched: the first `launched`.
    pub launched: nat,
    pub gate: RateGate,
    /// Why the run has no catalogue, if it has none.
    pub error: Option<CatalogError>,
}

/// Whether every work item has its outcome.
pub open spec fn all_done(outcomes: Seq<Option<Outcome>>) -> bool {
    forall|i: int| 0 <= i < outcomes.len() ==> (#[trigger] outcomes[i]) is Some
}

impl RunView {
    /// What holds of every run: each work item has one place for its
    /// outcome, only launched items have ended, and the phase says how far
    /// the launches have come.
    pub open spec fn wf(self) -> bool {
        &&& self.outcomes.len() == self.work.len()
        &&& self.launched <= self.work.len()
        &&& forall|i: int|
            self.launched <= i < self.outcomes.len() ==> (#[trigger] self.outcomes[i]) is None
        &&& self.error is Some ==> self.phase == Phase::Done
        &&& match self.phase {
            Phase::FetchingCatalog => self.catalog.len() == 0 && self.work.len() == 0
                && self.skipped.len() == 0,
            Phase::Partitioning => self.work.len() == 0 && self.skipped.len() == 0,
            Phase::Dispatching => self.launched < self.work.len(),
            Phase::Draining => self.launched == self.work.len() && !all_done(self.outcomes),
            Phase::Done => self.error is Some || (self.launched == self.work.len() && all_done(
                self.outcomes,
            )),
        }
        &&& self.error is Some ==> self.work.len() == 0 && self.skipped.len() == 0
    }
}

/// A run at its start.
pub open spec fn run_start(play_id: int, spacing: u64) -> RunView {
    RunView {
        play_id,
        phase: Phase::FetchingCatalog,
        catalog: Seq::empty(),
        work: Seq::empty(),
        skipped: Seq::empty(),
        outcomes: Seq::empty(),
        launched: 0,
        gate: RateGate { spacing, last: None },
        error: None,
    }
}

/// What a run becomes on an event, and what it asks for next.
///
/// Without a catalogue the run ends at once. With nothing to download it
/// ends after the split. Work items are launched in their order, each no
/// sooner than the pace allows. The end of a task is recorded for its item
/// alone, once; the run is over when all items are launched and have ended.
/// An event that does not belong to the phase changes nothing.
pub open spec fn run_step(run: RunView, event: RunEventView) -> (RunView, RunAction) {
    match (run.phase, event) {
        (Phase::FetchingCatalog, RunEventView::Catalog(reply)) => match catalog_of_reply(reply) {
            Ok(catalog) => (
                RunView { phase: Phase::Partitioning, catalog, ..run },
                RunAction::ReadMirror,
            ),
            Err(why) => (
                RunView { phase: Phase::Done, error: Some(why), ..run },
                RunAction::Fail(why),
            ),
        },
        (Phase::Partitioning, RunEventView::Mirror(snapshot)) => {
            let work = to_download(run.catalog, snapshot);
            let next = RunView {
                work,
                skipped: skipped(run.catalog, snapshot),
                outcomes: Seq::new(work.len(), |i: int| None),
                launched: 0,
                phase: if work.len() == 0 {
                    Phase::Done
                } else {
                    Phase::Dispatching
                },
                ..run
            };
            (
                next,
                if work.len() == 0 {
                    RunAction::Report
                } else {
                    RunAction::Poll
                },
            )
        },
        (Phase::Dispatching, RunEventView::Tick { now }) => if run.gate.wait(now) > 0 {
            (run, RunAction::Wait { millis: run.gate.wait(now) })
        } else {
            (
                RunView {
                    launched: run.launched + 1,
                    gate: run.gate.passed(now),
                    phase: if run.launched + 1 == run.work.len() {
                        Phase::Draining
                    } else {
                        Phase::Dispatching
                    },
                    ..run
                },
                RunAction::Launch { item: run.launched as usize },
            )
        },
        (Phase::Draining, RunEventView::Tick { now }) => (run, RunAction::Drain),
        (Phase::Dispatching, RunEventView::Finished { item, outcome }) => record(
            run,
            item as int,
            outcome,
        ),
        (Phase::Draining, RunEventView::Finished { item, outcome }) => record(
            run,
            item as int,
            outcome,
        ),
        _ => (run, RunAction::Ignore),
    }
}

/// Records the end of a task: for a launched item that has not ended yet,
/// its outcome takes its place and no other changes.
pub open spec fn record(run: RunView, item: int, outcome: Outcome) -> (RunView, RunAction) {
    if 0 <= item < run.launched && item < run.outcomes.len() && run.outcomes[item] is None {
        let outcomes = run.outcomes.update(item, Some(outcome));
        if run.phase == Phase::Draining {
            if all_done(outcomes) {
                (RunView { outcomes, phase: Phase::Done, ..run }, RunAction::Report)
            } else {
                (RunView { outcomes, ..run }, RunAction::Drain)
            }
        } else {
            (RunView { outcomes, ..run }, RunAction::Poll)
        }
    } else {
        (run, RunAction::Ignore)
    }
}

impl View for Run {
    type V = RunView;

    closed spec fn view(&self) -> RunView {
        RunView {
            play_id: self.play_id as int,
            phase: self.phase,
            catalog: self.catalog.deep_view(),
            work: self.work.deep_view(),
            skipped: self.skipped.deep_view(),
            outcomes: self.outcomes@,
            launched: self.launched as nat,
            gate: self.gate,
            error: self.error,
        }
    }
}

fn every_item_done(outcomes: &Vec<Option<Outcome>>) -> (done: bool)
    ensures
        done == all_done(outcomes@),
{
    let mut i: usize = 0;
    while i < outcomes.len()
        invariant
            i <= outcomes.len(),
            forall|j: int| 0 <= j < i ==> (#[trigger] outcomes@[j]) is Some,
        decreases outcomes.len() - i,
    {
        if outcomes[i].is_none() {
            return false;
        }
        i += 1;
    }
    true
}

impl Run {
    #[verifier::type_invariant]
    spec fn inv(self) -> bool {
        self@.wf()
    }

    /// A run for the playlist `play_id` that launches its tasks no less
    /// than `spacing` milliseconds apart, and the first thing it asks for.
    pub fn new(play_id: i64, spacing: u64) -> (begun: (Run, RunAction))
        ensures
            begun.0@ == run_start(play_id as int, spacing),
            begun.0@.wf(),
            begun.1 == RunAction::FetchCatalog,
    {
        let run = Run {
            play_id,
            phase: Phase::FetchingCatalog,
            catalog: Vec::new(),
            work: Vec::new(),
            skipped: Vec::new(),
            outcomes: Vec::new(),
            launched: 0,
            gate: RateGate::new(spacing),
            error: None,
        };
        assert(run.work.deep_view() =~= Seq::<SongView>::empty());
        assert(run.skipped.deep_view() =~= Seq::<SkippedView>::empty());
        (run, RunAction::FetchCatalog)
    }

    /// The playlist that is mirrored.
    pub fn play_id(&self) -> (id: i64)
        ensures
            id == self@.play_id,
    {
        self.play_id
    }

    /// Where the run stands.
    pub fn phase(&self) -> (phase: Phase)
        ensures
            phase == self@.phase,
            self@.wf(),
    {
        proof {
            use_type_invariant(self);
        }
        self.phase
    }

    /// The work items, in catalogue order.
    pub fn work(&self) -> (work: &Vec<Song>)
        ensures
            work.deep_view() == self@.work,
    {
        &self.work
    }

    /// The tracks that are not downloaded, in catalogue order.
    pub fn skipped(&self) -> (skipped: &Vec<Skipped>)
        ensures
            skipped.deep_view() == self@.skipped,
    {
        &self.skipped
    }

    /// How the task of each work item ended, as far as it has.
    pub fn outcomes(&self) -> (outcomes: &Vec<Option<Outcome>>)
        ensures
            outcomes@ == self@.outcomes,
    {
        &self.outcomes
    }

    /// Why the run has no catalogue, if it has none.
    pub fn error(&self) -> (error: Option<CatalogError>)
        ensures
            error == self@.error,
    {
        self.error
    }

    /// Takes an event and says what to do next.
    pub fn step(self, event: RunEvent) -> (next: (Run, RunAction))
        ensures
            (next.0@, next.1) == run_step(self@, event@),
            next.0@.wf(),
    {
        proof {
            use_type_invariant(&self);
        }
        match (self.phase, event) {
            (Phase::FetchingCatalog, RunEvent::Catalog(reply)) => {
                match TXPlayList::new(self.play_id, &reply) {
                    Ok(list) => (
                        Run { phase: Phase::Partitioning, catalog: list.song_list, ..self },
                        RunAction::ReadMirror,
                    ),
                    Err(why) => (
                        Run { phase: Phase::Done, error: Some(why), ..self },
                        RunAction::Fail(why),
                    ),
                }
            },
            (Phase::Partitioning, RunEvent::Mirror(snapshot)) => {
                let Partition { to_download, skipped } = partition(&self.catalog, &snapshot);
                let mut outcomes: Vec<Option<Outcome>> = Vec::new();
                let mut i: usize = 0;
                while i < to_download.len()
                    invariant
                        i <= to_download.len(),
                        outcomes.len() == i,
                        forall|j: int| 0 <= j < i ==> (#[trigger] outcomes@[j]) is None,
                    decreases to_download.len() - i,
                {
                    outcomes.push(None);
                    i += 1;
                }
                assert(outcomes@ == Seq::new(
                    to_download.deep_view().len(),
                    |i: int| None::<Outcome>,
                ));
                if to_download.len() == 0 {
                    (
                        Run {
                            phase: Phase::Done,
                            work: to_download,
                            skipped,
                            outcomes,
                            launched: 0,
                            ..self
                        },
                        RunAction::Report,
                    )
                } else {
                    (
                        Run {
                            phase: Phase::Dispatching,
                            work: to_download,
                            skipped,
                            outcomes,
                            launched: 0,
                            ..self
                        },
                        RunAction::Poll,
                    )
                }
            },
            (Phase::Dispatching, RunEvent::Tick { now }) => {
                let millis = self.gate.wait_for(now);
                if millis > 0 {
                    (self, RunAction::Wait { millis })
                } else {
                    let item = self.launched;
                    assert(self.work.deep_view().len() == self.work.len());
                    assert(self.outcomes@[item as int] is None);
                    let phase = if item + 1 == self.work.len() {
                        Phase::Draining
                    } else {
                        Phase::Dispatching
                    };
                    (
                        Run { phase, launched: item + 1, gate: self.gate.pass(now), ..self },
                        RunAction::Launch { item },
                    )
                }
            },
            (Phase::Draining, RunEvent::Tick { now }) => (self, RunAction::Drain),
            (Phase::Dispatching, RunEvent::Finished { item, outcome }) => self.recorded(
                item,
                outcome,
            ),
            (Phase::Draining, RunEvent::Finished { item, outcome }) => self.recorded(item, outcome),
            _ => (self, RunAction::Ignore),
        }
    }

    fn recorded(self, item: usize, outcome: Outcome) -> (next: (Run, RunAction))
        requires
            self@.phase == Phase::Dispatching || self@.phase == Phase::Draining,
        ensures
            (next.0@, next.1) == record(self@, item as int, outcome),
            next.0@.wf(),
    {
        proof {
            use_type_invariant(&self);
        }
        if item < self.launched && self.outcomes[item].is_none() {
            assert(self.work.deep_view().len() == self.work.len());
            let draining = match self.phase {
                Phase::Draining => true,
                _ => false,
            };
            let Run { play_id, phase, catalog, work, skipped, outcomes, launched, gate, error } =
                self;
            let mut outcomes = outcomes;
            outcomes.set(item, Some(outcome));
            // While launches are due, the next item to launch has not ended.
            assert(!draining ==> outcomes@[launched as int] is None);
            let over = draining && every_item_done(&outcomes);
            let run = Run {
                play_id,
                phase: if over {
                    Phase::Done
                } else {
                    phase
                },
                catalog,
                work,
                skipped,
                outcomes,
                launched,
                gate,
                error,
            };
            if over {
                (run, RunAction::Report)
            } else if draining {
                (run, RunAction::Drain)
            } else {
                (run, RunAction::Poll)
            }
        } else {
            (self, RunAction::Ignore)
        }
    }
}

/// How many items of `s` meet `pred`.
pub open spec fn count<A>(s: Seq<A>, pred: spec_fn(A) -> bool) -> nat {
    s.filter(pred).len()
}

/// Nothing is counted where there is nothing.
pub proof fn lemma_count_empty<A>(pred: spec_fn(A) -> bool)
    ensures
        count(Seq::<A>::empty(), pred) == 0,
{
    reveal(Seq::filter);
}

/// An item that is added is counted if it meets the test.
pub proof fn lemma_count_push<A>(s: Seq<A>, item: A, pred: spec_fn(A) -> bool)
    ensures
        count(s.push(item), pred) == count(s, pred) + if pred(item) {
            1nat
        } else {
            0nat
        },
{
    crate::mirror::lemma_filter_push(s, item, pred);
}

/// An item that is replaced is counted no longer, and the one in its place
/// is counted if it meets the test.
pub proof fn lemma_count_update<A>(s: Seq<A>, i: int, item: A, pred: spec_fn(A) -> bool)
    requires
        0 <= i < s.len(),
    ensures
        count(s.update(i, item), pred) + (if pred(s[i]) {
            1nat
        } else {
            0nat
        }) == count(s, pred) + if pred(item) {
            1nat
        } else {
            0nat
        },
    decreases s.len(),
{
    let front = s.drop_last();
    assert(s == front.push(s.last()));
    lemma_count_push(front, s.last(), pred);
    if i == s.len() - 1 {
        assert(s.update(i, item) == front.push(item));
        lemma_count_push(front, item, pred);
    } else {
        lemma_count_update(front, i, item, pred);
        assert(s.update(i, item) == front.update(i, item).push(s.last()));
        lemma_count_push(front.update(i, item), s.last(), pred);
    }
}

/// The test for a place whose task has written its file.
pub open spec fn is_written() -> spec_fn(Option<Outcome>) -> bool {
    |place: Option<Outcome>|
        place == Some(Outcome::Written) || (place matches Some(
            Outcome::WrittenWithoutLyrics(_),
        ))
}

/// The test for a place whose task has written its file without lyrics.
pub open spec fn is_bare() -> spec_fn(Option<Outcome>) -> bool {
    |place: Option<Outcome>| place matches Some(Outcome::WrittenWithoutLyrics(_))
}

/// The test for a place whose task has failed.
pub open spec fn is_failed() -> spec_fn(Option<Outcome>) -> bool {
    |place: Option<Outcome>| place matches Some(Outcome::Failed(_))
}

/// The test for a place whose task has not ended.
pub open spec fn is_pending() -> spec_fn(Option<Outcome>) -> bool {
    |place: Option<Outcome>| place is None
}

/// The test for a track that is skipped for this reason.
pub open spec fn has_reason(reason: SkipReason) -> spec_fn(SkippedView) -> bool {
    |skipped: SkippedView| skipped.reason == reason
}

/// A work item that failed, and why.
#[derive(Debug, Clone, Copy, PartialEq, Eq, Structural)]
pub struct ItemFailure {
    pub item: usize,
    pub why: Failure,
}

/// The work items that failed, in their order, each with its reason.
pub open spec fn failures_of(outcomes: Seq<Option<Outcome>>) -> Seq<ItemFailure>
    decreases outcomes.len(),
{
    if outcomes.len() == 0 {
        Seq::empty()
    } else {
        let before = failures_of(outcomes.drop_last());
        match outcomes.last() {
            Some(Outcome::Failed(why)) => before.push(
                ItemFailure { item: (outcomes.len() - 1) as usize, why },
            ),
            _ => before,
        }
    }
}

/// The account of a run.
#[derive(Debug, PartialEq, Eq)]
pub struct Report {
    /// How many tasks were launched.
    pub attempted: usize,
    /// How many tasks wrote their file.
    pub succeeded: usize,
    /// How many of those wrote it without lyrics.
    pub without_lyrics: usize,
    /// How many tasks failed.
    pub failed: usize,
    /// How many work items have no outcome yet.
    pub pending: usize,
    /// How many tracks were skipped because their file is there.
    pub skipped_existing: usize,
    /// How many tracks were skipped because the ignore list names them.
    pub skipped_ignored: usize,
    /// The work items that failed, each with its reason.
    pub failures: Vec<ItemFailure>,
}

/// What a [`Report`] says of a run.
pub open spec fn reports(report: Report, run: RunView) -> bool {
    &&& report.attempted == run.launched
    &&& report.succeeded == count(run.outcomes, is_written())
    &&& report.without_lyrics == count(run.outcomes, is_bare())
    &&& report.failed == count(run.outcomes, is_failed())
    &&& report.pending == count(run.outcomes, is_pending())
    &&& report.skipped_existing == count(run.skipped, has_reason(SkipReason::Exists))
    &&& report.skipped_ignored == count(run.skipped, has_reason(SkipReason::Ignored))
    &&& report.failures@ == failures_of(run.outcomes)
}

impl Run {
    /// The account of the run as it stands.
    pub fn report(&self) -> (report: Report)
        ensures
            reports(report, self@),
            report.succeeded + report.failed + report.pending == self@.work.len(),
            report.skipped_existing + report.skipped_ignored == self@.skipped.len(),
    {
        proof {
            use_type_invariant(self);
        }
        let mut succeeded: usize = 0;
        let mut without_lyrics: usize = 0;
        let mut failed: usize = 0;
        let mut pending: usize = 0;
        let mut failures: Vec<ItemFailure> = Vec::new();
        let mut i: usize = 0;
        proof {
            assert(self.outcomes@.take(0) == Seq::<Option<Outcome>>::empty());
            lemma_count_empty(is_written());
            lemma_count_empty(is_bare());
            lemma_count_empty(is_failed());
            lemma_count_empty(is_pending());
        }
        while i < self.outcomes.len()
            invariant
                i <= self.outcomes.len(),
                succeeded == count(self.outcomes@.take(i as int), is_written()),
                without_lyrics == count(self.outcomes@.take(i as int), is_bare()),
                failed == count(self.outcomes@.take(i as int), is_failed()),
                pending == count(self.outcomes@.take(i as int), is_pending()),
                failures@ == failures_of(self.outcomes@.take(i as int)),
                succeeded + failed + pending == i,
                without_lyrics <= succeeded,
            decreases self.outcomes.len() - i,
        {
            let place = self.outcomes[i];
            proof {
                let seen = self.outcomes@.take(i as int);
                assert(self.outcomes@.take(i + 1) == seen.push(place));
                assert(self.outcomes@.take(i + 1).drop_last() == seen);
                lemma_count_push(seen, place, is_written());
                lemma_count_push(seen, place, is_bare());
                lemma_count_push(seen, place, is_failed());
                lemma_count_push(seen, place, is_pending());
            }
            match place {
                None => {
                    pending += 1;
                },
                Some(Outcome::Written) => {
                    succeeded += 1;
                },
                Some(Outcome::WrittenWithoutLyrics(_)) => {
                    succeeded += 1;
                    without_lyrics += 1;
                },
                Some(Outcome::Failed(why)) => {
                    failed += 1;
                    failures.push(ItemFailure { item: i, why });
                },
            }
            i += 1;
        }
        assert(self.outcomes@.take(self.outcomes.len() as int) == self.outcomes@);
        let mut skipped_existing: usize = 0;
        let mut skipped_ignored: usize = 0;
        let mut k: usize = 0;
        let ghost all = self.skipped.deep_view();
        proof {
            assert(all.take(0) == Seq::<SkippedView>::empty());
            lemma_count_empty(has_reason(SkipReason::Exists));
            lemma_count_empty(has_reason(SkipReason::Ignored));
        }
        while k < self.skipped.len()
            invariant
                k <= self.skipped.len(),
                all == self.skipped.deep_view(),
                skipped_existing == count(all.take(k as int), has_reason(SkipReason::Exists)),
                skipped_ignored == count(all.take(k as int), has_reason(SkipReason::Ignored)),
                skipped_existing + skipped_ignored == k,
            decreases self.skipped.len() - k,
        {
            proof {
                let seen = all.take(k as int);
                assert(all.take(k + 1) == seen.push(all[k as int]));
                lemma_count_push(seen, all[k as int], has_reason(SkipReason::Exists));
                lemma_count_push(seen, all[k as int], has_reason(SkipReason::Ignored));
            }
            match self.skipped[k].reason {
                SkipReason::Exists => {
                    skipped_existing += 1;
                },
                SkipReason::Ignored => {
                    skipped_ignored += 1;
                },
            }
            k += 1;
        }
        assert(all.take(self.skipped.len() as int) == all);
        Report {
            attempted: self.launched,
            succeeded,
            without_lyrics,
            failed,
            pending,
            skipped_existing,
            skipped_ignored,
            failures,
        }
    }
}

/// Every place is counted once: as written, as failed, or as pending.
pub proof fn lemma_counts_add_up(outcomes: Seq<Option<Outcome>>)
    ensures
        count(outcomes, is_written()) + count(outcomes, is_failed()) + count(
            outcomes,
            is_pending(),
        ) == outcomes.len(),
        count(outcomes, is_bare()) <= count(outcomes, is_written()),
        all_done(outcomes) <==> count(outcomes, is_pending()) == 0,
        failures_of(outcomes).len() == count(outcomes, is_failed()),
    decreases outcomes.len(),
{
    if outcomes.len() == 0 {
        assert(outcomes == Seq::<Option<Outcome>>::empty());
        lemma_count_empty(is_written());
        lemma_count_empty(is_bare());
        lemma_count_empty(is_failed());
        lemma_count_empty(is_pending());
    } else {
        let front = outcomes.drop_last();
        let last = outcomes.last();
        lemma_counts_add_up(front);
        assert(outcomes == front.push(last));
        lemma_count_push(front, last, is_written());
        lemma_count_push(front, last, is_bare());
        lemma_count_push(front, last, is_failed());
        lemma_count_push(front, last, is_pending());
        assert(all_done(outcomes) <==> all_done(front) && last is Some) by {
            if all_done(front) && last is Some {
                assert forall|i: int| 0 <= i < outcomes.len() implies (#[trigger] outcomes[i])
                    is Some by {
                    if i < front.len() {
                        assert(front[i] is Some);
                    }
                }
            }
            if all_done(outcomes) {
                assert forall|i: int| 0 <= i < front.len() implies (#[trigger] front[i])
                    is Some by {
                    assert(outcomes[i] is Some);
                }
                assert(outcomes[outcomes.len() - 1] is Some);
            }
        }
    }
}

/// A step leaves a run well formed.
pub proof fn lemma_step_keeps_wf(run: RunView, event: RunEventView)
    requires
        run.wf(),
    ensures
        run_step(run, event).0.wf(),
{
    let next = run_step(run, event).0;
    if run.phase == Phase::Dispatching {
        // The next item to launch has not ended, before the step or after it.
        assert(run.outcomes[run.launched as int] is None);
        if event is Finished && next != run {
            assert(next.outcomes[run.launched as int] is None);
        }
    }
}

/// One task that fails holds up nothing. Its failure is recorded for its
/// own work item; the outcome of every other item, the work items, the
/// launches made and the pace of those to come stay as they were; the tally
/// of failures grows by one and the tally of successes stays. A task that
/// ends well afterwards is recorded as if nothing had failed.
pub proof fn lemma_failure_is_isolated(
    run: RunView,
    item: usize,
    why: Failure,
    other: usize,
    outcome: Outcome,
)
    requires
        run.wf(),
        run.phase == Phase::Dispatching || run.phase == Phase::Draining,
        item < run.launched,
        run.outcomes[item as int] is None,
        other < run.launched,
        other != item,
        run.outcomes[other as int] is None,
    ensures
        ({
            let failed = run_step(
                run,
                RunEventView::Finished { item, outcome: Outcome::Failed(why) },
            ).0;
            let after = run_step(failed, RunEventView::Finished { item: other, outcome }).0;
            &&& failed.outcomes[item as int] == Some(Outcome::Failed(why))
            &&& forall|j: int|
                0 <= j < run.outcomes.len() && j != item ==> #[trigger] failed.outcomes[j]
                    == run.outcomes[j]
            &&& failed.work == run.work
            &&& failed.skipped == run.skipped
            &&& failed.launched == run.launched
            &&& failed.gate == run.gate
            &&& failed.phase == run.phase
            &&& count(failed.outcomes, is_failed()) == count(run.outcomes, is_failed()) + 1
            &&& count(failed.outcomes, is_written()) == count(run.outcomes, is_written())
            &&& after.outcomes[other as int] == Some(outcome)
            &&& after.outcomes[item as int] == Some(Outcome::Failed(why))
        }),
{
    let failed = run_step(run, RunEventView::Finished { item, outcome: Outcome::Failed(why) }).0;
    // The run is not over: the other task has yet to end.
    assert(failed.outcomes[other as int] is None);
    lemma_count_update(run.outcomes, item as int, Some(Outcome::Failed(why)), is_failed());
    lemma_count_update(run.outcomes, item as int, Some(Outcome::Failed(why)), is_written());
}

/// Launches do not look at outcomes: two runs that differ in nothing but
/// how their tasks have ended are told the same at the same time.
pub proof fn lemma_launches_ignore_outcomes(one: RunView, two: RunView, now: u64)
    requires
        one.phase == Phase::Dispatching,
        two == (RunView { outcomes: two.outcomes, ..one }),
    ensures
        run_step(one, RunEventView::Tick { now }).1 == run_step(two, RunEventView::Tick { now }).1,
{
}

/// Work items are launched one by one in their order, on a report of the
/// time, and no sooner than the pace allows: not before `spacing`
/// milliseconds have passed since the launch before.
pub proof fn lemma_launches_are_ordered_and_spaced(run: RunView, event: RunEventView, item: usize)
    requires
        run.wf(),
        run.work.len() <= usize::MAX,
        run_step(run, event).1 == (RunAction::Launch { item }),
    ensures
        run.phase == Phase::Dispatching,
        item == run.launched,
        item < run.work.len(),
        run_step(run, event).0.launched == run.launched + 1,
        run_step(run, event).0.outcomes == run.outcomes,
        event matches RunEventView::Tick { now } && run.gate.wait(now) == 0 && run_step(
            run,
            event,
        ).0.gate.last == Some(now) && (run.gate.last matches Some(last) ==> run.gate.spacing == 0
            || now - last >= run.gate.spacing),
{
}

/// While the spacing has not passed nothing is launched: the run asks to wait for
/// what is left of the spacing.
pub proof fn lemma_closed_gate_waits(run: RunView, now: u64)
    requires
        run.phase == Phase::Dispatching,
        run.gate.wait(now) > 0,
    ensures
        run_step(run, RunEventView::Tick { now }) == (
            run,
            RunAction::Wait { millis: run.gate.wait(now) },
        ),
        run.gate.last matches Some(last) && (now >= last ==> now - last < run.gate.spacing
            && run.gate.wait(now) == run.gate.spacing - (now - last)),
{
}

/// What is recorded stays: a step changes neither an outcome that is there,
/// nor, once the catalogue is split, the work items and the skipped tracks.
pub proof fn lemma_records_are_kept(run: RunView, event: RunEventView)
    requires
        run.wf(),
    ensures
        forall|i: int|
            0 <= i < run.outcomes.len() && run.outcomes[i] is Some ==> i < run_step(
                run,
                event,
            ).0.outcomes.len() && #[trigger] run_step(run, event).0.outcomes[i] == run.outcomes[i],
        run.phase != Phase::Partitioning ==> run_step(run, event).0.work == run.work && run_step(
            run,
            event,
        ).0.skipped == run.skipped,
        run.phase != Phase::FetchingCatalog ==> run_step(run, event).0.catalog == run.catalog,
        run_step(run, event).0.launched >= run.launched,
{
}

/// The split accounts for the whole catalogue: every track is a work item
/// or skipped, as the mirror says, and with nothing to download the run is
/// over.
pub proof fn lemma_split_accounts_for_catalog(run: RunView, snapshot: SnapshotView)
    requires
        run.wf(),
        run.phase == Phase::Partitioning,
    ensures
        ({
            let (next, action) = run_step(run, RunEventView::Mirror(snapshot));
            &&& next.work == to_download(run.catalog, snapshot)
            &&& next.skipped == skipped(run.catalog, snapshot)
            &&& next.work.len() + next.skipped.len() == run.catalog.len()
            &&& count(next.skipped, has_reason(SkipReason::Exists)) + count(
                next.skipped,
                has_reason(SkipReason::Ignored),
            ) == next.skipped.len()
            &&& next.work.len() == 0 <==> next.phase == Phase::Done
            &&& next.work.len() == 0 <==> action == RunAction::Report
            &&& next.work.len() > 0 <==> next.phase == Phase::Dispatching
        }),
{
    crate::mirror::lemma_partition_is_total(run.catalog, snapshot);
    lemma_reasons_add_up(skipped(run.catalog, snapshot));
}

/// Every skipped track is counted once: as existing or as ignored.
pub proof fn lemma_reasons_add_up(skipped: Seq<SkippedView>)
    ensures
        count(skipped, has_reason(SkipReason::Exists)) + count(
            skipped,
            has_reason(SkipReason::Ignored),
        ) == skipped.len(),
    decreases skipped.len(),
{
    if skipped.len() == 0 {
        assert(skipped == Seq::<SkippedView>::empty());
        lemma_count_empty(has_reason(SkipReason::Exists));
        lemma_count_empty(has_reason(SkipReason::Ignored));
    } else {
        let front = skipped.drop_last();
        lemma_reasons_add_up(front);
        assert(skipped == front.push(skipped.last()));
        lemma_count_push(front, skipped.last(), has_reason(SkipReason::Exists));
        lemma_count_push(front, skipped.last(), has_reason(SkipReason::Ignored));
    }
}

/// A run that is over with a catalogue has launched every work item, and
/// every one of them has ended: written or failed, none dropped. A run
/// without a catalogue has launched nothing.
pub proof fn lemma_finished_run_accounts_for_all(run: RunView)
    requires
        run.wf(),
        run.phase == Phase::Done,
    ensures
        run.error is None ==> run.launched == run.work.len() && count(run.outcomes, is_written())
            + count(run.outcomes, is_failed()) == run.work.len() && count(
            run.outcomes,
            is_pending(),
        ) == 0,
        run.error is Some ==> run.work.len() == 0 && run.launched == 0,
{
    lemma_counts_add_up(run.outcomes);
}

/// The run is over only through the last task that ends, or with nothing
/// to do: a step that ends it finds no catalogue, or nothing to download,
/// or records the outcome that was the last one missing.
pub proof fn lemma_run_ends_when_drained(run: RunView, event: RunEventView)
    requires
        run.wf(),
        run.phase != Phase::Done,
        run_step(run, event).0.phase == Phase::Done,
    ensures
        ({
            let (next, action) = run_step(run, event);
            ||| run.phase == Phase::FetchingCatalog && next.error is Some && action
                == RunAction::Fail(next.error->0)
            ||| run.phase == Phase::Partitioning && next.work.len() == 0 && action
                == RunAction::Report
            ||| run.phase == Phase::Draining && event is Finished && all_done(next.outcomes)
                && action == RunAction::Report
        }),
{
}

} // verus!
