use playlist_mirror::error::{CatalogError, Failure, ResolveError};
use playlist_mirror::http::Reply;
use playlist_mirror::mirror::{SkipReason, Skipped, Snapshot};
use playlist_mirror::pipeline::{ItemFailure, Phase, RateGate, Run, RunAction, RunEvent};
use playlist_mirror::song::Song;
use playlist_mirror::task::Outcome;

fn song(name: &str, id: &str) -> Song {
    Song::new(name.to_string(), id.to_string())
}

fn catalog_reply(names: &[(&str, &str)]) -> Reply {
    let entries: Vec<String> = names
        .iter()
        .map(|(name, id)| format!(r#"{{"name":"{}","mid":"{}"}}"#, name, id))
        .collect();
    Reply::Answered {
        status: 200,
        body: format!(r#"{{"cdlist":[{{"songlist":[{}]}}]}}"#, entries.join(",")),
    }
}

fn snapshot(files: &[&str], ignored: &[&str]) -> Snapshot {
    Snapshot {
        files: files.iter().map(|s| s.to_string()).collect(),
        ignored: ignored.iter().map(|s| s.to_string()).collect(),
    }
}

fn dispatching(names: &[(&str, &str)], spacing: u64) -> Run {
    let (run, _) = Run::new(42, spacing);
    let (run, _) = run.step(RunEvent::Catalog(catalog_reply(names)));
    let (run, action) = run.step(RunEvent::Mirror(snapshot(&[], &[])));
    assert_eq!(action, RunAction::Poll);
    run
}

const FAILED: Outcome = Outcome::Failed(Failure::ResolveFailed(ResolveError::Status));

#[test]
fn rate_gate_is_open_before_the_first_launch() {
    let gate = RateGate::new(2000);
    assert_eq!(gate, RateGate { spacing: 2000, last: None });
    assert_eq!(gate.wait_for(0), 0);
    assert_eq!(gate.wait_for(u64::MAX), 0);
}

#[test]
fn rate_gate_waits_for_the_rest_of_the_spacing() {
    let gate = RateGate::new(2000).pass(10_000);
    assert_eq!(gate, RateGate { spacing: 2000, last: Some(10_000) });
    assert_eq!(gate.wait_for(10_000), 2000);
    assert_eq!(gate.wait_for(10_001), 1999);
    assert_eq!(gate.wait_for(11_999), 1);
    assert_eq!(gate.wait_for(12_000), 0);
    assert_eq!(gate.wait_for(99_000), 0);
}

#[test]
fn rate_gate_waits_in_full_when_the_clock_went_back() {
    let gate = RateGate::new(2000).pass(10_000);
    assert_eq!(gate.wait_for(9_999), 2000);
    assert_eq!(gate.wait_for(0), 2000);
}

#[test]
fn rate_gate_without_spacing_never_waits() {
    let gate = RateGate::new(0).pass(500);
    assert_eq!(gate.wait_for(500), 0);
    assert_eq!(gate.wait_for(0), 0);
}

#[test]
fn rate_gate_at_the_end_of_the_clock() {
    let gate = RateGate::new(u64::MAX).pass(u64::MAX);
    assert_eq!(gate.wait_for(u64::MAX), u64::MAX);
    let gate = RateGate::new(u64::MAX).pass(0);
    assert_eq!(gate.wait_for(u64::MAX), 0);
    assert_eq!(gate.wait_for(u64::MAX - 1), 1);
}

#[test]
fn run_starts_by_fetching_the_catalogue() {
    let (run, action) = Run::new(42, 2000);
    assert_eq!(action, RunAction::FetchCatalog);
    assert_eq!(run.phase(), Phase::FetchingCatalog);
    assert_eq!(run.play_id(), 42);
    assert!(run.work().is_empty());
    assert!(run.skipped().is_empty());
    assert_eq!(run.error(), None);
}

#[test]
fn run_without_catalogue_is_over() {
    let (run, _) = Run::new(42, 2000);
    let (run, action) = run.step(RunEvent::Catalog(Reply::Failed));
    assert_eq!(action, RunAction::Fail(CatalogError::Transport));
    assert_eq!(run.phase(), Phase::Done);
    assert_eq!(run.error(), Some(CatalogError::Transport));
    let report = run.report();
    assert_eq!(report.attempted, 0);
    assert_eq!(report.succeeded + report.failed + report.pending, 0);
    let (run, action) = run.step(RunEvent::Tick { now: 5 });
    assert_eq!(action, RunAction::Ignore);
    assert_eq!(run.phase(), Phase::Done);
}

#[test]
fn run_with_a_malformed_catalogue_is_over() {
    let (run, _) = Run::new(42, 2000);
    let reply = Reply::Answered { status: 200, body: r#"{"cdlist":[]}"#.to_string() };
    let (run, action) = run.step(RunEvent::Catalog(reply));
    assert_eq!(action, RunAction::Fail(CatalogError::Malformed));
    assert_eq!(run.phase(), Phase::Done);
}

#[test]
fn run_scenario_nothing_to_download() {
    let (run, _) = Run::new(42, 2000);
    let (run, action) =
        run.step(RunEvent::Catalog(catalog_reply(&[("Song A", "id1"), ("Song B", "id2")])));
    assert_eq!(action, RunAction::ReadMirror);
    assert_eq!(run.phase(), Phase::Partitioning);
    let (run, action) = run.step(RunEvent::Mirror(snapshot(&["Song A.mp3"], &["Song B"])));
    assert_eq!(action, RunAction::Report);
    assert_eq!(run.phase(), Phase::Done);
    assert!(run.work().is_empty());
    assert_eq!(
        run.skipped(),
        &vec![
            Skipped { song: song("Song A", "id1"), reason: SkipReason::Exists },
            Skipped { song: song("Song B", "id2"), reason: SkipReason::Ignored },
        ]
    );
    let report = run.report();
    assert_eq!(report.attempted, 0);
    assert_eq!(report.succeeded, 0);
    assert_eq!(report.failed, 0);
    assert_eq!(report.pending, 0);
    assert_eq!(report.skipped_existing, 1);
    assert_eq!(report.skipped_ignored, 1);
    assert!(report.failures.is_empty());
}

#[test]
fn run_launches_in_catalogue_order_at_the_pace() {
    let run = dispatching(&[("a", "1"), ("b", "2"), ("c", "3")], 2000);
    assert_eq!(run.phase(), Phase::Dispatching);
    assert_eq!(run.work(), &vec![song("a", "1"), song("b", "2"), song("c", "3")]);
    assert_eq!(run.outcomes(), &vec![None, None, None]);

    let (run, action) = run.step(RunEvent::Tick { now: 1000 });
    assert_eq!(action, RunAction::Launch { item: 0 });
    let (run, action) = run.step(RunEvent::Tick { now: 1000 });
    assert_eq!(action, RunAction::Wait { millis: 2000 });
    let (run, action) = run.step(RunEvent::Tick { now: 2500 });
    assert_eq!(action, RunAction::Wait { millis: 500 });
    let (run, action) = run.step(RunEvent::Tick { now: 3000 });
    assert_eq!(action, RunAction::Launch { item: 1 });
    assert_eq!(run.phase(), Phase::Dispatching);
    let (run, action) = run.step(RunEvent::Tick { now: 4999 });
    assert_eq!(action, RunAction::Wait { millis: 1 });
    let (run, action) = run.step(RunEvent::Tick { now: 9000 });
    assert_eq!(action, RunAction::Launch { item: 2 });
    assert_eq!(run.phase(), Phase::Draining);
    let (run, action) = run.step(RunEvent::Tick { now: 9000 });
    assert_eq!(action, RunAction::Drain);
    assert_eq!(run.report().attempted, 3);
}

#[test]
fn run_keeps_launching_after_a_failure() {
    let run = dispatching(&[("a", "1"), ("b", "2")], 2000);
    let (run, _) = run.step(RunEvent::Tick { now: 0 });
    let (run, action) = run.step(RunEvent::Finished { item: 0, outcome: FAILED });
    assert_eq!(action, RunAction::Poll);
    assert_eq!(run.phase(), Phase::Dispatching);
    let (run, action) = run.step(RunEvent::Tick { now: 1000 });
    assert_eq!(action, RunAction::Wait { millis: 1000 });
    let (run, action) = run.step(RunEvent::Tick { now: 2000 });
    assert_eq!(action, RunAction::Launch { item: 1 });
    let (run, action) = run.step(RunEvent::Finished { item: 1, outcome: Outcome::Written });
    assert_eq!(action, RunAction::Report);
    assert_eq!(run.phase(), Phase::Done);
    assert_eq!(run.outcomes(), &vec![Some(FAILED), Some(Outcome::Written)]);
    let report = run.report();
    assert_eq!(report.attempted, 2);
    assert_eq!(report.succeeded, 1);
    assert_eq!(report.failed, 1);
    assert_eq!(report.pending, 0);
    assert_eq!(
        report.failures,
        vec![ItemFailure { item: 0, why: Failure::ResolveFailed(ResolveError::Status) }]
    );
}

#[test]
fn run_scenario_null_url_does_not_stop_the_batch() {
    let run = dispatching(&[("Song A", "id1"), ("Song B", "id2"), ("Song C", "id3")], 0);
    let (run, _) = run.step(RunEvent::Tick { now: 0 });
    let (run, _) = run.step(RunEvent::Tick { now: 0 });
    let (run, action) = run.step(RunEvent::Tick { now: 0 });
    assert_eq!(action, RunAction::Launch { item: 2 });
    let no_url = Outcome::Failed(Failure::ResolveFailed(ResolveError::NoUrl));
    let (run, action) = run.step(RunEvent::Finished { item: 2, outcome: no_url });
    assert_eq!(action, RunAction::Drain);
    let (run, action) = run.step(RunEvent::Finished { item: 0, outcome: Outcome::Written });
    assert_eq!(action, RunAction::Drain);
    let (run, action) = run.step(RunEvent::Finished { item: 1, outcome: Outcome::Written });
    assert_eq!(action, RunAction::Report);
    let report = run.report();
    assert_eq!(report.succeeded, 2);
    assert_eq!(report.failed, 1);
    assert_eq!(
        report.failures,
        vec![ItemFailure { item: 2, why: Failure::ResolveFailed(ResolveError::NoUrl) }]
    );
}

#[test]
fn run_records_each_outcome_once() {
    let run = dispatching(&[("a", "1"), ("b", "2")], 0);
    let (run, _) = run.step(RunEvent::Tick { now: 0 });
    let (run, action) = run.step(RunEvent::Finished { item: 0, outcome: Outcome::Written });
    assert_eq!(action, RunAction::Poll);
    let (run, action) = run.step(RunEvent::Finished { item: 0, outcome: FAILED });
    assert_eq!(action, RunAction::Ignore);
    assert_eq!(run.outcomes(), &vec![Some(Outcome::Written), None]);
}

#[test]
fn run_ignores_the_end_of_a_task_it_has_not_launched() {
    let run = dispatching(&[("a", "1"), ("b", "2")], 0);
    let (run, action) = run.step(RunEvent::Finished { item: 0, outcome: Outcome::Written });
    assert_eq!(action, RunAction::Ignore);
    let (run, _) = run.step(RunEvent::Tick { now: 0 });
    let (run, action) = run.step(RunEvent::Finished { item: 1, outcome: Outcome::Written });
    assert_eq!(action, RunAction::Ignore);
    let (run, action) = run.step(RunEvent::Finished { item: 7, outcome: Outcome::Written });
    assert_eq!(action, RunAction::Ignore);
    assert_eq!(run.outcomes(), &vec![None, None]);
}

#[test]
fn run_ignores_events_of_another_phase() {
    let (run, _) = Run::new(42, 2000);
    let (run, action) = run.step(RunEvent::Tick { now: 0 });
    assert_eq!(action, RunAction::Ignore);
    let (run, action) = run.step(RunEvent::Mirror(snapshot(&[], &[])));
    assert_eq!(action, RunAction::Ignore);
    let (run, action) = run.step(RunEvent::Finished { item: 0, outcome: Outcome::Written });
    assert_eq!(action, RunAction::Ignore);
    assert_eq!(run.phase(), Phase::FetchingCatalog);
    let run = dispatching(&[("a", "1")], 0);
    let (run, action) = run.step(RunEvent::Catalog(Reply::Failed));
    assert_eq!(action, RunAction::Ignore);
    assert_eq!(run.phase(), Phase::Dispatching);
}

#[test]
fn run_report_counts_what_is_pending() {
    let run = dispatching(&[("a", "1"), ("b", "2"), ("c", "3")], 0);
    let (run, _) = run.step(RunEvent::Tick { now: 0 });
    let (run, _) = run.step(RunEvent::Tick { now: 0 });
    let (run, _) = run.step(RunEvent::Finished {
        item: 1,
        outcome: Outcome::WrittenWithoutLyrics(playlist_mirror::error::LyricError::NoLyric),
    });
    let report = run.report();
    assert_eq!(report.attempted, 2);
    assert_eq!(report.succeeded, 1);
    assert_eq!(report.without_lyrics, 1);
    assert_eq!(report.failed, 0);
    assert_eq!(report.pending, 2);
}

#[test]
fn run_splits_the_catalogue_against_the_mirror() {
    let (run, _) = Run::new(42, 2000);
    let (run, _) = run.step(RunEvent::Catalog(catalog_reply(&[
        ("a", "1"),
        ("b", "2"),
        ("c", "3"),
        ("d", "4"),
    ])));
    let (run, action) = run.step(RunEvent::Mirror(snapshot(&["b.mp3"], &["d", "b"])));
    assert_eq!(action, RunAction::Poll);
    assert_eq!(run.work(), &vec![song("a", "1"), song("c", "3")]);
    assert_eq!(
        run.skipped(),
        &vec![
            Skipped { song: song("b", "2"), reason: SkipReason::Exists },
            Skipped { song: song("d", "4"), reason: SkipReason::Ignored },
        ]
    );
    let report = run.report();
    assert_eq!(report.skipped_existing, 1);
    assert_eq!(report.skipped_ignored, 1);
    assert_eq!(report.pending, 2);
}
