use mate_bench::job::{
    EngineEvent, JobResult, completed_result, failed_result, handle_event, is_complete,
};
use mate_bench::stats::{InfoToken, SolveStats, VerdictKind};

fn run_events(events: Vec<EngineEvent>) -> SolveStats {
    let mut stats = SolveStats::new();
    for e in &events {
        handle_event(&mut stats, e);
    }
    stats
}

#[test]
fn scenario_three_positions_mate_nomate_mate() {
    let stats = run_events(vec![
        EngineEvent::Info(vec![InfoToken::Pv, InfoToken::Nodes(10)]),
        EngineEvent::Checkmate(VerdictKind::Mate),
        EngineEvent::Info(vec![InfoToken::Pv, InfoToken::Nodes(5)]),
        EngineEvent::Checkmate(VerdictKind::NoMate),
        EngineEvent::Info(vec![InfoToken::Pv, InfoToken::Nodes(20)]),
        EngineEvent::Checkmate(VerdictKind::Mate),
    ]);
    assert_eq!(stats.num_sfens, 3);
    assert_eq!(stats.num_mate, 2);
    assert_eq!(stats.num_nomate, 1);
    assert_eq!(stats.num_errors, 0);
    assert_eq!(stats.nodes, 35);
    assert_eq!(stats.error_or_nomate_indices, vec![1]);
}

#[test]
fn other_engine_output_is_ignored() {
    let stats = run_events(vec![
        EngineEvent::Other,
        EngineEvent::Checkmate(VerdictKind::Mate),
        EngineEvent::Other,
    ]);
    assert_eq!(stats.num_sfens, 1);
    assert_eq!(stats.num_mate, 1);
    assert_eq!(stats.nodes, 0);
}

#[test]
fn empty_file_is_complete_immediately() {
    let stats = SolveStats::new();
    assert!(is_complete(&stats, 0));
}

#[test]
fn job_completes_when_every_verdict_arrived() {
    let mut stats = SolveStats::new();
    let expected = 2;
    assert!(!is_complete(&stats, expected));
    handle_event(&mut stats, &EngineEvent::Checkmate(VerdictKind::Mate));
    assert!(!is_complete(&stats, expected));
    handle_event(&mut stats, &EngineEvent::Checkmate(VerdictKind::NoMate));
    assert!(is_complete(&stats, expected));
}

#[test]
fn failed_job_reports_all_zero_statistics() {
    let r = failed_result(String::from("bad.sfen"));
    assert_eq!(r.sfen_path, "bad.sfen");
    assert_eq!(r.stats.num_sfens, 0);
    assert_eq!(r.stats.num_mate, 0);
    assert_eq!(r.stats.num_nomate, 0);
    assert_eq!(r.stats.num_errors, 0);
    assert_eq!(r.stats.nodes, 0);
    assert_eq!(r.stats.elapsed, 0);
    assert!(r.stats.error_or_nomate_indices.is_empty());
}

#[test]
fn failed_job_leaves_other_jobs_untouched() {
    let good = run_events(vec![
        EngineEvent::Info(vec![InfoToken::Pv, InfoToken::Nodes(4)]),
        EngineEvent::Checkmate(VerdictKind::Mate),
    ]);
    let bad: JobResult = failed_result(String::from("bad.sfen"));
    let good_result: JobResult = completed_result(String::from("good.sfen"), good, 50);
    assert_eq!(bad.stats.num_sfens, 0);
    assert_eq!(good_result.stats.num_sfens, 1);
    assert_eq!(good_result.stats.nodes, 4);
    assert_eq!(good_result.stats.elapsed, 50);
}

#[test]
fn completed_result_freezes_statistics_with_elapsed() {
    let mut stats = SolveStats::new();
    handle_event(&mut stats, &EngineEvent::Checkmate(VerdictKind::Error));
    let r = completed_result(String::from("a.sfen"), stats, 777);
    assert_eq!(r.sfen_path, "a.sfen");
    assert_eq!(r.stats.elapsed, 777);
    assert_eq!(r.stats.num_errors, 1);
    assert_eq!(r.stats.error_or_nomate_indices, vec![0]);
}
