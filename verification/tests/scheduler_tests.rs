use mate_bench::scheduler::JobScheduler;

#[test]
fn never_more_active_sessions_than_workers() {
    let workers = 2;
    let jobs = 5;
    let mut s = JobScheduler::new(workers, jobs);
    assert!(s.try_start());
    assert!(s.try_start());
    assert!(s.running <= workers);
    // Both slots taken: the third job must wait.
    assert!(!s.try_start());
    assert_eq!(s.running, 2);
    s.finish_job();
    assert!(s.try_start());
    assert!(s.running <= workers);
    assert!(!s.try_start());
}

#[test]
fn every_job_is_reported_exactly_once() {
    let workers = 2;
    let jobs = 5;
    let mut s = JobScheduler::new(workers, jobs);
    let mut reported = 0;
    while !s.all_reported(jobs) {
        while s.try_start() {
            assert!(s.running <= workers);
        }
        s.finish_job();
        reported += 1;
        assert_eq!(s.reported, reported);
    }
    assert_eq!(s.reported, jobs);
    assert_eq!(reported, jobs);
    assert_eq!(s.pending, 0);
    assert_eq!(s.running, 0);
}

#[test]
fn run_without_jobs_is_done_from_the_start() {
    let s = JobScheduler::new(4, 0);
    assert!(s.all_reported(0));
}
