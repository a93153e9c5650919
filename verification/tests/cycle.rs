use jenkins_exporter::cycle::run_cycle;
use jenkins_exporter::history::{BuildRecord, JobHistory};
use jenkins_exporter::reducer::WindowMetrics;
use jenkins_exporter::request::FetchError;
use std::cell::RefCell;

fn uniform(label: &str, n: usize) -> JobHistory {
    let mut builds = Vec::new();
    for i in 0..n {
        builds.push(BuildRecord {
            id: format!("{}", i),
            number: i,
            result: Some(label.to_string()),
            timestamp: i,
            duration: 1,
        });
    }
    JobHistory { builds }
}

fn names(list: &[&str]) -> Vec<String> {
    list.iter().map(|s| s.to_string()).collect()
}

#[test]
fn one_failed_and_one_successful_job() {
    let jobs = names(&["alpha", "beta"]);
    let snapshot = run_cycle(
        &jobs,
        |job: &String| {
            if job == "alpha" {
                Err(FetchError::Transport("connection refused".to_string()))
            } else {
                Ok(uniform("SUCCESS", 10))
            }
        },
        10,
    );
    assert_eq!(snapshot.requests_attempted(), 2);
    assert_eq!(snapshot.requests_failed(), 1);
    let alpha = snapshot.lookup(&"alpha".to_string()).unwrap();
    assert_eq!(alpha.metrics, WindowMetrics { total: 0, success: 0, failure: 0, unstable: 0 });
    let beta = snapshot.lookup(&"beta".to_string()).unwrap();
    assert_eq!(beta.metrics, WindowMetrics { total: 10, success: 10, failure: 0, unstable: 0 });
    assert!(alpha.reqtime_ms >= -1);
    assert!(beta.reqtime_ms >= -1);
}

#[test]
fn every_job_has_an_entry_when_all_requests_fail() {
    let jobs = names(&["a", "b", "c", "d"]);
    let snapshot = run_cycle(&jobs, |_job: &String| Err(FetchError::Status(503)), 5);
    assert_eq!(snapshot.requests_attempted(), 4);
    assert_eq!(snapshot.requests_failed(), 4);
    for (i, job) in jobs.iter().enumerate() {
        assert_eq!(snapshot.job_at(i), job);
        assert_eq!(snapshot.gauges_at(i).metrics, WindowMetrics::zero());
        assert!(snapshot.lookup(job).is_some());
    }
    assert_eq!(snapshot.lookup(&"e".to_string()), None);
}

#[test]
fn every_job_is_asked_once_and_in_order() {
    let jobs = names(&["one", "two", "three"]);
    let asked: RefCell<Vec<String>> = RefCell::new(Vec::new());
    let snapshot = run_cycle(
        &jobs,
        |job: &String| {
            asked.borrow_mut().push(job.clone());
            Ok(uniform("FAILURE", 3))
        },
        3,
    );
    assert_eq!(*asked.borrow(), jobs);
    assert_eq!(snapshot.requests_attempted(), 3);
    assert_eq!(snapshot.requests_failed(), 0);
    for i in 0..3 {
        assert_eq!(
            snapshot.gauges_at(i).metrics,
            WindowMetrics { total: 3, success: 0, failure: 3, unstable: 0 }
        );
    }
}

#[test]
fn no_jobs_give_an_empty_snapshot() {
    let jobs: Vec<String> = Vec::new();
    let snapshot = run_cycle(&jobs, |_job: &String| Ok(uniform("SUCCESS", 1)), 1);
    assert_eq!(snapshot.requests_attempted(), 0);
    assert_eq!(snapshot.requests_failed(), 0);
}

#[test]
fn short_history_is_not_a_failure() {
    let jobs = names(&["young"]);
    let snapshot = run_cycle(&jobs, |_job: &String| Ok(uniform("SUCCESS", 3)), 10);
    assert_eq!(snapshot.requests_attempted(), 1);
    assert_eq!(snapshot.requests_failed(), 0);
    assert_eq!(snapshot.gauges_at(0).metrics, WindowMetrics::zero());
}

#[test]
fn request_time_is_measured_in_milliseconds() {
    let jobs = names(&["slow"]);
    let snapshot = run_cycle(
        &jobs,
        |_job: &String| {
            let begun = std::time::Instant::now();
            while begun.elapsed() < std::time::Duration::from_millis(30) {}
            Ok(uniform("SUCCESS", 1))
        },
        1,
    );
    let ms = snapshot.gauges_at(0).reqtime_ms;
    assert!(ms >= 30 || ms == -1);
    assert!(ms < 20_000);
}
