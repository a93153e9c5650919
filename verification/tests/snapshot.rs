use jenkins_exporter::history::{BuildRecord, JobHistory};
use jenkins_exporter::naming::Metric;
use jenkins_exporter::reducer::WindowMetrics;
use jenkins_exporter::request::FetchError;
use jenkins_exporter::snapshot::{
    job_gauges, latency_ms, summary_line, CycleSnapshot, JobGauges, CLOCK_FAILURE,
};

fn labeled(results: &[&str]) -> JobHistory {
    let mut builds = Vec::new();
    for (i, r) in results.iter().enumerate() {
        builds.push(BuildRecord {
            id: format!("{}", i),
            number: i,
            result: Some(r.to_string()),
            timestamp: i,
            duration: 1,
        });
    }
    JobHistory { builds }
}

#[test]
fn latency_is_the_elapsed_milliseconds() {
    assert_eq!(latency_ms(Some(0)), 0);
    assert_eq!(latency_ms(Some(1234)), 1234);
    assert_eq!(latency_ms(Some(i64::MAX as u128)), i64::MAX);
}

#[test]
fn latency_of_a_failed_clock_is_the_sentinel() {
    assert_eq!(CLOCK_FAILURE, -1);
    assert_eq!(latency_ms(None), -1);
}

#[test]
fn latency_beyond_the_gauge_range_is_clamped() {
    assert_eq!(latency_ms(Some(i64::MAX as u128 + 1)), i64::MAX);
    assert_eq!(latency_ms(Some(u128::MAX)), i64::MAX);
}

#[test]
fn gauges_of_a_successful_request() {
    let h = labeled(&["SUCCESS", "FAILURE", "SUCCESS"]);
    let g = job_gauges(&Ok(h), Some(15), 2);
    assert_eq!(
        g,
        JobGauges {
            metrics: WindowMetrics { total: 2, success: 1, failure: 1, unstable: 0 },
            reqtime_ms: 15,
        }
    );
}

#[test]
fn gauges_of_a_failed_request_are_zero_counts() {
    let g = job_gauges(&Err(FetchError::Transport("refused".to_string())), Some(3), 2);
    assert_eq!(g, JobGauges { metrics: WindowMetrics::zero(), reqtime_ms: 3 });
    let g = job_gauges(&Err(FetchError::Status(503)), None, 2);
    assert_eq!(g, JobGauges { metrics: WindowMetrics::zero(), reqtime_ms: -1 });
}

#[test]
fn gauge_values_by_metric() {
    let g = JobGauges {
        metrics: WindowMetrics { total: 10, success: 6, failure: 3, unstable: 1 },
        reqtime_ms: 250,
    };
    assert_eq!(g.value(Metric::Total), 10);
    assert_eq!(g.value(Metric::Success), 6);
    assert_eq!(g.value(Metric::Failure), 3);
    assert_eq!(g.value(Metric::Unstable), 1);
    assert_eq!(g.value(Metric::RequestTime), 250);
    assert_eq!(JobGauges::zero().value(Metric::Total), 0);
    assert_eq!(JobGauges::zero().value(Metric::RequestTime), 0);
}

#[test]
fn gauge_value_of_a_huge_count_is_clamped() {
    let g = JobGauges {
        metrics: WindowMetrics { total: usize::MAX, success: 0, failure: 0, unstable: 0 },
        reqtime_ms: 0,
    };
    let expected = if (usize::MAX as u128) > (i64::MAX as u128) { i64::MAX } else { usize::MAX as i64 };
    assert_eq!(g.value(Metric::Total), expected);
}

#[test]
fn new_snapshot_is_empty() {
    let s = CycleSnapshot::new();
    assert_eq!(s.requests_attempted(), 0);
    assert_eq!(s.requests_failed(), 0);
    assert_eq!(s.lookup(&"alpha".to_string()), None);
}

#[test]
fn record_appends_and_counts() {
    let mut s = CycleSnapshot::new();
    let g = s.record(&"alpha".to_string(), &Ok(labeled(&["SUCCESS", "SUCCESS"])), Some(5), 2);
    assert_eq!(g.metrics, WindowMetrics { total: 2, success: 2, failure: 0, unstable: 0 });
    assert_eq!(s.requests_attempted(), 1);
    assert_eq!(s.requests_failed(), 0);
    let g = s.record(&"beta".to_string(), &Err(FetchError::Status(500)), None, 2);
    assert_eq!(g, JobGauges { metrics: WindowMetrics::zero(), reqtime_ms: -1 });
    assert_eq!(s.requests_attempted(), 2);
    assert_eq!(s.requests_failed(), 1);
    assert_eq!(s.job_at(0), "alpha");
    assert_eq!(s.job_at(1), "beta");
    assert_eq!(s.gauges_at(0).reqtime_ms, 5);
    assert_eq!(s.gauges_at(1).reqtime_ms, -1);
    assert_eq!(s.lookup(&"alpha".to_string()).map(|g| g.metrics.success), Some(2));
    assert_eq!(s.lookup(&"beta".to_string()), Some(JobGauges { metrics: WindowMetrics::zero(), reqtime_ms: -1 }));
    assert_eq!(s.lookup(&"gamma".to_string()), None);
}

#[test]
fn lookup_gives_the_last_entry_of_a_job() {
    let mut s = CycleSnapshot::new();
    s.record(&"alpha".to_string(), &Ok(labeled(&["SUCCESS"])), Some(1), 1);
    s.record(&"alpha".to_string(), &Ok(labeled(&["FAILURE"])), Some(2), 1);
    let g = s.lookup(&"alpha".to_string());
    assert_eq!(
        g,
        Some(JobGauges {
            metrics: WindowMetrics { total: 1, success: 0, failure: 1, unstable: 0 },
            reqtime_ms: 2,
        })
    );
    assert_eq!(s.requests_attempted(), 2);
}

#[test]
fn summary_line_reports_the_counts() {
    let m = WindowMetrics { total: 10, success: 7, failure: 2, unstable: 1 };
    assert_eq!(summary_line("my-job", m), "my-job: ok 7/ nok 2/ unstable 1/ total 10");
    assert_eq!(
        summary_line("", WindowMetrics::zero()),
        ": ok 0/ nok 0/ unstable 0/ total 0"
    );
}
