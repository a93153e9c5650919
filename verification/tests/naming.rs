use jenkins_exporter::naming::{metric_help, metric_name, sanitize, Metric};

#[test]
fn hyphens_become_underscores() {
    assert_eq!(sanitize("vpp-verify-master-debian10-x86_64"), "vpp_verify_master_debian10_x86_64");
    assert_eq!(sanitize("plain"), "plain");
    assert_eq!(sanitize(""), "");
    assert_eq!(sanitize("---"), "___");
    assert_eq!(sanitize("a-b_c.d"), "a_b_c.d");
}

#[test]
fn sanitizing_twice_changes_nothing_more() {
    let once = sanitize("a-b-c");
    assert_eq!(sanitize(&once), once);
    assert_eq!(once.chars().count(), 5);
    assert!(!once.contains('-'));
}

#[test]
fn sanitizing_keeps_characters_beyond_ascii() {
    assert_eq!(sanitize("j\u{e9}-b"), "j\u{e9}_b");
}

#[test]
fn metric_names_end_in_the_suffix() {
    assert_eq!(metric_name("my-job", Metric::Total), "my_job_total");
    assert_eq!(metric_name("my-job", Metric::Success), "my_job_success");
    assert_eq!(metric_name("my-job", Metric::Failure), "my_job_failure");
    assert_eq!(metric_name("my-job", Metric::Unstable), "my_job_unstable");
    assert_eq!(metric_name("my-job", Metric::RequestTime), "my_job_reqtime_ms");
}

#[test]
fn metric_help_keeps_the_job_name_as_it_is() {
    assert_eq!(metric_help("my-job", Metric::Total), "my-job last builds total");
    assert_eq!(metric_help("my-job", Metric::Success), "my-job last builds with SUCCESS");
    assert_eq!(metric_help("my-job", Metric::Failure), "my-job last builds with FAILURE");
    assert_eq!(metric_help("my-job", Metric::Unstable), "my-job last builds with UNSTABLE");
    assert_eq!(
        metric_help("my-job", Metric::RequestTime),
        "my-job how long the last Jenkins API request took"
    );
}

#[test]
fn all_metrics_are_five_in_order() {
    assert_eq!(
        Metric::all(),
        vec![Metric::Total, Metric::Success, Metric::Failure, Metric::Unstable, Metric::RequestTime]
    );
    assert_eq!(Metric::Total.suffix(), "total");
    assert_eq!(Metric::RequestTime.suffix(), "reqtime_ms");
    assert_eq!(Metric::Unstable.help(), "last builds with UNSTABLE");
}
