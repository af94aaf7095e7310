use telemetry_core::expose::content_type;
use telemetry_core::expose::encode;
use telemetry_core::expose::format_gauge;
use telemetry_core::expose::format_u64;
use telemetry_core::sampler::mem_bytes_to_milli_mb;
use telemetry_core::AppMetrics;
use telemetry_core::MetricKind;
use telemetry_core::MetricValue;
use telemetry_core::Pipeline;
use telemetry_core::Provider;
use telemetry_core::ProviderError;
use telemetry_core::ProviderState;
use telemetry_core::Registry;
use telemetry_core::RegistryError;
use telemetry_core::ResourceIdentity;
use telemetry_core::ResourceReading;
use telemetry_core::SampleOutcome;
use telemetry_core::Sampler;
use telemetry_core::SignalKind;

#[test]
fn empty_registry_has_no_samples() {
    let r = Registry::new();
    assert_eq!(r.len(), 0);
    assert!(r.snapshot().is_empty());
}

#[test]
fn register_returns_consecutive_handles() {
    let mut r = Registry::new();
    let a = r.register(
        "alpha_total".to_string(),
        "First".to_string(),
        MetricKind::Counter,
    );
    let b = r.register("beta".to_string(), "Second".to_string(), MetricKind::Gauge);
    assert_eq!(a, Ok(0));
    assert_eq!(b, Ok(1));
    assert_eq!(r.len(), 2);
}

#[test]
fn duplicate_registration_fails_and_leaves_registry_untouched() {
    let mut r = Registry::new();
    let h = r
        .register(
            "jobs_total".to_string(),
            "Jobs processed".to_string(),
            MetricKind::Counter,
        )
        .unwrap();
    r.increment_counter(h, 7);
    let before: Vec<(String, String, MetricValue)> = r
        .snapshot()
        .iter()
        .map(|s| (s.name().clone(), s.help().clone(), s.value()))
        .collect();

    let dup = r.register(
        "jobs_total".to_string(),
        "Another description".to_string(),
        MetricKind::Gauge,
    );
    assert_eq!(dup, Err(RegistryError::DuplicateName));

    let after: Vec<(String, String, MetricValue)> = r
        .snapshot()
        .iter()
        .map(|s| (s.name().clone(), s.help().clone(), s.value()))
        .collect();
    assert_eq!(before, after);
    assert_eq!(r.len(), 1);
    assert_eq!(after[0].2, MetricValue::Counter(7));
}

#[test]
fn unit_increments_are_never_lost() {
    let mut r = Registry::new();
    let h = r
        .register(
            "hits_total".to_string(),
            "Hits".to_string(),
            MetricKind::Counter,
        )
        .unwrap();
    for _ in 0..1000 {
        r.increment_counter(h, 1);
    }
    assert_eq!(r.snapshot()[0].value(), MetricValue::Counter(1000));
}

#[test]
fn counter_saturates_instead_of_wrapping() {
    let mut r = Registry::new();
    let h = r
        .register(
            "big_total".to_string(),
            "Big".to_string(),
            MetricKind::Counter,
        )
        .unwrap();
    r.increment_counter(h, u64::MAX);
    r.increment_counter(h, 1);
    assert_eq!(r.snapshot()[0].value(), MetricValue::Counter(u64::MAX));
}

#[test]
fn gauge_last_write_wins() {
    let mut r = Registry::new();
    let h = r
        .register(
            "depth".to_string(),
            "Queue depth".to_string(),
            MetricKind::Gauge,
        )
        .unwrap();
    r.set_gauge(h, 4200);
    r.set_gauge(h, -1500);
    assert_eq!(r.snapshot()[0].value(), MetricValue::Gauge(-1500));
}

#[test]
fn snapshot_is_complete_and_ordered() {
    let mut r = Registry::new();
    r.register("one".to_string(), "First".to_string(), MetricKind::Counter)
        .unwrap();
    r.register("two".to_string(), "Second".to_string(), MetricKind::Gauge)
        .unwrap();
    let snap = r.snapshot();
    assert_eq!(snap.len(), 2);
    assert_eq!(snap[0].name(), "one");
    assert_eq!(snap[0].help(), "First");
    assert_eq!(snap[1].name(), "two");
    assert_eq!(snap[1].help(), "Second");
}

#[test]
fn snapshot_sees_a_gauge_write_fully_or_not_at_all() {
    let mut r = Registry::new();
    let h = r
        .register(
            "depth".to_string(),
            "Queue depth".to_string(),
            MetricKind::Gauge,
        )
        .unwrap();
    r.set_gauge(h, 1000);

    let before = r.snapshot();
    r.set_gauge(h, 2500);
    let after = r.snapshot();

    assert_eq!(before[0].value(), MetricValue::Gauge(1000));
    assert_eq!(after[0].value(), MetricValue::Gauge(2500));
    assert_eq!(before[0].name(), after[0].name());
    assert_eq!(before[0].help(), after[0].help());
}

#[test]
fn extreme_gauge_contents_render_exactly() {
    assert_eq!(format_gauge(i64::MAX), "9223372036854775.807");
    assert_eq!(format_gauge(i64::MIN), "-9223372036854775.808");
}

#[test]
fn rendered_gauge_text_parses_back_to_the_same_content() {
    for milli in [0i64, 1, -1, 999, 1000, 2500, 2005, -123456, 987654321] {
        let text = format_gauge(milli);
        let value: f64 = text.parse().unwrap();
        assert_eq!((value * 1000.0).round() as i64, milli);
    }
}

#[test]
fn counter_values_render_as_plain_decimals() {
    assert_eq!(format_u64(0), "0");
    assert_eq!(format_u64(3), "3");
    assert_eq!(format_u64(10), "10");
    assert_eq!(format_u64(1234567890), "1234567890");
    assert_eq!(format_u64(u64::MAX), "18446744073709551615");
}

#[test]
fn gauge_values_render_with_shortest_fraction() {
    assert_eq!(format_gauge(0), "0");
    assert_eq!(format_gauge(3000), "3");
    assert_eq!(format_gauge(2500), "2.5");
    assert_eq!(format_gauge(2050), "2.05");
    assert_eq!(format_gauge(2005), "2.005");
    assert_eq!(format_gauge(123), "0.123");
    assert_eq!(format_gauge(-1500), "-1.5");
    assert_eq!(format_gauge(-3000), "-3");
}

#[test]
fn exposition_has_one_block_per_sample_with_exact_values() {
    let mut r = Registry::new();
    let c = r
        .register(
            "jobs_total".to_string(),
            "Jobs processed".to_string(),
            MetricKind::Counter,
        )
        .unwrap();
    let g = r
        .register(
            "queue_depth".to_string(),
            "Current queue depth".to_string(),
            MetricKind::Gauge,
        )
        .unwrap();
    r.increment_counter(c, 3);
    r.set_gauge(g, 2500);

    let body = encode(&r.snapshot());
    let expected = "# HELP jobs_total Jobs processed\n\
                    # TYPE jobs_total counter\n\
                    jobs_total 3\n\
                    # HELP queue_depth Current queue depth\n\
                    # TYPE queue_depth gauge\n\
                    queue_depth 2.5\n";
    assert_eq!(body, expected);
    assert_eq!(body.matches("# HELP").count(), 2);
    assert_eq!(body.matches("# TYPE").count(), 2);
    assert!(body.contains("jobs_total 3\n"));
    assert!(body.contains("queue_depth 2.5\n"));
}

#[test]
fn exposition_content_type_is_prometheus_text() {
    assert_eq!(content_type(), "text/plain; version=0.0.4");
}

#[test]
fn app_metrics_starts_with_three_samples_at_zero() {
    let m = AppMetrics::new();
    let body = m.render();
    assert!(body.contains("# HELP http_requests_total Number of HTTP requests\n"));
    assert!(body.contains("# TYPE http_requests_total counter\n"));
    assert!(body.contains("http_requests_total 0\n"));
    assert!(body.contains("# HELP app_memory_bytes Memory used by the app in bytes\n"));
    assert!(body.contains("# TYPE app_memory_bytes gauge\n"));
    assert!(body.contains("app_memory_bytes 0\n"));
    assert!(body.contains("# HELP app_cpu_percent CPU usage percent of the app\n"));
    assert!(body.contains("# TYPE app_cpu_percent gauge\n"));
    assert!(body.contains("app_cpu_percent 0\n"));
}

#[test]
fn five_requests_show_as_five_in_the_exposition() {
    let mut m = AppMetrics::new();
    for _ in 0..5 {
        let body = m.handle_request();
        assert_eq!(body, "Hello! This request was counted.");
    }
    let text = m.render();
    assert!(text.contains("http_requests_total 5\n"));
}

#[test]
fn memory_conversion_to_megabytes_is_exact() {
    assert_eq!(mem_bytes_to_milli_mb(0), 0);
    assert_eq!(mem_bytes_to_milli_mb(1048576), 1000);
    assert_eq!(mem_bytes_to_milli_mb(2621440), 2500);
    assert_eq!(mem_bytes_to_milli_mb(524288), 500);
}

#[test]
fn sampler_applies_readings_to_both_gauges() {
    let mut m = AppMetrics::new();
    let mut s = Sampler::new();
    let outcome = s.step(
        &mut m,
        Some(ResourceReading {
            cpu_milli_percent: 12500,
            memory_bytes: 2621440,
        }),
    );
    assert_eq!(outcome, SampleOutcome::Applied);
    let text = m.render();
    assert!(text.contains("app_memory_bytes 2.5\n"));
    assert!(text.contains("app_cpu_percent 12.5\n"));
}

#[test]
fn missing_first_reading_is_fatal() {
    let mut m = AppMetrics::new();
    let mut s = Sampler::new();
    assert_eq!(s.step(&mut m, None), SampleOutcome::FatalStartup);
}

#[test]
fn failed_reading_after_the_first_keeps_previous_gauges() {
    let mut m = AppMetrics::new();
    let mut s = Sampler::new();
    let first = s.step(
        &mut m,
        Some(ResourceReading {
            cpu_milli_percent: 7250,
            memory_bytes: 1048576,
        }),
    );
    assert_eq!(first, SampleOutcome::Applied);
    let before = m.render();

    let second = s.step(&mut m, None);
    assert_eq!(second, SampleOutcome::Skipped);
    let after = m.render();
    assert_eq!(before, after);
    assert!(after.contains("app_memory_bytes 1\n"));
    assert!(after.contains("app_cpu_percent 7.25\n"));

    let third = s.step(
        &mut m,
        Some(ResourceReading {
            cpu_milli_percent: 500,
            memory_bytes: 3145728,
        }),
    );
    assert_eq!(third, SampleOutcome::Applied);
    let text = m.render();
    assert!(text.contains("app_memory_bytes 3\n"));
    assert!(text.contains("app_cpu_percent 0.5\n"));
}

#[test]
fn two_sampling_cycles_leave_nonnegative_gauges_present() {
    let mut m = AppMetrics::new();
    let mut s = Sampler::new();
    for _ in 0..2 {
        let outcome = s.step(
            &mut m,
            Some(ResourceReading {
                cpu_milli_percent: 1000,
                memory_bytes: 10485760,
            }),
        );
        assert_eq!(outcome, SampleOutcome::Applied);
    }
    let text = m.render();
    let mem_line = text
        .lines()
        .find(|l| l.starts_with("app_memory_bytes "))
        .unwrap();
    let cpu_line = text
        .lines()
        .find(|l| l.starts_with("app_cpu_percent "))
        .unwrap();
    let mem: f64 = mem_line.split(' ').nth(1).unwrap().parse().unwrap();
    let cpu: f64 = cpu_line.split(' ').nth(1).unwrap().parse().unwrap();
    assert!(mem >= 0.0);
    assert!(cpu >= 0.0);
    assert_eq!(mem, 10.0);
    assert_eq!(cpu, 1.0);
}

#[test]
fn resource_identity_is_fixed_at_construction() {
    let id = ResourceIdentity::new("otlp-actix-http-example".to_string());
    assert_eq!(id.service_name(), "otlp-actix-http-example");
}

#[test]
fn provider_accepts_records_only_while_active() {
    let mut p = Provider::new();
    assert_eq!(p.state(), ProviderState::Uninitialized);
    assert!(!p.record());

    assert_eq!(p.activate(true), Ok(()));
    assert_eq!(p.state(), ProviderState::Active);
    assert!(p.record());
    assert!(p.record());
    assert_eq!(p.buffered(), 2);

    let to_drain = p.begin_shutdown();
    assert_eq!(to_drain, 2);
    assert_eq!(p.state(), ProviderState::Draining);
    assert!(!p.record());

    p.finish_drain(true);
    assert_eq!(p.state(), ProviderState::Terminated);
    assert_eq!(p.buffered(), 0);
    assert!(!p.record());
}

#[test]
fn failed_construction_is_reported_and_leaves_provider_unusable() {
    let mut p = Provider::new();
    assert_eq!(p.activate(false), Err(ProviderError::Construction));
    assert_eq!(p.state(), ProviderState::Uninitialized);
    assert!(!p.record());
}

#[test]
fn shutdown_of_a_terminated_provider_drains_nothing() {
    let mut p = Provider::new();
    p.activate(true).unwrap();
    p.record();
    assert_eq!(p.begin_shutdown(), 1);
    p.finish_drain(false);
    assert_eq!(p.begin_shutdown(), 0);
    assert_eq!(p.state(), ProviderState::Terminated);
}

fn activated_pipeline() -> Pipeline {
    let mut p = Pipeline::new();
    p.logs.activate(true).unwrap();
    p.traces.activate(true).unwrap();
    p.metrics.activate(true).unwrap();
    p.logs.record();
    p.traces.record();
    p.traces.record();
    p.metrics.record();
    p.metrics.record();
    p.metrics.record();
    p
}

#[test]
fn shutdown_order_does_not_matter() {
    let orders = [
        [SignalKind::Metrics, SignalKind::Traces, SignalKind::Logs],
        [SignalKind::Logs, SignalKind::Traces, SignalKind::Metrics],
        [SignalKind::Traces, SignalKind::Metrics, SignalKind::Logs],
        [SignalKind::Logs, SignalKind::Metrics, SignalKind::Traces],
        [SignalKind::Metrics, SignalKind::Logs, SignalKind::Traces],
        [SignalKind::Traces, SignalKind::Logs, SignalKind::Metrics],
    ];
    for order in orders {
        let mut p = activated_pipeline();
        let mut drained = [0u64; 3];
        for (i, sig) in order.iter().enumerate() {
            drained[i] = p.shutdown_one(*sig);
        }
        let mut total = 0;
        for d in drained {
            total += d;
        }
        assert_eq!(total, 6);
        assert_eq!(p.logs.state(), ProviderState::Terminated);
        assert_eq!(p.traces.state(), ProviderState::Terminated);
        assert_eq!(p.metrics.state(), ProviderState::Terminated);
        assert!(!p.logs.record());
        assert!(!p.traces.record());
        assert!(!p.metrics.record());
    }
}

#[test]
fn shutting_one_provider_down_leaves_the_others_active() {
    let mut p = activated_pipeline();
    p.shutdown_one(SignalKind::Metrics);
    assert_eq!(p.metrics.state(), ProviderState::Terminated);
    assert_eq!(p.logs.state(), ProviderState::Active);
    assert_eq!(p.traces.state(), ProviderState::Active);
    assert!(p.logs.record());
    assert!(p.traces.record());
    assert!(!p.metrics.record());
}

#[test]
fn repeated_shutdown_is_safe() {
    let mut p = activated_pipeline();
    assert_eq!(p.shutdown_one(SignalKind::Logs), 1);
    assert_eq!(p.shutdown_one(SignalKind::Logs), 0);
    assert_eq!(p.logs.state(), ProviderState::Terminated);
    assert_eq!(p.traces.state(), ProviderState::Active);
}
