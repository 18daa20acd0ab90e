use pico_proof_marketplace::monitoring::{
    Alert, AlertSeverity, AlertThresholds, DashboardConfig, DeploymentMetrics, DeploymentStatus,
    HealthStatus, MetricsFormat, PicoMonitoringDashboard, ProofMetrics, ProofStatus,
    SystemResources,
};
use pico_proof_marketplace::Ratio;

const NOW: u64 = 1_700_000_000_000;

fn dashboard_config(retention: u64) -> DashboardConfig {
    DashboardConfig {
        refresh_interval: 5_000,
        retention_period: retention,
        alert_thresholds: AlertThresholds {
            max_response_time: 1_000,
            max_error_rate: Ratio { numerator: 1, denominator: 4 },
            max_cpu_usage: Ratio { numerator: 90, denominator: 1 },
            max_memory_usage: Ratio { numerator: 90, denominator: 1 },
            min_throughput: Ratio { numerator: 1, denominator: 10 },
        },
        endpoints: vec!["http://localhost:8080".to_string()],
        authentication: None,
    }
}

fn deployment(id: &str, generated: u64, verified: u64) -> DeploymentMetrics {
    DeploymentMetrics {
        deployment_id: id.to_string(),
        program_name: "fibonacci".to_string(),
        status: DeploymentStatus::Running,
        start_time: NOW - 10_000,
        end_time: None,
        total_proofs_generated: generated,
        total_proofs_verified: verified,
        average_proof_time: 750,
        total_cycles: 123_456,
        memory_usage: 4096,
        backend: "koalabear".to_string(),
        version: "1.0".to_string(),
    }
}

fn measurement(id: &str, deployment: &str, timestamp: u64, generation: u64, status: ProofStatus) -> ProofMetrics {
    ProofMetrics {
        proof_id: id.to_string(),
        deployment_id: deployment.to_string(),
        generation_time: generation,
        verification_time: generation / 10,
        proof_size: 1024,
        cycles: 1000,
        memory_usage: 2048,
        backend: "koalabear".to_string(),
        timestamp,
        status,
    }
}

#[test]
fn new_dashboard_is_empty() {
    let d = PicoMonitoringDashboard::new(dashboard_config(60_000));
    assert!(d.deployments().is_empty());
    assert!(d.proof_metrics().is_empty());
    assert!(d.alerts().is_empty());
    assert_eq!(d.config().retention_period, 60_000);
    assert!(d.get_all_deployments().is_empty());
    assert!(d.get_deployment_metrics("a").is_none());
}

#[test]
fn deployments_are_kept_by_id() {
    let mut d = PicoMonitoringDashboard::new(dashboard_config(60_000));
    d.register_deployment(deployment("a", 10, 10));
    d.register_deployment(deployment("b", 20, 20));
    d.register_deployment(deployment("a", 30, 29));
    let ids: Vec<(&str, u64)> = d
        .get_all_deployments()
        .iter()
        .map(|m| (m.deployment_id.as_str(), m.total_proofs_generated))
        .collect();
    assert_eq!(ids, vec![("a", 30), ("b", 20)]);
    assert_eq!(d.get_deployment_metrics("a").unwrap().total_proofs_verified, 29);
    assert_eq!(d.get_deployment_metrics("b").unwrap().total_proofs_generated, 20);
    assert!(d.get_deployment_metrics("c").is_none());
}

#[test]
fn old_measurements_are_dropped() {
    let mut d = PicoMonitoringDashboard::new(dashboard_config(1_000));
    d.record_proof_metrics(measurement("m1", "a", NOW - 2_000, 100, ProofStatus::Verified), NOW - 2_000);
    d.record_proof_metrics(measurement("m2", "a", NOW - 999, 100, ProofStatus::Verified), NOW - 999);
    d.record_proof_metrics(measurement("m3", "a", NOW - 1_000, 100, ProofStatus::Verified), NOW - 999);
    let ids = |d: &PicoMonitoringDashboard| {
        d.proof_metrics().iter().map(|m| m.proof_id.clone()).collect::<Vec<String>>()
    };
    assert_eq!(ids(&d), vec!["m2", "m3"]);
    // at NOW a measurement taken exactly one retention period ago is dropped
    d.record_proof_metrics(measurement("m4", "a", NOW, 100, ProofStatus::Verified), NOW);
    assert_eq!(ids(&d), vec!["m2", "m4"]);
    // a measurement that is too old when it arrives is dropped at once
    d.record_proof_metrics(measurement("m5", "a", NOW - 5_000, 100, ProofStatus::Verified), NOW);
    assert_eq!(ids(&d), vec!["m2", "m4"]);
    d.record_proof_metrics(measurement("m6", "a", NOW + 1, 100, ProofStatus::Verified), NOW + 1);
    assert_eq!(ids(&d), vec!["m4", "m6"]);
}

#[test]
fn retention_longer_than_the_clock_keeps_everything() {
    let mut d = PicoMonitoringDashboard::new(dashboard_config(u64::MAX));
    d.record_proof_metrics(measurement("m1", "a", 0, 100, ProofStatus::Verified), 5);
    d.record_proof_metrics(measurement("m2", "a", 1, 100, ProofStatus::Verified), u64::MAX - 1);
    assert_eq!(d.proof_metrics().len(), 2);
    d.record_proof_metrics(measurement("m3", "a", 2, 100, ProofStatus::Verified), u64::MAX);
    let ids: Vec<&str> = d.proof_metrics().iter().map(|m| m.proof_id.as_str()).collect();
    assert_eq!(ids, vec!["m2", "m3"]);
}

fn measured() -> PicoMonitoringDashboard {
    let mut d = PicoMonitoringDashboard::new(dashboard_config(3_600_000));
    d.register_deployment(deployment("a", 100, 100));
    d.register_deployment(deployment("b", 100, 100));
    d.record_proof_metrics(measurement("a1", "a", NOW - 50_000, 1000, ProofStatus::Verified), NOW - 50_000);
    d.record_proof_metrics(measurement("b1", "b", NOW - 40_000, 90, ProofStatus::Verified), NOW - 40_000);
    d.record_proof_metrics(measurement("a2", "a", NOW - 30_000, 2000, ProofStatus::Failed), NOW - 30_000);
    d.record_proof_metrics(measurement("a3", "a", NOW - 20_000, 4001, ProofStatus::Verified), NOW - 20_000);
    d.record_proof_metrics(measurement("a4", "a", NOW - 10_000, 500, ProofStatus::Generated), NOW - 10_000);
    d
}

#[test]
fn performance_statistics_over_a_window() {
    let d = measured();
    let s = d.get_performance_stats("a", 60_000, NOW);
    assert_eq!(s.deployment_id, "a");
    assert_eq!(s.time_period, 60_000);
    assert_eq!(s.total_proofs, 4);
    assert_eq!(s.successful_proofs, 2);
    assert_eq!(s.failed_proofs, 2);
    assert_eq!(s.average_generation_time, (1000 + 2000 + 4001 + 500) / 4);
    assert_eq!(s.average_verification_time, (100 + 200 + 400 + 50) / 4);
    assert_eq!(s.throughput, Ratio { numerator: 4, denominator: 60 });
    assert_eq!(s.cpu_usage, Ratio { numerator: 45, denominator: 1 });
    assert_eq!(s.memory_usage, Ratio { numerator: 60, denominator: 1 });
    assert_eq!(s.disk_usage, Ratio { numerator: 25, denominator: 1 });
    // a window of 30 s reaches back to, but not including, NOW - 30 s
    let s = d.get_performance_stats("a", 30_000, NOW);
    assert_eq!((s.total_proofs, s.successful_proofs, s.failed_proofs), (2, 1, 1));
    assert_eq!(s.average_generation_time, 2250);
    let s = d.get_performance_stats("a", 30_001, NOW);
    assert_eq!(s.total_proofs, 3);
    let s = d.get_performance_stats("b", 60_000, NOW);
    assert_eq!((s.total_proofs, s.successful_proofs, s.failed_proofs), (1, 1, 0));
    assert_eq!(s.average_generation_time, 90);
}

#[test]
fn performance_statistics_without_measurements() {
    let d = measured();
    let s = d.get_performance_stats("nobody", 60_000, NOW);
    assert_eq!((s.total_proofs, s.successful_proofs, s.failed_proofs), (0, 0, 0));
    assert_eq!(s.average_generation_time, 0);
    assert_eq!(s.average_verification_time, 0);
    assert_eq!(s.throughput, Ratio { numerator: 0, denominator: 60 });
    // a window under one second has no throughput
    let s = d.get_performance_stats("a", 999, NOW - 10_000);
    assert_eq!(s.total_proofs, 1);
    assert_eq!(s.throughput, Ratio { numerator: 1, denominator: 0 });
    assert_eq!(s.throughput.to_hundredths(), 0);
}

#[test]
fn system_health_follows_the_error_rates() {
    let mut d = PicoMonitoringDashboard::new(dashboard_config(60_000));
    let empty = d.get_system_health(NOW);
    assert_eq!(empty.overall_status, HealthStatus::Unknown);
    assert!(empty.deployments.is_empty());
    assert_eq!(empty.timestamp, NOW);
    assert_eq!(
        empty.system_resources,
        SystemResources {
            cpu_usage: Ratio { numerator: 45, denominator: 1 },
            memory_usage: Ratio { numerator: 60, denominator: 1 },
            disk_usage: Ratio { numerator: 25, denominator: 1 },
            network_usage: Ratio { numerator: 10, denominator: 1 },
            available_memory: 8 * 1024 * 1024 * 1024,
            available_disk: 100 * 1024 * 1024 * 1024,
        }
    );
    d.register_deployment(deployment("fine", 100, 95));
    d.register_deployment(deployment("idle", 0, 0));
    assert_eq!(d.get_system_health(NOW).overall_status, HealthStatus::Healthy);
    d.register_deployment(deployment("shaky", 100, 94));
    assert_eq!(d.get_system_health(NOW).overall_status, HealthStatus::Warning);
    d.register_deployment(deployment("edge", 100, 90));
    assert_eq!(d.get_system_health(NOW).overall_status, HealthStatus::Warning);
    d.register_deployment(deployment("broken", 100, 89));
    let mut ended = deployment("ended", 10, 10);
    ended.start_time = 1_000;
    ended.end_time = Some(4_500);
    d.register_deployment(ended);
    let mut odd = deployment("odd", 10, 10);
    odd.start_time = NOW + 1;
    d.register_deployment(odd);
    d.create_alert(AlertSeverity::Info, "hello".to_string(), None, NOW);
    let health = d.get_system_health(NOW);
    assert_eq!(health.overall_status, HealthStatus::Critical);
    let seen: Vec<(&str, HealthStatus, Ratio, u64)> = health
        .deployments
        .iter()
        .map(|h| (h.deployment_id.as_str(), h.status, h.error_rate, h.uptime))
        .collect();
    assert_eq!(
        seen,
        vec![
            ("fine", HealthStatus::Healthy, Ratio { numerator: 5, denominator: 100 }, 10_000),
            ("idle", HealthStatus::Healthy, Ratio { numerator: 0, denominator: 1 }, 10_000),
            ("shaky", HealthStatus::Warning, Ratio { numerator: 6, denominator: 100 }, 10_000),
            ("edge", HealthStatus::Warning, Ratio { numerator: 10, denominator: 100 }, 10_000),
            ("broken", HealthStatus::Critical, Ratio { numerator: 11, denominator: 100 }, 10_000),
            ("ended", HealthStatus::Healthy, Ratio { numerator: 0, denominator: 10 }, 3_500),
            ("odd", HealthStatus::Healthy, Ratio { numerator: 0, denominator: 10 }, 0),
        ]
    );
    assert!(health.deployments.iter().all(|h| h.last_activity == NOW && h.response_time == 750));
    assert_eq!(health.alerts.len(), 1);
    assert_eq!(health.alerts[0].message, "hello");
    assert_eq!(health.alerts[0].id, d.alerts()[0].id);
}

#[test]
fn alerts_are_raised_and_resolved() {
    let mut d = PicoMonitoringDashboard::new(dashboard_config(60_000));
    d.create_alert(AlertSeverity::Critical, "disk full".to_string(), Some("a".to_string()), NOW + 999);
    d.create_alert(AlertSeverity::Info, "second".to_string(), None, NOW + 999);
    d.create_alert(AlertSeverity::Warning, "later".to_string(), None, NOW + 1_000);
    {
        let a: &Alert = &d.alerts()[0];
        assert_eq!(a.id, "alert_1700000000");
        assert_eq!(a.severity, AlertSeverity::Critical);
        assert_eq!(a.message, "disk full");
        assert_eq!(a.deployment_id, Some("a".to_string()));
        assert_eq!(a.timestamp, NOW + 999);
        assert!(!a.resolved);
    }
    assert_eq!(d.alerts()[1].id, "alert_1700000000");
    assert_eq!(d.alerts()[2].id, "alert_1700000001");
    assert!(!d.resolve_alert("alert_17"));
    assert!(d.alerts().iter().all(|a| !a.resolved));
    assert!(d.resolve_alert("alert_1700000000"));
    let resolved: Vec<bool> = d.alerts().iter().map(|a| a.resolved).collect();
    assert_eq!(resolved, vec![true, false, false]);
    assert_eq!(d.alerts()[0].message, "disk full");
    assert!(d.resolve_alert("alert_1700000001"));
    let resolved: Vec<bool> = d.alerts().iter().map(|a| a.resolved).collect();
    assert_eq!(resolved, vec![true, false, true]);
}

#[test]
fn thresholds_raise_alerts_per_deployment() {
    let mut d = PicoMonitoringDashboard::new(dashboard_config(3_600_000));
    d.register_deployment(deployment("slow", 1, 1));
    d.register_deployment(deployment("quiet", 1, 1));
    d.register_deployment(deployment("busy", 1, 1));
    // "slow": two proofs, mean generation 1500 ms, half of them failed
    d.record_proof_metrics(measurement("s1", "slow", NOW - 1_000, 2_000, ProofStatus::Verified), NOW - 1_000);
    d.record_proof_metrics(measurement("s2", "slow", NOW - 900, 1_001, ProofStatus::Failed), NOW - 900);
    // "busy": twelve quick verified proofs in the window, one older than the window
    d.record_proof_metrics(measurement("old", "busy", NOW - 300_000, 90_000, ProofStatus::Failed), NOW - 300_000);
    for i in 0..12u64 {
        d.record_proof_metrics(
            measurement(&format!("b{}", i), "busy", NOW - 100 - i, 10, ProofStatus::Verified),
            NOW - 100,
        );
    }
    d.create_alert(AlertSeverity::Info, "earlier".to_string(), None, NOW - 5_000);
    d.check_thresholds(NOW);
    let raised: Vec<(AlertSeverity, String, Option<String>)> = d
        .alerts()
        .iter()
        .map(|a| (a.severity, a.message.clone(), a.deployment_id.clone()))
        .collect();
    assert_eq!(
        raised,
        vec![
            (AlertSeverity::Info, "earlier".to_string(), None),
            (
                AlertSeverity::Warning,
                "High response time for deployment slow: 1500ms".to_string(),
                Some("slow".to_string())
            ),
            (
                AlertSeverity::Critical,
                "High error rate for deployment slow: 50.00%".to_string(),
                Some("slow".to_string())
            ),
            (
                AlertSeverity::Warning,
                "Low throughput for deployment busy: 0.04 proofs/sec".to_string(),
                Some("busy".to_string())
            ),
        ]
    );
    assert!(d.alerts()[1..].iter().all(|a| a.id == "alert_1700000000" && a.timestamp == NOW && !a.resolved));
    assert_eq!(d.deployments().len(), 3);
    assert_eq!(d.proof_metrics().len(), 15);
}

#[test]
fn thresholds_at_their_limits_raise_nothing() {
    let mut config = dashboard_config(3_600_000);
    config.alert_thresholds.max_response_time = 1_500;
    config.alert_thresholds.max_error_rate = Ratio { numerator: 1, denominator: 2 };
    config.alert_thresholds.min_throughput = Ratio { numerator: 11, denominator: 300 };
    let mut d = PicoMonitoringDashboard::new(config);
    d.register_deployment(deployment("a", 1, 1));
    d.record_proof_metrics(measurement("s1", "a", NOW - 1_000, 2_000, ProofStatus::Verified), NOW - 1_000);
    d.record_proof_metrics(measurement("s2", "a", NOW - 900, 1_001, ProofStatus::Failed), NOW - 900);
    d.check_thresholds(NOW);
    assert!(d.alerts().is_empty());
    // eleven proofs in five minutes are exactly 11/300 per second: not below
    for i in 0..9u64 {
        d.record_proof_metrics(measurement(&format!("n{}", i), "a", NOW - i, 10, ProofStatus::Verified), NOW);
    }
    d.check_thresholds(NOW);
    assert!(d.alerts().is_empty());
}

#[test]
fn recent_proofs_come_latest_first() {
    let mut d = PicoMonitoringDashboard::new(dashboard_config(3_600_000));
    for (id, at) in [("m1", 5u64), ("m2", 9), ("m3", 5), ("m4", 7), ("m5", 9)] {
        d.record_proof_metrics(measurement(id, "a", NOW + at, 10, ProofStatus::Verified), NOW);
    }
    let ids = |proofs: Vec<ProofMetrics>| proofs.iter().map(|m| m.proof_id.clone()).collect::<Vec<String>>();
    assert_eq!(ids(d.get_recent_proofs(10)), vec!["m2", "m5", "m4", "m1", "m3"]);
    assert_eq!(ids(d.get_recent_proofs(5)), vec!["m2", "m5", "m4", "m1", "m3"]);
    assert_eq!(ids(d.get_recent_proofs(3)), vec!["m2", "m5", "m4"]);
    assert_eq!(ids(d.get_recent_proofs(0)), Vec::<String>::new());
    let first = &d.get_recent_proofs(1)[0];
    assert_eq!(first.timestamp, NOW + 9);
    assert_eq!(first.deployment_id, "a");
    assert_eq!(first.generation_time, 10);
    assert_eq!(d.proof_metrics().len(), 5);
}

#[test]
fn prometheus_export_lists_the_counters() {
    let mut d = PicoMonitoringDashboard::new(dashboard_config(60_000));
    assert_eq!(d.export_prometheus(), "");
    d.register_deployment(deployment("a", 30, 29));
    let mut b = deployment("b", 0, 0);
    b.backend = "babybear".to_string();
    b.total_cycles = 7;
    d.register_deployment(b);
    assert_eq!(
        d.export_prometheus(),
        "pico_deployment_total_proofs{deployment_id=\"a\",backend=\"koalabear\"} 30\n\
pico_deployment_verified_proofs{deployment_id=\"a\",backend=\"koalabear\"} 29\n\
pico_deployment_total_cycles{deployment_id=\"a\",backend=\"koalabear\"} 123456\n\
pico_deployment_total_proofs{deployment_id=\"b\",backend=\"babybear\"} 0\n\
pico_deployment_verified_proofs{deployment_id=\"b\",backend=\"babybear\"} 0\n\
pico_deployment_total_cycles{deployment_id=\"b\",backend=\"babybear\"} 7\n"
    );
}

#[test]
fn metrics_formats_are_named() {
    assert_eq!(MetricsFormat::parse("json"), Some(MetricsFormat::Json));
    assert_eq!(MetricsFormat::parse("prometheus"), Some(MetricsFormat::Prometheus));
    assert_eq!(MetricsFormat::parse("csv"), None);
}
