use stoffel_rust_sdk::observability::otel::OtelConfig;
use stoffel_rust_sdk::observability::{Counter, Gauge, HealthStatus};
use stoffel_rust_sdk::types::Duration;

#[test]
fn counter_starts_at_zero() {
    let c = Counter::new("test".to_string());
    assert_eq!(c.get(), 0);
}

#[test]
fn counter_inc() {
    let mut c = Counter::new("test".to_string());
    c.inc();
    c.inc();
    assert_eq!(c.get(), 2);
}

#[test]
fn counter_inc_by() {
    let mut c = Counter::new("test".to_string());
    c.inc_by(10);
    c.inc();
    c.inc_by(5);
    assert_eq!(c.get(), 16);
}

#[test]
fn counter_wraps_on_overflow() {
    let mut c = Counter::new("test".to_string());
    c.inc_by(u64::MAX);
    c.inc();
    assert_eq!(c.get(), 0);
}

#[test]
fn counter_name() {
    let c = Counter::new("my_counter".to_string());
    assert_eq!(c.name(), "my_counter");
}

#[test]
fn gauge_starts_at_zero() {
    let g = Gauge::new("test".to_string());
    assert_eq!(g.get(), 0);
}

#[test]
fn gauge_set_and_get() {
    let mut g = Gauge::new("test".to_string());
    g.set(42);
    assert_eq!(g.get(), 42);
}

#[test]
fn gauge_inc_dec() {
    let mut g = Gauge::new("test".to_string());
    g.inc();
    g.inc();
    g.inc();
    g.dec();
    assert_eq!(g.get(), 2);
}

#[test]
fn gauge_dec_saturates_at_zero() {
    let mut g = Gauge::new("test".to_string());
    g.inc();
    g.dec();
    g.dec();
    assert_eq!(g.get(), 0);
}

#[test]
fn gauge_name() {
    let g = Gauge::new("my_gauge".to_string());
    assert_eq!(g.name(), "my_gauge");
}

#[test]
fn health_status_healthy() {
    let status = HealthStatus::Healthy;
    assert!(status.is_healthy());
    assert!(status.is_operational());
}

#[test]
fn health_status_degraded() {
    let status = HealthStatus::Degraded { reason: "high latency".to_string() };
    assert!(!status.is_healthy());
    assert!(status.is_operational());
}

#[test]
fn health_status_unhealthy() {
    let status = HealthStatus::Unhealthy { reason: "no peers".to_string() };
    assert!(!status.is_healthy());
    assert!(!status.is_operational());
}

#[test]
fn health_status_display() {
    assert_eq!(HealthStatus::Healthy.to_text(), "Healthy");
    assert_eq!(HealthStatus::Degraded { reason: "slow".into() }.to_text(), "Degraded: slow");
    assert_eq!(HealthStatus::Unhealthy { reason: "down".into() }.to_text(), "Unhealthy: down");
}

#[test]
fn otel_later_attribute_value_replaces() {
    let c = OtelConfig::new("svc".to_string())
        .with_attribute("env".to_string(), "prod".to_string())
        .with_attribute("env".to_string(), "dev".to_string())
        .with_export_interval(Duration::from_secs(5));
    let env: Vec<&(String, String)> = c.resource_attributes.iter().filter(|(k, _)| k == "env").collect();
    assert_eq!(env.len(), 1);
    assert_eq!(env[0].1, "dev");
    assert_eq!(c.export_interval, Duration::from_secs(5));
}

#[test]
fn many_increments_are_all_counted() {
    let mut c = Counter::new("ops".to_string());
    for _ in 0..1000 {
        c.inc();
    }
    assert_eq!(c.get(), 1000);
    assert_eq!(c.name(), "ops");
}

#[test]
fn decrements_stop_at_zero() {
    let mut g = Gauge::new("active".to_string());
    g.set(3);
    for _ in 0..5 {
        g.dec();
    }
    assert_eq!(g.get(), 0);
    g.set(10);
    for _ in 0..4 {
        g.dec();
    }
    assert_eq!(g.get(), 6);
}
