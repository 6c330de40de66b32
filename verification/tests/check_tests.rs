use std::time::Duration;

use hams::error::HamsError;
use hams::hams::check::HealthCheck;
use hams::hams::config::{HamsConfig, TaskConfig};
use hams::hams::{hams_version, Hams, NAME, VERSION};
use hams::probe::kick::Kick;
use hams::probe::manual::Manual;
use hams::probe::{FFIProbe, HealthProbe, HealthProbeResult};

/// A probe of either kind, as a check holding different kinds of probes sees it.
#[derive(Debug, Clone)]
enum AnyProbe {
    Manual(Manual),
    Kick(Kick),
}

fn named<P: HealthProbe>(probe: P) -> (String, FFIProbe<P>) {
    (probe.name(), FFIProbe::new(probe))
}

#[test]
fn test_health_check_insert() {
    let mut check = HealthCheck::new("test");
    let manual0 = Manual::new("test_probe0", true);
    let manual1 = Manual::new("test_probe1", true);

    assert_eq!(check.len(), 0);
    let (n, p) = named(manual0.clone());
    assert!(check.insert(n, p));
    assert_eq!(check.len(), 1);
    let (n, p) = named(manual0.clone());
    assert!(!check.insert(n, p));
    assert_eq!(check.len(), 1);

    let (n, p) = named(manual1.clone());
    assert!(check.insert(n, p));
    assert_eq!(check.len(), 2);
}

#[test]
fn test_health_check_insert_different_types() {
    let mut check = HealthCheck::new("test");
    let manual0 = Manual::new("test_probe0", true);
    let kick0 = Kick::new("test_probe1", Duration::from_secs(1).as_secs());

    assert_eq!(check.len(), 0);
    assert!(check.insert(manual0.name(), AnyProbe::Manual(manual0.clone())));
    assert_eq!(check.len(), 1);
    assert!(!check.insert(manual0.name(), AnyProbe::Manual(manual0.clone())));
    assert_eq!(check.len(), 1);

    assert!(check.insert(kick0.name(), AnyProbe::Kick(kick0.clone())));
    assert_eq!(check.len(), 2);
}

#[test]
fn test_health_check_remove() {
    let mut check = HealthCheck::new("test");
    let manual0 = Manual::new("test_probe0", true);
    let manual1 = Manual::new("test_probe1", true);

    assert_eq!(check.len(), 0);
    assert!(!check.remove(&manual0.name()));
    assert_eq!(check.len(), 0);

    let (n, p) = named(manual0.clone());
    check.insert(n, p);
    let (n, p) = named(manual1.clone());
    check.insert(n, p);
    assert_eq!(check.len(), 2);

    assert!(check.remove(&manual0.name()));
    assert_eq!(check.len(), 1);
    assert!(!check.remove(&manual0.name()));
    assert_eq!(check.len(), 1);

    assert!(check.remove(&manual1.name()));
    assert_eq!(check.len(), 0);
}

#[test]
fn mod_test_hams_health() {
    let mut hams: Hams<FFIProbe<Manual>> = Hams::new(HamsConfig::default());

    let probe0 = Manual::new("test_probe0", true);
    let probe1 = Manual::new("test_probe1", true);

    assert_eq!(hams.alive.len(), 0);
    let (n, p) = named(probe0.clone());
    assert!(hams.alive_insert(n, p));
    assert_eq!(hams.alive.len(), 1);

    let (n, p) = named(probe1.clone());
    assert!(hams.alive.insert(n, p));
    assert_eq!(hams.alive.len(), 2);

    assert_eq!(hams.ready.len(), 0);
    let (n, p) = named(probe0.clone());
    assert!(hams.ready_insert(n, p));
    assert_eq!(hams.ready.len(), 1);

    let (n, p) = named(probe1.clone());
    assert!(hams.ready.insert(n, p));
    assert_eq!(hams.ready.len(), 2);

    assert!(hams.alive_remove(&probe0.name()));
    assert_eq!(hams.alive.len(), 1);

    assert!(hams.ready_remove(&probe0.name()));
    assert_eq!(hams.ready.len(), 1);

    assert_eq!(hams.startup.len(), 0);
    let (n, p) = named(probe0.clone());
    assert!(hams.startup_insert(n, p));
    assert_eq!(hams.startup.len(), 1);

    let (n, p) = named(probe1.clone());
    assert!(hams.startup.insert(n, p));
    assert_eq!(hams.startup.len(), 2);

    assert!(hams.startup_remove(&probe0.name()));
    assert_eq!(hams.startup.len(), 1);
}

#[test]
fn hams_test_hams_health() {
    let mut hams: Hams<Manual> = Hams::new(HamsConfig::default());

    let probe = Manual::new("test_probe", true);
    hams.alive.insert(probe.name(), probe);

    let probe = Manual::new("test_probe", true);
    hams.ready.insert(probe.name(), probe);
}

#[test]
fn config_test_default() {
    let config = HamsConfig::default();
    assert_eq!(config.address, "0.0.0.0:8079");
    assert_eq!(config.name, "NO_NAME");
    assert_eq!(config.version, "0.0.0");
    assert!(!config.logging);
}

#[test]
fn task_config_default() {
    let config = TaskConfig::default();
    assert_eq!(config.retries, 3);
    assert_eq!(config.sleep_ms, 1000);
    assert_eq!(config.timeout_ms, 5000);
}

#[test]
fn check_is_valid_only_when_every_probe_is() {
    let mut check: HealthCheck<u8> = HealthCheck::new("ready");
    check.insert("a".to_string(), 0);
    check.insert("b".to_string(), 1);

    let all_good = vec![Ok(true), Ok(true)];
    let reply = check.check(&all_good);
    assert_eq!(reply.name, "ready");
    assert!(reply.valid);
    assert_eq!(reply.details, None);

    let one_bad = vec![Ok(true), Ok(false)];
    assert!(!check.check(&one_bad).valid);

    let one_error = vec![Err(HamsError::Unknown), Ok(true)];
    assert!(!check.check(&one_error).valid);

    let reply = check.check_verbose(&one_error);
    assert!(!reply.valid);
    assert_eq!(
        reply.details,
        Some(vec![
            HealthProbeResult { name: "a".to_string(), valid: false },
            HealthProbeResult { name: "b".to_string(), valid: true },
        ])
    );

    let empty: HealthCheck<u8> = HealthCheck::new("empty");
    assert!(empty.check(&Vec::new()).valid);
    assert_eq!(empty.check_verbose(&Vec::new()).details, Some(Vec::new()));
}

#[test]
fn insert_then_remove_restores_the_check() {
    let mut check: HealthCheck<u8> = HealthCheck::new("alive");
    check.insert("a".to_string(), 1);
    check.insert("b".to_string(), 2);
    let before: Vec<(String, u8)> = check.probes().clone();

    assert!(check.insert("c".to_string(), 3));
    assert!(check.contains("c"));
    assert!(check.remove("c"));
    assert!(!check.contains("c"));
    assert_eq!(check.probes(), &before);
}

#[test]
fn first_insert_under_a_name_wins() {
    let mut check: HealthCheck<u8> = HealthCheck::new("alive");
    assert!(check.insert("a".to_string(), 1));
    assert!(!check.insert("a".to_string(), 2));
    assert_eq!(check.probes(), &vec![("a".to_string(), 1u8)]);
    assert_eq!(check.name(), "alive");
}

#[test]
fn remove_keeps_the_order_of_the_others() {
    let mut check: HealthCheck<u8> = HealthCheck::new("alive");
    check.insert("a".to_string(), 1);
    check.insert("b".to_string(), 2);
    check.insert("c".to_string(), 3);
    assert!(check.remove("b"));
    assert_eq!(
        check.probes(),
        &vec![("a".to_string(), 1u8), ("c".to_string(), 3u8)]
    );
}

#[test]
fn new_service_has_empty_named_checks() {
    let config = HamsConfig {
        address: "127.0.0.1:0".to_string(),
        name: "svc".to_string(),
        version: "1.2.3".to_string(),
        logging: true,
    };
    let mut hams: Hams<u8> = Hams::new(config);
    assert_eq!(hams.name, "svc");
    assert_eq!(hams.version, "1.2.3");
    assert_eq!(hams.address, "127.0.0.1:0");
    assert_eq!(hams.alive.name(), "alive");
    assert_eq!(hams.ready.name(), "ready");
    assert_eq!(hams.startup.name(), "startup");
    assert_eq!(hams.preflights.name(), "preflights");
    assert_eq!(hams.shutdowns.name(), "shutdowns");

    let reply = hams.version_reply();
    assert_eq!(reply.name, "svc");
    assert_eq!(reply.version, "1.2.3");
    assert_eq!(reply.hams_name, NAME);
    assert_eq!(reply.hams_version, VERSION);
    assert_eq!(hams_version(), "hams:0.1.0");

    assert!(hams.preflight_insert("p".to_string(), 1));
    assert!(!hams.preflight_insert("p".to_string(), 2));
    assert!(hams.shutdown_insert("s".to_string(), 3));
    assert_eq!(hams.preflights.len(), 1);
    assert_eq!(hams.shutdowns.len(), 1);

    hams.startup_task_insert(7, TaskConfig::default());
    hams.shutdown_task_insert(8, TaskConfig { retries: 1, sleep_ms: 0, timeout_ms: 10 });
    assert_eq!(hams.startup_tasks.len(), 1);
    assert_eq!(hams.shutdown_tasks[0].0, 8);
}

#[test]
fn service_start_and_stop() {
    let mut hams: Hams<u8> = Hams::new(HamsConfig::default());
    assert_eq!(hams.stop(true), Err(HamsError::NotRunning));
    assert_eq!(hams.start(), Ok(()));
    assert_eq!(hams.start(), Err(HamsError::AlreadyRunning));
    assert_eq!(hams.stop(false), Err(HamsError::NoThread));
    assert_eq!(hams.stop(true), Ok(()));
    assert_eq!(hams.stop(true), Err(HamsError::NotRunning));
    assert_eq!(hams.start(), Ok(()));
    assert_eq!(hams.stop(true), Ok(()));
}

#[test]
fn test_hams() {
    let mut hams: Hams<u8> = Hams::new(HamsConfig { name: "test".to_string(), ..HamsConfig::default() });
    hams.start().expect("Started");
    hams.stop(true).expect("Stopped");
}

#[test]
fn obj_hams_start_stop() {
    let config = HamsConfig { address: "0.0.0.0:0".to_string(), ..HamsConfig::default() };
    let mut hams: Hams<u8> = Hams::new(config);

    hams.start().expect("Started");
    hams.stop(true).expect("Stopped");

    hams.start().expect("Started");
    hams.stop(true).expect("Stopped");
}

#[test]
fn fresh_service_is_not_running() {
    let mut hams: Hams<u8> = Hams::new(HamsConfig::default());
    assert_eq!(hams.stop(true), Err(HamsError::NotRunning));
    assert_eq!(hams.stop(false), Err(HamsError::NotRunning));
    assert_eq!(hams.start(), Ok(()));
    assert_eq!(hams.stop(true), Ok(()));
    assert_eq!(hams.stop(true), Err(HamsError::NotRunning));
}

#[test]
fn inserting_into_one_check_leaves_the_others() {
    let mut hams: Hams<u8> = Hams::new(HamsConfig::default());
    assert!(hams.ready_insert("r".to_string(), 1));
    assert!(hams.alive_insert("a".to_string(), 2));
    assert_eq!(hams.alive.len(), 1);
    assert_eq!(hams.ready.len(), 1);
    assert_eq!(hams.startup.len(), 0);
    assert!(hams.alive_remove("a"));
    assert_eq!(hams.ready.len(), 1);
}
