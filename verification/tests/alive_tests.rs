use hams::clock::now_nanos;
use hams::healthcheck::{HealthCheck, HealthCheckResult, HealthSystemResult};
use hams::healthkicked::{AliveCheckInner, AliveCheckKicked};
use std::time::Duration;

#[test]
fn alive_practical_use() {
    let health = AliveCheckKicked::new("hello", Duration::from_secs(10).as_nanos() as u64);

    let orig = health.get_inner().latest;

    health.kick();

    assert!(health.get_inner().latest > orig);

    println!("all done with {}", health.get_name());
}

#[test]
fn test_clone() {
    let health = AliveCheckKicked::new("hello", Duration::from_secs(10).as_nanos() as u64);

    let health2 = health.clone();

    println!("{:?} => {:?}", health, health2);
    drop(health);
    println!("=> {:?}", health2);
}

#[test]
fn healthkicked_test_check() {
    let health = AliveCheckKicked::new("hello", Duration::from_secs(10).as_nanos() as u64);

    let reply = health.check(now_nanos());

    println!("reply = {:?}", reply);
}

#[test]
fn test_real_alive() {
    let health = AliveCheckKicked::new(&String::from("hello"), Duration::from_secs(10).as_nanos() as u64);

    let orig = health.get_inner().latest;

    health.kick();

    assert!(health.get_inner().latest > orig);

    println!("all done with {}", health.get_name());
}

#[test]
fn wuggle_unused_test_check() {
    let health = AliveCheckKicked::new(&String::from("hello"), Duration::from_secs(10).as_nanos() as u64);

    let reply = health.check(now_nanos());

    println!("reply = {:?}", reply);
}

#[test]
fn alive_margin_in_nanoseconds() {
    let health = AliveCheckKicked::new("margin", Duration::new(2, 500).as_nanos() as u64);
    assert_eq!(health.margin, 2_000_000_500);
    let inner = AliveCheckInner { latest: 1_000 };
    assert!(inner.alive(10, 1_010));
    assert!(!inner.alive(10, 1_011));
    let latest = health.get_inner().latest;
    assert!(health.check(latest).valid);
    assert!(!health.check(latest + 2_000_000_501).valid);
    assert_eq!(health.check(latest).name, "margin");
}

#[test]
fn clones_share_the_last_kick() {
    let health = AliveCheckKicked::new("shared", Duration::from_secs(1).as_nanos() as u64);
    let other = health.clone();
    let before = other.get_inner().latest;
    health.kick();
    assert!(other.get_inner().latest > before);
}

#[test]
fn system_result_valid_when_all_checks_are() {
    let ok = HealthSystemResult::new(
        "system",
        vec![
            HealthCheckResult { name: "a".to_string(), valid: true },
            HealthCheckResult { name: "b".to_string(), valid: true },
        ],
    );
    assert!(ok.valid);
    let bad = HealthSystemResult::new(
        "system",
        vec![
            HealthCheckResult { name: "a".to_string(), valid: true },
            HealthCheckResult { name: "b".to_string(), valid: false },
        ],
    );
    assert!(!bad.valid);
    assert_eq!(bad.detail.len(), 2);
    assert!(HealthSystemResult::new("empty", vec![]).valid);
}

#[test]
fn alive_margin_is_the_one_given() {
    let health = AliveCheckKicked::new("m", 1234);
    assert_eq!(health.margin, 1234);
}
