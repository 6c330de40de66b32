use hams::health::health_check::{HealthCheck, HealthCheckReply as CheckReply};
use hams::health::health_probe::{HealthProbe, HealthProbeInner, HealthProbeResult, HpW};
use hams::health::health_result::{HealthCheckReply, HealthCheckResults};
use hams::health::kick::Kick;
use hams::health::manual::Manual;
use std::time::Duration;

#[test]
fn test_health_probe_result() {
    let hpr = HealthProbeResult {
        name: "test".to_owned(),
        valid: true,
    };
    assert_eq!(hpr.name, "test");
    assert!(hpr.valid);
}

#[test]
fn equality_for_inner() {
    #[derive(Debug, Hash, PartialEq)]
    struct InnerI {
        name: String,
        count: u32,
    }
    impl Eq for InnerI {}

    let hpi0 = InnerI { name: "Hpi0".to_owned(), count: 3 };
    let hpi1 = InnerI { name: "Hpi1".to_owned(), count: 2 };
    let hpi2 = InnerI { name: "Hpi0".to_owned(), count: 3 };

    assert_ne!(hpi0, hpi1);
    assert_eq!(hpi0, hpi2);
    assert_eq!(hpi0, hpi0);

    let hpw0 = HpW::new(hpi0);
    let hpw1 = HpW::new(hpi1);
    let hpw2 = HpW::new(hpi2);

    assert_ne!(hpw0, hpw1);
    assert_eq!(hpw0, hpw2);
    assert_eq!(hpw0, hpw0);
}

#[test]
fn try_out_healthprobeinner() {
    #[derive(Debug)]
    struct InnerI {
        name: String,
        count: u32,
    }
    impl InnerI {
        pub fn kick(&mut self) {
            self.count += 1
        }
    }
    impl HealthProbeInner for InnerI {
        fn name(&self) -> &str {
            &self.name
        }
        fn name_owned(&self) -> String {
            self.name.clone()
        }
        fn check_reply(&self, _time: u64) -> HealthProbeResult {
            HealthProbeResult { name: self.name.clone(), valid: self.count > 0 }
        }
        fn check(&self, _time: u64) -> bool {
            self.count > 0
        }
    }

    let hpi0 = InnerI { name: "Hpi0".to_owned(), count: 3 };
    println!("{:?} is called {}", hpi0, hpi0.name());

    let hw0 = HpW::new(hpi0);
    println!("hw {:?} is called {:?}", hw0, hw0.name());
    hw0.inner_through_lock().unwrap().kick();
    println!("hw {:?} is called {:?}", hw0, hw0.name());
    hw0.inner_through_lock().unwrap().kick();
    println!("hw {:?} is called {:?}", hw0, hw0.name());
    hw0.inner_through_lock().unwrap().kick();
    println!("hw {:?} is called {:?}", hw0, hw0.name());
    assert_eq!(hw0.inner_through_lock().unwrap().count, 6);
}

#[test]
fn manual() {
    println!("Checking kick");

    let now_precreate: u64 = 1_000;
    let manual = Manual::new("mykick_true", true);
    assert!(manual.check(now_precreate));

    let mut manual = Manual::new("mykick_false", false);
    assert!(!manual.check(now_precreate));

    manual.toggle();
    assert!(manual.check(now_precreate));

    manual.disable();
    assert!(!manual.check(now_precreate));

    manual.enable();
    assert!(manual.check(now_precreate));

    manual.set(false);
    assert!(!manual.check(now_precreate));

    manual.set(true);
    assert!(manual.check(now_precreate));

    let mpw = HpW::new(manual);

    assert!(mpw.check(now_precreate));

    mpw.inner_through_lock().unwrap().toggle();
    assert!(!mpw.check(now_precreate));
}

#[test]
fn kick() {
    println!("Checking kick");

    let thirty: u64 = 30_000_000_000;
    let now_precreate = hams::clock::now_nanos();
    let mut kick = Kick::new("mykick", Duration::from_secs(30).as_nanos() as u64);
    let now_postcreate = hams::clock::now_nanos();

    assert!(kick.check(now_precreate + thirty));
    assert!(!kick.check(now_postcreate + thirty));

    kick.kick();
    let now_postkick = hams::clock::now_nanos();
    assert!(kick.check(now_postcreate + thirty));

    let kpw = HpW::new(kick);

    assert!(!kpw.check(now_postkick + thirty));
    kpw.inner_through_lock().unwrap().kick();
    assert!(kpw.check(now_postkick + thirty));
}

#[test]
fn display_of_probe() {
    let probe_result = HealthProbeResult { name: "probe0".to_string(), valid: true };

    assert_eq!("probe0/true", probe_result.to_string());
}

#[test]
fn display_of_check() {
    let check_result_empty = HealthCheckResults(vec![]);
    assert_eq!("[]", check_result_empty.to_string());

    let check_result_single = HealthCheckResults(vec![HealthProbeResult {
        name: "probe0".to_string(),
        valid: true,
    }]);
    assert_eq!("[probe0/true]", check_result_single.to_string());

    let check_result_empty = HealthCheckResults(vec![
        HealthProbeResult { name: "probe0".to_string(), valid: true },
        HealthProbeResult { name: "probe1".to_string(), valid: true },
    ]);
    assert_eq!("[probe0/true,probe1/true]", check_result_empty.to_string());
}

#[test]
fn check_results_valid_and_reply() {
    let results = HealthCheckResults(vec![
        HealthProbeResult { name: "a".to_string(), valid: true },
        HealthProbeResult { name: "b".to_string(), valid: false },
    ]);
    assert!(!results.valid());
    assert_eq!("[a/true,b/false]", results.to_string());
    assert!(HealthCheckResults(vec![]).valid());

    let reply = HealthCheckReply::new("ready", results);
    assert_eq!(reply.name, "ready");
    assert!(!reply.valid);
    assert_eq!(reply.detail.len(), 2);
}

#[test]
fn manual_value_laws_on_values() {
    let mut m = Manual::new("m", false);
    assert!(m.toggle());
    assert!(!m.toggle());
    assert!(!m.check(0));
    assert_eq!(m.name(), "m");
    let reply = m.check_reply(0);
    assert_eq!(reply.name, "m");
    assert!(!reply.valid);
}

#[test]
fn kick_value_window() {
    let mut k = Kick::new_at("k", 10, 100);
    assert!(k.check(110));
    assert!(!k.check(111));
    assert!(k.check(0));
    k.kick_at(200);
    assert!(k.check(210));
    assert!(!k.check(211));
    assert_eq!(k.check_reply(205).name, "k");
}

#[test]
fn hpw_clone_shares_probe() {
    let hw = HpW::new(Manual::new("shared", true));
    let other = hw.clone();
    other.inner_through_lock().unwrap().disable();
    assert!(!hw.check(0));
    assert_eq!(hw.name_owned(), Some("shared".to_string()));
    assert_eq!(hw, other);
}

#[test]
fn hpw_held_guard_is_reported_not_waited_on() {
    let hw = HpW::new(Manual::new("held", true));
    let guard = hw.inner_through_lock().unwrap();
    assert!(hw.inner_through_lock().is_none());
    assert_eq!(hw.name(), None);
    assert_eq!(hw.name_owned(), None);
    assert!(!hw.check(0));
    drop(guard);
    assert_eq!(hw.name(), Some("held".to_string()));
    assert!(hw.check(0));
}

#[derive(Debug, Hash, PartialEq)]
struct TestInner {
    name: String,
    value: bool,
}

impl Eq for TestInner {}

impl TestInner {
    fn toggle(&mut self) {
        self.value = !self.value
    }
}

impl HealthProbeInner for TestInner {
    fn name(&self) -> &str {
        &self.name
    }
    fn name_owned(&self) -> String {
        self.name.clone()
    }
    fn check_reply(&self, _time: u64) -> HealthProbeResult {
        HealthProbeResult { name: self.name.clone(), valid: self.value }
    }
    fn check(&self, _time: u64) -> bool {
        self.value
    }
}

#[test]
fn check_check() {
    let hp_true = TestInner { name: "hp_true".to_owned(), value: true };
    let hp_changing = TestInner { name: "hp_changing".to_owned(), value: true };

    let hw_true = HpW::new(hp_true);
    let hw_changing = HpW::new(hp_changing);

    let mut check = HealthCheck::new("ready");

    let now = hams::clock::now_nanos();
    assert!(check.check(now));
    assert_eq!(check.check_reply(now), CheckReply { name: "ready".to_string(), valid: true });

    check.insert_boxed(hw_true);

    let now = hams::clock::now_nanos();
    assert!(check.check(now));
    assert_eq!(check.check_reply(now), CheckReply { name: "ready".to_string(), valid: true });

    check.insert_boxed(hw_changing.clone());

    let now = hams::clock::now_nanos();
    assert!(check.check(now));
    assert_eq!(check.check_reply(now), CheckReply { name: "ready".to_string(), valid: true });

    hw_changing.inner_through_lock().unwrap().toggle();

    let now = hams::clock::now_nanos();
    assert!(!check.check(now));
    assert_eq!(check.check_reply(now), CheckReply { name: "ready".to_string(), valid: false });

    hw_changing.inner_through_lock().unwrap().toggle();

    let now = hams::clock::now_nanos();
    assert!(check.check(now));
    assert_eq!(check.check_reply(now), CheckReply { name: "ready".to_string(), valid: true });
}

#[test]
fn health_check_keys_probes_by_name() {
    let first = HpW::new(TestInner { name: "p".to_owned(), value: true });
    let same_name = HpW::new(TestInner { name: "p".to_owned(), value: false });
    let mut check = HealthCheck::new("alive");
    assert!(check.insert_boxed(first.clone()));
    assert!(!check.insert_boxed(same_name.clone()));
    assert_eq!(check.len(), 1);
    assert!(check.check(0));
    assert!(check.remove_boxed(&same_name));
    assert_eq!(check.len(), 0);
    assert!(!check.remove_boxed(&first));

    let _held = first.inner_through_lock().unwrap();
    assert!(!check.insert_boxed(first.clone()));
    assert_eq!(check.len(), 0);
}

#[test]
fn health_check_reply_status() {
    assert_eq!(CheckReply { name: "a".to_string(), valid: true }.status_code(), 200);
    assert_eq!(CheckReply { name: "a".to_string(), valid: false }.status_code(), 406);
}
