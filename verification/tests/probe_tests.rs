use std::time::{Duration, SystemTime, UNIX_EPOCH};

use hams::error::HamsError;
use hams::probe::dns::DnsProbe;
use hams::probe::http::{expected_codes, AsyncHttpProbe, HttpProbe};
use hams::probe::kick::Kick;
use hams::probe::manual::Manual;
use hams::probe::tcp::TcpProbe;
use hams::probe::{reply_to_result, FFIProbe, HealthProbe, HealthProbeResult};
use hams::probes::{ProbeCustom, ProbeDns, ProbeHttp, ProbeKick, ProbeManual, ProbeTcp};

fn time_now() -> i64 {
    SystemTime::now()
        .duration_since(UNIX_EPOCH)
        .unwrap()
        .as_secs()
        .try_into()
        .unwrap()
}

#[test]
fn mod_test_health_probe_result() {
    let hpr = HealthProbeResult {
        name: "test".to_owned(),
        valid: true,
    };
    assert_eq!(hpr.name, "test");
    assert!(hpr.valid);
}

#[derive(Clone)]
struct Probe0 {
    name: String,
    check: bool,
}

impl HealthProbe for Probe0 {
    fn name(&self) -> String {
        self.name.clone()
    }

    fn check(&self, _time: i64) -> i32 {
        self.check as i32
    }
}

#[test]
fn mod_test_health_probe() {
    let probe = Probe0 {
        name: "test".to_string(),
        check: true,
    };
    assert_eq!(probe.name(), "test");
    assert!(probe.check(time_now()) == 1);
}

#[test]
fn kick_test_kick() {
    let mut probe = Kick::new("test", Duration::from_secs(1).as_secs());

    let time_now = probe.latest;

    assert!(probe.check(time_now) == 1);
    probe.kick();
    assert!(probe.check(time_now) == 1);
    // We can just check the time
    assert!(probe.check(time_now + 2) == 0);
}

#[test]
fn manual_test_manual() {
    let probe = Manual::new("test", true);
    let time_now = time_now();

    assert!(probe.check(time_now) == 1);
    probe.disable();
    assert!(probe.check(time_now) == 0);
    probe.enable();
    assert!(probe.check(time_now) == 1);
    probe.toggle();
    assert!(probe.check(time_now) == 0);
    probe.toggle();
    assert!(probe.check(time_now) == 1);

    drop(probe);
}

#[test]
fn manual_test_manual_clone() {
    let probe = Manual::new("test", true);
    let probe2 = probe.clone();
    let time_now = time_now();

    assert!(probe.check(time_now) == 1);
    assert!(probe2.check(time_now) == 1);
    probe.disable();

    assert!(probe.check(time_now) == 0);
    assert!(probe2.check(time_now) == 0);

    drop(probe);
    drop(probe2);
}

#[test]
fn test_probe_kick() {
    let probe = ProbeKick::new("test_probe_kick", Duration::from_secs(1).as_secs()).unwrap();
    probe.kick().unwrap();

    drop(probe);
}

#[test]
fn test_probe_kick_fail() {
    let probe = ProbeKick::new("test_probe_kick_fail", Duration::from_secs(1).as_secs()).unwrap();
    probe.kick().unwrap();

    drop(probe);
}

#[test]
fn test_manual_probe() {
    let probe_manual = ProbeManual::new("test_probe", true).unwrap();

    assert!(probe_manual.check().unwrap());
    probe_manual.disable().unwrap();
    assert!(!probe_manual.check().unwrap());

    probe_manual.toggle().unwrap();
    assert!(probe_manual.check().unwrap());
    probe_manual.toggle().unwrap();
    assert!(!probe_manual.check().unwrap());

    drop(probe_manual);
}

#[test]
fn probe_result_text() {
    let hpr = HealthProbeResult { name: "probe0".to_owned(), valid: false };
    assert_eq!(hpr.to_string(), "probe0/false");
}

#[test]
fn reply_codes_are_read() {
    assert_eq!(reply_to_result(1), Ok(true));
    assert_eq!(reply_to_result(0), Ok(false));
    assert_eq!(
        reply_to_result(-1),
        Err(HamsError::Message("Error in check probe got value: -1".to_owned()))
    );
    assert_eq!(
        reply_to_result(42),
        Err(HamsError::Message("Error in check probe got value: 42".to_owned()))
    );
}

#[test]
fn ffi_probe_checks_through_the_reply() {
    let ffi = FFIProbe::new(Probe0 { name: "test".to_string(), check: true });
    assert_eq!(ffi.name(), Ok("test".to_string()));
    assert_eq!(ffi.check_at(10), Ok(true));
    assert_eq!(ffi.check(&SystemTime::now()), Ok(true));
    assert_eq!(ffi.check_at(u64::MAX), Err(HamsError::TryFromIntError));

    let before_epoch = UNIX_EPOCH - Duration::from_secs(5);
    assert_eq!(ffi.check(&before_epoch), Err(HamsError::SystemTimeError));

    let off = FFIProbe::new(Probe0 { name: "off".to_string(), check: false });
    assert_eq!(off.check_at(10), Ok(false));
}

#[test]
fn kick_window_on_fixed_times() {
    let mut probe = Kick::new_at("k", 30, 1000);
    assert!(probe.valid_at(1000));
    assert!(probe.valid_at(1029));
    assert!(!probe.valid_at(1030));
    assert_eq!(probe.check(1029), 1);
    assert_eq!(probe.check(1030), 0);
    probe.kick_at(1100);
    assert_eq!(probe.latest, 1100);
    assert!(probe.valid_at(1129));
    assert!(!probe.valid_at(1130));
    assert_eq!(probe.name(), "k");

    let zero = Kick::new_at("zero", 0, 5);
    assert!(!zero.valid_at(5));
    assert!(zero.valid_at(4));
}

#[test]
fn kick_margin_is_whole_seconds() {
    let probe = Kick::new("k", Duration::from_millis(2500).as_secs());
    assert_eq!(probe.margin, 2);
}

#[test]
fn probe_constructors_refuse_nul() {
    assert_eq!(DnsProbe::new("a\0b", "host").unwrap_err(), HamsError::NulError);
    let dns = DnsProbe::new("dns", "example.com").unwrap();
    assert_eq!(dns.host, "example.com");

    assert_eq!(TcpProbe::new("a\0", "127.0.0.1:80", 100, true).unwrap_err(), HamsError::NulError);
    assert_eq!(
        TcpProbe::new("tcp", "nowhere", 100, false).unwrap_err(),
        HamsError::Message("Invalid address: nowhere".to_owned())
    );
    let tcp = TcpProbe::new("tcp", "127.0.0.1:80", 100, true).unwrap();
    assert_eq!(tcp.timeout_ms, 100);

    assert!(ProbeManual::new("x\0", true).is_err());
    assert!(ProbeKick::new("x\0", Duration::from_secs(1).as_secs()).is_err());
    assert!(ProbeDns::new("dns", "h\0").is_err());
    assert!(ProbeDns::new("dns", "host").is_ok());
    assert_eq!(
        ProbeTcp::new("tcp", "nowhere", 100, false).unwrap_err(),
        HamsError::Message("Failed to create Tcp Probe".to_owned())
    );
    assert!(ProbeTcp::new("tcp", "127.0.0.1:80", 100, true).is_ok());
}

#[test]
fn http_probe_parses_and_filters_codes() {
    assert_eq!(
        HttpProbe::new("http", "not a url", None).unwrap_err(),
        HamsError::Message("Invalid URL: relative URL without a base".to_owned())
    );
    assert_eq!(HttpProbe::new("a\0", "http://localhost/", None).unwrap_err(), HamsError::NulError);

    let probe = HttpProbe::new("http", "http://localhost:8080/health", None).unwrap();
    assert_eq!(probe.expected_codes, vec![200]);
    assert!(probe.accepts(200));
    assert!(!probe.accepts(404));

    let probe = HttpProbe::new("http", "http://localhost/", Some(vec![204, 5, 302, 1000])).unwrap();
    assert_eq!(probe.expected_codes, vec![204, 302]);
    assert!(probe.accepts(302));
    assert!(!probe.accepts(200));

    assert_eq!(expected_codes(Some(vec![])), Vec::<u16>::new());
    assert_eq!(expected_codes(Some(vec![100, 999, 99])), vec![100, 999]);

    let a = AsyncHttpProbe::new("a", "https://example.com/", None, None).unwrap();
    assert_eq!(a.timeout_ms, 5000);
    assert_eq!(a.expected_codes, vec![200]);
    let a = AsyncHttpProbe::new("a", "https://example.com/", Some(vec![201]), Some(10)).unwrap();
    assert_eq!(a.timeout_ms, 10);
    assert!(a.accepts(201));
    assert!(AsyncHttpProbe::new("a", "::", None, None).is_err());

    assert_eq!(
        ProbeHttp::new("h", "not a url", None).unwrap_err(),
        HamsError::Message("Failed to create Http Probe".to_owned())
    );
    let empty: &[u16] = &[];
    let p = ProbeHttp::new("h", "http://localhost/", Some(empty)).unwrap();
    assert_eq!(p.inner.probe.expected_codes, vec![200]);
    let p = ProbeHttp::new("h", "http://localhost/", Some(&[404u16][..])).unwrap();
    assert_eq!(p.inner.probe.expected_codes, vec![404]);
}

#[test]
fn kick_handle_snapshot_follows_kicks() {
    let probe = ProbeKick::new("snap", Duration::from_secs(60).as_secs()).unwrap();
    let snap = probe.inner.snapshot();
    assert_eq!(snap.name, "snap");
    assert_eq!(snap.margin, 60);
    assert_eq!(snap.check(snap.latest), 1);
    assert_eq!(snap.check(snap.latest + 60), 0);
}

#[test]
fn manual_handle_probe_shares_state() {
    let handle = ProbeManual::new("shared", true).unwrap();
    let probe = handle.probe();
    assert_eq!(probe.name(), "shared");
    assert_eq!(probe.check(0), 1);
    handle.disable().unwrap();
    assert_eq!(probe.check(0), 0);
    assert!(!probe.is_enabled());
}

#[test]
fn test_custom_probe() {
    let mut probe = ProbeCustom::new("test", true).unwrap();
    assert_eq!(probe.name(), "test");
    assert!(probe.check().unwrap());
    probe.disable().unwrap();
    assert!(!probe.check().unwrap());
    probe.enable().unwrap();
    assert!(probe.check().unwrap());
    probe.toggle().unwrap();
    assert!(!probe.check().unwrap());
}

#[test]
fn custom_probe_clones_share_state() {
    let mut probe = ProbeCustom::new("shared", false).unwrap();
    let clone = probe.clone();
    probe.toggle().unwrap();
    assert!(clone.check().unwrap());
}

fn assert_send_sync<T: Send + Sync>(_: &T) {}

#[test]
fn test_manual_probe_send_sync() {
    let probe = ProbeManual::new("test_manual_send_sync", true).unwrap();
    assert_send_sync(&probe);

    let probe_clone = probe.clone();
    probe_clone.toggle().unwrap();

    assert_eq!(probe.check().unwrap(), false);
}

#[test]
fn test_kick_probe_send_sync() {
    let probe = ProbeKick::new("test_kick_send_sync", Duration::from_secs(1).as_secs()).unwrap();
    assert_send_sync(&probe);

    let probe_clone = probe.clone();
    probe_clone.kick().unwrap();
}

#[test]
fn probe_handles_keep_what_they_were_given() {
    let tcp = ProbeTcp::new("tcp", "127.0.0.1:80", 250, true).unwrap();
    assert_eq!(tcp.inner.probe.name, "tcp");
    assert_eq!(tcp.inner.probe.addr, "127.0.0.1:80");
    assert_eq!(tcp.inner.probe.timeout_ms, 250);

    let http = ProbeHttp::new("h", "http://localhost:8080/health", Some(&[204u16, 42][..])).unwrap();
    assert_eq!(http.inner.probe.url, "http://localhost:8080/health");
    assert_eq!(http.inner.probe.expected_codes, vec![204]);

    let dns = ProbeDns::new("dns", "example.com").unwrap();
    assert_eq!(dns.inner.probe.host, "example.com");
}

#[test]
fn kick_margins_are_the_ones_given() {
    let probe = Kick::new("k", 7);
    assert_eq!(probe.margin, 7);
    assert_eq!(probe.check(probe.latest + 6), 1);
    assert_eq!(probe.check(probe.latest + 7), 0);
    let handle = ProbeKick::new("h", 9).unwrap();
    assert_eq!(handle.inner.margin, 9);
}
