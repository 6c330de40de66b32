//! Probes for applications: handles that can be cloned, shared between threads and
//! handed to the service, each created with the checks that a C caller would meet.

use vstd::prelude::*;
use vstd::slice::slice_to_vec;
use vstd::string::*;
use std::sync::Arc;
use std::sync::atomic::{AtomicBool, AtomicI64, Ordering};
use crate::clock::now_time_t;
use crate::error::HamsError;
use crate::probe::dns::DnsProbe;
use crate::probe::http::{HttpProbe, spec_expected_codes, url_parse_error};
use crate::probe::kick::{Kick, kick_valid};
use crate::probe::manual::{Manual, cell_made, cell_loaded, cell_stored, cell_flipped};
use crate::probe::tcp::TcpProbe;
use crate::text::has_nul;

verus! {

/// Whether `cell` is the cell that `AtomicI64::new` made holding `v`.
pub open spec fn time_cell_made(cell: AtomicI64, v: i64) -> bool {
    call_ensures(AtomicI64::new, (v,), cell)
}

/// Whether `v` was stored in `cell` by a sequentially consistent store.
pub open spec fn time_cell_stored(cell: AtomicI64, v: i64) -> bool {
    call_ensures(AtomicI64::store, (&cell, v, Ordering::SeqCst), ())
}

/// Whether `v` is what a sequentially consistent load of `cell` gave.
pub open spec fn time_cell_loaded(cell: AtomicI64, v: i64) -> bool {
    call_ensures(AtomicI64::load, (&cell, Ordering::SeqCst), v)
}

/// The state behind a [`ProbeManual`].
#[derive(Debug)]
pub struct ProbeManualInner {
    /// The probe
    pub probe: Manual,
}

impl ProbeManualInner {
    /// A manual probe; `NulError` when the name holds a NUL.
    pub fn new(name: &str, valid: bool) -> (r: Result<ProbeManualInner, HamsError>)
        ensures
            name@.contains('\0') <==> r is Err,
            r is Err ==> r == Err::<ProbeManualInner, HamsError>(HamsError::NulError),
            r matches Ok(p) ==> p.probe.spec_name() == name@ && cell_made(p.probe.state_cell(), valid),
    {
        if has_nul(name) {
            return Err(HamsError::NulError);
        }
        Ok(ProbeManualInner { probe: Manual::new(name, valid) })
    }

    /// Marks the probe healthy.
    pub fn enable(&self) -> (r: Result<(), HamsError>)
        ensures
            r is Ok,
            cell_stored(self.probe.state_cell(), true),
    {
        self.probe.enable();
        Ok(())
    }

    /// Marks the probe unhealthy.
    pub fn disable(&self) -> (r: Result<(), HamsError>)
        ensures
            r is Ok,
            cell_stored(self.probe.state_cell(), false),
    {
        self.probe.disable();
        Ok(())
    }

    /// Flips the probe's state.
    pub fn toggle(&self) -> (r: Result<(), HamsError>)
        ensures
            r is Ok,
            cell_flipped(self.probe.state_cell()),
    {
        self.probe.toggle();
        Ok(())
    }

    /// Whether the probe is healthy: the value read from its state cell. The state is
    /// shared with every clone, which may change it at any time.
    pub fn check(&self) -> (r: Result<bool, HamsError>)
        ensures
            r matches Ok(b) && cell_loaded(self.probe.state_cell(), b),
    {
        Ok(self.probe.is_enabled())
    }
}

/// A probe that the application switches on and off; clones share its state.
#[derive(Debug, Clone)]
pub struct ProbeManual {
    /// The shared state
    pub inner: Arc<ProbeManualInner>,
}

impl ProbeManual {
    /// A manual probe; `NulError` when the name holds a NUL.
    pub fn new(name: &str, valid: bool) -> (r: Result<ProbeManual, HamsError>)
        ensures
            name@.contains('\0') <==> r is Err,
            r is Err ==> r == Err::<ProbeManual, HamsError>(HamsError::NulError),
            r matches Ok(p) ==> p.inner.probe.spec_name() == name@ && cell_made(p.inner.probe.state_cell(), valid),
    {
        match ProbeManualInner::new(name, valid) {
            Ok(inner) => Ok(ProbeManual { inner: Arc::new(inner) }),
            Err(e) => Err(e),
        }
    }

    /// Marks the probe healthy.
    pub fn enable(&self) -> (r: Result<(), HamsError>)
        ensures
            r is Ok,
            cell_stored(self.inner.probe.state_cell(), true),
    {
        self.inner.enable()
    }

    /// Marks the probe unhealthy.
    pub fn disable(&self) -> (r: Result<(), HamsError>)
        ensures
            r is Ok,
            cell_stored(self.inner.probe.state_cell(), false),
    {
        self.inner.disable()
    }

    /// Flips the probe's state.
    pub fn toggle(&self) -> (r: Result<(), HamsError>)
        ensures
            r is Ok,
            cell_flipped(self.inner.probe.state_cell()),
    {
        self.inner.toggle()
    }

    /// Whether the probe is healthy: the value read from its state cell, which every
    /// clone shares.
    pub fn check(&self) -> (r: Result<bool, HamsError>)
        ensures
            r matches Ok(b) && cell_loaded(self.inner.probe.state_cell(), b),
    {
        self.inner.check()
    }

    /// The probe, to hand to a check; it shares its state with this handle.
    pub fn probe(&self) -> (r: Manual)
        ensures
            r.spec_name() == self.inner.probe.spec_name(),
            r.state_cell() == self.inner.probe.state_cell(),
    {
        self.inner.probe.clone()
    }
}

/// The state behind a [`ProbeKick`].
#[derive(Debug)]
pub struct ProbeKickInner {
    /// Name of the probe
    pub name: String,
    /// Time allowed between kicks, in whole seconds
    pub margin: u64,
    /// Time of the last kick, in seconds since the epoch
    pub latest: AtomicI64,
}

impl ProbeKickInner {
    /// A kick probe, kicked now; `NulError` when the name holds a NUL.
    pub fn new(name: &str, margin_secs: u64) -> (r: Result<ProbeKickInner, HamsError>)
        ensures
            name@.contains('\0') <==> r is Err,
            r is Err ==> r == Err::<ProbeKickInner, HamsError>(HamsError::NulError),
            r matches Ok(p) ==> p.name@ == name@ && p.margin == margin_secs
                && exists|t: i64| call_ensures(now_time_t, (), t) && time_cell_made(p.latest, t),
    {
        if has_nul(name) {
            return Err(HamsError::NulError);
        }
        let now = now_time_t();
        let latest = AtomicI64::new(now);
        let p = ProbeKickInner { name: name.to_owned(), margin: margin_secs, latest };
        assert(call_ensures(now_time_t, (), now) && time_cell_made(p.latest, now));
        Ok(p)
    }

    /// Records a kick now: the clock reading is stored as the time of the last kick.
    pub fn kick(&self) -> (r: Result<(), HamsError>)
        ensures
            r is Ok,
            exists|t: i64| call_ensures(now_time_t, (), t) && time_cell_stored(self.latest, t),
    {
        let now = now_time_t();
        self.latest.store(now, Ordering::SeqCst);
        assert(call_ensures(now_time_t, (), now) && time_cell_stored(self.latest, now));
        Ok(())
    }

    /// The probe as it stands now, to hand to a check. Later kicks do not reach it.
    pub fn snapshot(&self) -> (r: Kick)
        ensures
            r.name@ == self.name@,
            r.margin == self.margin,
            time_cell_loaded(self.latest, r.latest),
    {
        let latest = self.latest.load(Ordering::SeqCst);
        Kick::new_at(self.name.as_str(), self.margin, latest)
    }
}

/// A kick is what a later snapshot reports: a kick stores the clock reading `t` as the
/// time of the last kick, a snapshot reports the time it loads from that same cell with
/// the probe's name and margin, and a snapshot that reads back `t` is healthy at `t`
/// whenever the margin is not zero and unhealthy from `t + margin` on.
pub proof fn law_kick_is_what_a_snapshot_reports(p: ProbeKickInner, k: Result<(), HamsError>, s: Kick, time: i64)
    requires
        call_ensures(ProbeKickInner::kick, (&p,), k),
        call_ensures(ProbeKickInner::snapshot, (&p,), s),
    ensures
        k is Ok,
        s.name@ == p.name@,
        s.margin == p.margin,
        time_cell_loaded(p.latest, s.latest),
        exists|t: i64| call_ensures(now_time_t, (), t) && time_cell_stored(p.latest, t)
            && (s.latest == t && p.margin > 0 ==> kick_valid(s.latest, s.margin, t))
            && (s.latest == t && time >= t + p.margin ==> !kick_valid(s.latest, s.margin, time)),
{
}

/// A probe that the application must kick within its margin to stay healthy, as a
/// watchdog; clones share it.
#[derive(Debug, Clone)]
pub struct ProbeKick {
    /// The shared state
    pub inner: Arc<ProbeKickInner>,
}

impl ProbeKick {
    /// A kick probe, kicked now; `NulError` when the name holds a NUL.
    pub fn new(name: &str, margin_secs: u64) -> (r: Result<ProbeKick, HamsError>)
        ensures
            name@.contains('\0') <==> r is Err,
            r is Err ==> r == Err::<ProbeKick, HamsError>(HamsError::NulError),
            r matches Ok(p) ==> p.inner.name@ == name@ && p.inner.margin == margin_secs
                && exists|t: i64| call_ensures(now_time_t, (), t) && time_cell_made(p.inner.latest, t),
    {
        match ProbeKickInner::new(name, margin_secs) {
            Ok(inner) => Ok(ProbeKick { inner: Arc::new(inner) }),
            Err(e) => Err(e),
        }
    }

    /// Records a kick now: the clock reading is stored as the time of the last kick.
    pub fn kick(&self) -> (r: Result<(), HamsError>)
        ensures
            r is Ok,
            exists|t: i64| call_ensures(now_time_t, (), t) && time_cell_stored(self.inner.latest, t),
    {
        self.inner.kick()
    }
}

/// The state behind a [`ProbeDns`].
#[derive(Debug)]
pub struct ProbeDnsInner {
    /// The probe
    pub probe: DnsProbe,
}

impl ProbeDnsInner {
    /// A DNS probe; `NulError` when the name or the host holds a NUL.
    pub fn new(name: &str, host: &str) -> (r: Result<ProbeDnsInner, HamsError>)
        ensures
            (name@.contains('\0') || host@.contains('\0')) <==> r is Err,
            r is Err ==> r == Err::<ProbeDnsInner, HamsError>(HamsError::NulError),
            r matches Ok(p) ==> p.probe.name@ == name@ && p.probe.host@ == host@,
    {
        if has_nul(name) || has_nul(host) {
            return Err(HamsError::NulError);
        }
        match DnsProbe::new(name, host) {
            Ok(probe) => Ok(ProbeDnsInner { probe }),
            Err(e) => Err(e),
        }
    }
}

/// A probe that a host name resolves; clones share it.
#[derive(Debug, Clone)]
pub struct ProbeDns {
    /// The shared probe
    pub inner: Arc<ProbeDnsInner>,
}

impl ProbeDns {
    /// A DNS probe; `NulError` when the name or the host holds a NUL.
    pub fn new(name: &str, host: &str) -> (r: Result<ProbeDns, HamsError>)
        ensures
            (name@.contains('\0') || host@.contains('\0')) <==> r is Err,
            r is Err ==> r == Err::<ProbeDns, HamsError>(HamsError::NulError),
            r matches Ok(p) ==> p.inner.probe.name@ == name@ && p.inner.probe.host@ == host@,
    {
        match ProbeDnsInner::new(name, host) {
            Ok(inner) => Ok(ProbeDns { inner: Arc::new(inner) }),
            Err(e) => Err(e),
        }
    }
}

/// The state behind a [`ProbeTcp`].
#[derive(Debug)]
pub struct ProbeTcpInner {
    /// The probe
    pub probe: TcpProbe,
}

impl ProbeTcpInner {
    /// A TCP probe, given whether the address resolves: `NulError` when the name or the
    /// address holds a NUL; `Failed to create Tcp Probe` when the address does not resolve.
    pub fn new(name: &str, addr: &str, timeout_ms: u64, addr_resolves: bool) -> (r: Result<ProbeTcpInner, HamsError>)
        ensures
            (name@.contains('\0') || addr@.contains('\0'))
                ==> r == Err::<ProbeTcpInner, HamsError>(HamsError::NulError),
            !(name@.contains('\0') || addr@.contains('\0')) && !addr_resolves
                ==> (r matches Err(HamsError::Message(m)) && m@ == "Failed to create Tcp Probe"@),
            r is Ok <==> !(name@.contains('\0') || addr@.contains('\0')) && addr_resolves,
            r matches Ok(p) ==> p.probe.name@ == name@ && p.probe.addr@ == addr@
                && p.probe.timeout_ms == timeout_ms,
    {
        if has_nul(name) || has_nul(addr) {
            return Err(HamsError::NulError);
        }
        match TcpProbe::new(name, addr, timeout_ms, addr_resolves) {
            Ok(probe) => Ok(ProbeTcpInner { probe }),
            Err(_) => Err(HamsError::Message(String::from_str("Failed to create Tcp Probe"))),
        }
    }
}

/// A probe that a TCP connection opens; clones share it.
#[derive(Debug, Clone)]
pub struct ProbeTcp {
    /// The shared probe
    pub inner: Arc<ProbeTcpInner>,
}

impl ProbeTcp {
    /// A TCP probe, given whether the address resolves; errors as
    /// [`ProbeTcpInner::new`].
    pub fn new(name: &str, addr: &str, timeout_ms: u64, addr_resolves: bool) -> (r: Result<ProbeTcp, HamsError>)
        ensures
            (name@.contains('\0') || addr@.contains('\0'))
                ==> r == Err::<ProbeTcp, HamsError>(HamsError::NulError),
            !(name@.contains('\0') || addr@.contains('\0')) && !addr_resolves
                ==> (r matches Err(HamsError::Message(m)) && m@ == "Failed to create Tcp Probe"@),
            r is Ok <==> !(name@.contains('\0') || addr@.contains('\0')) && addr_resolves,
            r matches Ok(p) ==> p.inner.probe.name@ == name@ && p.inner.probe.addr@ == addr@
                && p.inner.probe.timeout_ms == timeout_ms,
    {
        match ProbeTcpInner::new(name, addr, timeout_ms, addr_resolves) {
            Ok(inner) => Ok(ProbeTcp { inner: Arc::new(inner) }),
            Err(e) => Err(e),
        }
    }
}

/// The codes handed to an HTTP probe: an empty list counts as none given.
pub open spec fn given_codes(codes: Option<&[u16]>) -> Option<Seq<u16>> {
    match codes {
        Some(c) => if c@.len() > 0 { Some(c@) } else { None },
        None => None,
    }
}

/// The state behind a [`ProbeHttp`].
#[derive(Debug)]
pub struct ProbeHttpInner {
    /// The probe
    pub probe: HttpProbe,
}

impl ProbeHttpInner {
    /// An HTTP probe: `NulError` when the name or the URL holds a NUL; `Failed to create
    /// Http Probe` when the URL does not parse. An empty list of codes counts as none
    /// given, so 200 alone is accepted.
    pub fn new(name: &str, url: &str, codes: Option<&[u16]>) -> (r: Result<ProbeHttpInner, HamsError>)
        ensures
            (name@.contains('\0') || url@.contains('\0'))
                ==> r == Err::<ProbeHttpInner, HamsError>(HamsError::NulError),
            !(name@.contains('\0') || url@.contains('\0')) && url_parse_error(url@) is Some
                ==> (r matches Err(HamsError::Message(m)) && m@ == "Failed to create Http Probe"@),
            r is Ok <==> !(name@.contains('\0') || url@.contains('\0')) && url_parse_error(url@) is None,
            r matches Ok(p) ==> p.probe.name@ == name@ && p.probe.url@ == url@
                && p.probe.expected_codes@ == spec_expected_codes(given_codes(codes)),
    {
        if has_nul(name) || has_nul(url) {
            return Err(HamsError::NulError);
        }
        let expected: Option<Vec<u16>> = match codes {
            Some(c) => if c.len() > 0 { Some(slice_to_vec(c)) } else { None },
            None => None,
        };
        match HttpProbe::new(name, url, expected) {
            Ok(probe) => Ok(ProbeHttpInner { probe }),
            Err(_) => Err(HamsError::Message(String::from_str("Failed to create Http Probe"))),
        }
    }
}

/// A probe that an HTTP endpoint answers with an expected status; clones share it.
#[derive(Debug, Clone)]
pub struct ProbeHttp {
    /// The shared probe
    pub inner: Arc<ProbeHttpInner>,
}

impl ProbeHttp {
    /// An HTTP probe; errors as [`ProbeHttpInner::new`].
    pub fn new(name: &str, url: &str, codes: Option<&[u16]>) -> (r: Result<ProbeHttp, HamsError>)
        ensures
            (name@.contains('\0') || url@.contains('\0'))
                ==> r == Err::<ProbeHttp, HamsError>(HamsError::NulError),
            !(name@.contains('\0') || url@.contains('\0')) && url_parse_error(url@) is Some
                ==> (r matches Err(HamsError::Message(m)) && m@ == "Failed to create Http Probe"@),
            r is Ok <==> !(name@.contains('\0') || url@.contains('\0')) && url_parse_error(url@) is None,
            r matches Ok(p) ==> p.inner.probe.name@ == name@ && p.inner.probe.url@ == url@
                && p.inner.probe.expected_codes@ == spec_expected_codes(given_codes(codes)),
    {
        match ProbeHttpInner::new(name, url, codes) {
            Ok(inner) => Ok(ProbeHttp { inner: Arc::new(inner) }),
            Err(e) => Err(e),
        }
    }
}

/// A probe whose state the application keeps: set healthy, unhealthy or flipped. Clones
/// share the state.
#[derive(Debug, Clone)]
pub struct ProbeCustom {
    name: String,
    valid: Arc<AtomicBool>,
}

impl ProbeCustom {
    /// The name of the probe.
    pub closed spec fn spec_name(&self) -> Seq<char> {
        self.name@
    }

    /// A probe with the given name and initial state. The name must be a valid C string.
    pub fn new(name: &str, valid: bool) -> (r: Result<ProbeCustom, HamsError>)
        requires
            !name@.contains('\0'),
        ensures
            r matches Ok(p) && p.spec_name() == name@,
    {
        Ok(ProbeCustom { name: name.to_owned(), valid: Arc::new(AtomicBool::new(valid)) })
    }

    /// The name of the probe.
    pub fn name(&self) -> (r: String)
        ensures
            r@ == self.spec_name(),
    {
        self.name.clone()
    }

    /// Marks the probe healthy.
    pub fn enable(&mut self) -> (r: Result<(), HamsError>)
        ensures
            r is Ok,
            final(self).spec_name() == old(self).spec_name(),
    {
        self.valid.store(true, Ordering::Relaxed);
        Ok(())
    }

    /// Marks the probe unhealthy.
    pub fn disable(&mut self) -> (r: Result<(), HamsError>)
        ensures
            r is Ok,
            final(self).spec_name() == old(self).spec_name(),
    {
        self.valid.store(false, Ordering::Relaxed);
        Ok(())
    }

    /// Flips the probe's state in one atomic step.
    pub fn toggle(&mut self) -> (r: Result<(), HamsError>)
        ensures
            r is Ok,
            final(self).spec_name() == old(self).spec_name(),
    {
        self.valid.fetch_xor(true, Ordering::Relaxed);
        Ok(())
    }

    /// Whether the probe is healthy. The state is shared with every clone, which may
    /// change it at any time, so nothing is claimed of the value.
    pub fn check(&self) -> (r: Result<bool, HamsError>)
        ensures
            r is Ok,
    {
        Ok(self.valid.load(Ordering::Relaxed))
    }
}

} // verus!
