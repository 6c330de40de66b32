//! A liveness check that fails when the service has not kicked it within its margin.

use vstd::prelude::*;
use std::sync::Arc;
use std::sync::atomic::{AtomicU64, Ordering};
use crate::clock::now_nanos;
use crate::healthcheck::{HealthCheck, HealthCheckResult};

verus! {

/// Whether a check last kicked at `latest` with a margin of `margin` (nanoseconds) is
/// alive at `time`: up to and including `latest + margin`.
pub open spec fn alive_at(latest: u64, margin: u64, time: u64) -> bool {
    latest + margin >= time
}

/// A snapshot of the state behind an [`AliveCheckKicked`].
#[derive(Debug, Clone, Copy, PartialEq, Eq, Structural)]
pub struct AliveCheckInner {
    /// Time of the last kick, in nanoseconds since the epoch
    pub latest: u64,
}

impl AliveCheckInner {
    /// Whether the check is alive at `time` with this last kick and a margin.
    pub fn alive(&self, margin: u64, time: u64) -> (r: bool)
        ensures
            r == alive_at(self.latest, margin, time),
    {
        (self.latest as u128) + (margin as u128) >= (time as u128)
    }
}

/// A liveness check kicked by the service. Clones share the time of the last kick, so
/// the service kicks one clone while a check holds another.
#[derive(Debug, Clone)]
pub struct AliveCheckKicked {
    /// Name of the check
    pub name: String,
    /// Time allowed between kicks, in nanoseconds
    pub margin: u64,
    /// Time of the last kick, in nanoseconds since the epoch, shared by the clones
    pub latest: Arc<AtomicU64>,
}

impl AliveCheckKicked {
    /// A check with the given name and margin, kicked now.
    pub fn new(name: &str, margin_nanos: u64) -> (r: AliveCheckKicked)
        ensures
            r.name@ == name@,
            r.margin == margin_nanos,
    {
        let now = now_nanos();
        AliveCheckKicked {
            name: name.to_owned(),
            margin: margin_nanos,
            latest: Arc::new(AtomicU64::new(now)),
        }
    }

    /// The state behind the check. It is shared with every clone, which may kick at any
    /// time, so nothing is claimed of it.
    pub fn get_inner(&self) -> AliveCheckInner {
        AliveCheckInner { latest: self.latest.load(Ordering::SeqCst) }
    }

    /// Records a kick now.
    pub fn kick(&self) {
        let now = now_nanos();
        self.latest.store(now, Ordering::SeqCst);
    }
}

impl HealthCheck for AliveCheckKicked {
    open spec fn spec_name(&self) -> Seq<char> {
        self.name@
    }

    /// The name of the check.
    fn get_name(&self) -> (r: &str)
        ensures
            r@ == self.name@,
    {
        self.name.as_str()
    }

    /// The name of the check and whether it is alive at `time`, against the last kick
    /// read at the call: alive up to and including that kick plus the margin.
    fn check(&self, time: u64) -> (r: HealthCheckResult)
        ensures
            r.name@ == self.name@,
            exists|latest: u64| r.valid == alive_at(latest, self.margin, time),
    {
        let inner = self.get_inner();
        HealthCheckResult { name: self.name.clone(), valid: inner.alive(self.margin, time) }
    }
}

} // verus!
