//! A probe that fails when not kicked within its margin, held by value, on a clock
//! counted in nanoseconds.

use vstd::prelude::*;
use crate::clock::now_nanos;
use crate::health::health_probe::{HealthProbeInner, HealthProbeResult};

verus! {

/// Whether a probe last kicked at `latest` with a margin of `margin` (nanoseconds) is
/// valid at `time`: up to and including `latest + margin`.
pub open spec fn kick_alive(latest: u64, margin: u64, time: u64) -> bool {
    latest + margin >= time
}

/// Whether a probe is valid at a time, in nanoseconds.
pub fn kick_alive_at(latest: u64, margin: u64, time: u64) -> (r: bool)
    ensures
        r == kick_alive(latest, margin, time),
{
    (latest as u128) + (margin as u128) >= (time as u128)
}

/// A probe that stays valid while it is kicked within its margin.
#[derive(Debug, Clone, PartialEq, Eq, Hash)]
pub struct Kick {
    /// Name of the probe
    pub name: String,
    /// Time of the last kick, in nanoseconds since the epoch
    pub latest: u64,
    /// Time allowed between kicks, in nanoseconds
    pub margin: u64,
}

impl Kick {
    /// A probe kicked at `now`.
    pub fn new_at(name: &str, margin: u64, now: u64) -> (r: Kick)
        ensures
            r.name@ == name@,
            r.margin == margin,
            r.latest == now,
    {
        Kick { name: name.to_owned(), latest: now, margin }
    }

    /// A probe with the given name and margin in nanoseconds, kicked now.
    pub fn new(name: &str, margin_nanos: u64) -> (r: Kick)
        ensures
            r.name@ == name@,
            r.margin == margin_nanos,
    {
        Kick::new_at(name, margin_nanos, now_nanos())
    }

    /// Records a kick at `now`.
    pub fn kick_at(&mut self, now: u64)
        ensures
            final(self).latest == now,
            final(self).name == old(self).name,
            final(self).margin == old(self).margin,
    {
        self.latest = now;
    }

    /// Records a kick now.
    pub fn kick(&mut self)
        ensures
            final(self).name == old(self).name,
            final(self).margin == old(self).margin,
    {
        let now = now_nanos();
        self.kick_at(now);
    }
}

impl HealthProbeInner for Kick {
    open spec fn spec_name(&self) -> Seq<char> {
        self.name@
    }

    open spec fn spec_check(&self, time: u64) -> bool {
        kick_alive(self.latest, self.margin, time)
    }

    /// The name of the probe.
    fn name(&self) -> (r: &str)
        ensures
            r@ == self.name@,
    {
        self.name.as_str()
    }

    /// The name of the probe, as an owned string.
    fn name_owned(&self) -> (r: String)
        ensures
            r@ == self.name@,
    {
        self.name.clone()
    }

    /// The name of the probe and whether it is valid at `time`.
    fn check_reply(&self, time: u64) -> (r: HealthProbeResult)
        ensures
            r.name@ == self.name@,
            r.valid == kick_alive(self.latest, self.margin, time),
    {
        HealthProbeResult { name: self.name.clone(), valid: self.check(time) }
    }

    /// Whether the probe is valid at `time`.
    fn check(&self, time: u64) -> (r: bool)
        ensures
            r == kick_alive(self.latest, self.margin, time),
    {
        kick_alive_at(self.latest, self.margin, time)
    }
}

/// A probe is valid up to its margin after a kick and invalid past it, and a later kick
/// keeps it valid at least as long.
pub proof fn law_kick_margin(latest: u64, margin: u64, later: u64, time: u64)
    ensures
        latest + margin <= u64::MAX ==> kick_alive(latest, margin, (latest + margin) as u64),
        time > latest + margin ==> !kick_alive(latest, margin, time),
        later >= latest && kick_alive(latest, margin, time) ==> kick_alive(later, margin, time),
{
}

} // verus!
