//! A probe that fails when it has not been kicked for longer than its margin: a dead
//! man's handle.

use vstd::prelude::*;
use crate::clock::now_time_t;
use crate::probe::HealthProbe;

verus! {

/// Whether a probe last kicked at `latest` (seconds since the epoch) with a margin of
/// `margin` seconds is still healthy at `time`: strictly before `latest + margin`.
pub open spec fn kick_valid(latest: i64, margin: u64, time: i64) -> bool {
    time < latest + margin
}

/// A probe that stays healthy while it is kicked within its margin.
#[derive(Debug, Clone, PartialEq, Eq, Hash)]
pub struct Kick {
    /// Name of the probe
    pub name: String,
    /// Time of the last kick, in seconds since the epoch
    pub latest: i64,
    /// Time allowed between kicks, in whole seconds
    pub margin: u64,
}

impl Kick {
    /// A probe with the given name and margin, kicked at `now` (seconds since the epoch).
    pub fn new_at(name: &str, margin: u64, now: i64) -> (r: Kick)
        ensures
            r.name@ == name@,
            r.margin == margin,
            r.latest == now,
    {
        Kick { name: name.to_owned(), latest: now, margin }
    }

    /// A probe with the given name and margin in whole seconds, kicked now; a clock that
    /// cannot be read as seconds since the epoch reads as 0.
    pub fn new(name: &str, margin_secs: u64) -> (r: Kick)
        ensures
            r.name@ == name@,
            r.margin == margin_secs,
            r.latest >= 0,
            call_ensures(now_time_t, (), r.latest),
    {
        Kick::new_at(name, margin_secs, now_time_t())
    }

    /// Records a kick at `now` (seconds since the epoch).
    pub fn kick_at(&mut self, now: i64)
        ensures
            final(self).latest == now,
            final(self).name == old(self).name,
            final(self).margin == old(self).margin,
    {
        self.latest = now;
    }

    /// Records a kick now.
    pub fn kick(&mut self)
        ensures
            final(self).latest >= 0,
            call_ensures(now_time_t, (), final(self).latest),
            final(self).name == old(self).name,
            final(self).margin == old(self).margin,
    {
        let now = now_time_t();
        self.kick_at(now);
    }

    /// Whether the probe is healthy at `time`.
    pub fn valid_at(&self, time: i64) -> (r: bool)
        ensures
            r == kick_valid(self.latest, self.margin, time),
    {
        (time as i128) < (self.latest as i128) + (self.margin as i128)
    }
}

impl HealthProbe for Kick {
    /// The name of the probe.
    fn name(&self) -> (r: String)
        ensures
            r@ == self.name@,
    {
        self.name.clone()
    }

    /// 1 when healthy at `time`, 0 when not.
    fn check(&self, time: i64) -> (r: i32)
        ensures
            r == (if kick_valid(self.latest, self.margin, time) { 1i32 } else { 0i32 }),
    {
        if self.valid_at(time) { 1 } else { 0 }
    }
}

/// A probe is healthy right after a kick as long as its margin is not zero, and fails
/// once the margin has passed since the last kick.
pub proof fn law_kick_window(latest: i64, margin: u64, time: i64)
    ensures
        margin > 0 ==> kick_valid(latest, margin, latest),
        time >= latest + margin ==> !kick_valid(latest, margin, time),
        time < latest ==> kick_valid(latest, margin, time),
{
}

} // verus!
