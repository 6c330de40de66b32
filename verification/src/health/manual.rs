//! A probe switched on and off by hand, held by value.

use vstd::prelude::*;
use crate::health::health_probe::{HealthProbeInner, HealthProbeResult};

verus! {

/// A probe whose state the application sets: enabled, disabled, set or toggled. To
/// keep acting on it while a check holds it, put it behind an
/// [`HpW`](crate::health::health_probe::HpW).
#[derive(Debug, Clone, PartialEq, Eq, Hash)]
pub struct Manual {
    name: String,
    enabled: bool,
}

/// The abstract state of a manual probe: its name and whether it is enabled.
pub struct ManualView {
    /// Name of the probe
    pub name: Seq<char>,
    /// Whether the probe is enabled
    pub enabled: bool,
}

/// The state after a toggle: the same name, the opposite state.
pub open spec fn toggled(v: ManualView) -> ManualView {
    ManualView { name: v.name, enabled: !v.enabled }
}

/// The state after setting it to `value`.
pub open spec fn set_to(v: ManualView, value: bool) -> ManualView {
    ManualView { name: v.name, enabled: value }
}

impl View for Manual {
    type V = ManualView;

    closed spec fn view(&self) -> ManualView {
        ManualView { name: self.name@, enabled: self.enabled }
    }
}

impl Manual {
    /// A probe with the given name and initial state.
    pub fn new(name: &str, enabled: bool) -> (r: Manual)
        ensures
            r@ == (ManualView { name: name@, enabled }),
    {
        Manual { name: name.to_owned(), enabled }
    }

    /// Flips the state and returns the new one.
    pub fn toggle(&mut self) -> (r: bool)
        ensures
            final(self)@ == toggled(old(self)@),
            r == final(self)@.enabled,
    {
        self.enabled = !self.enabled;
        self.enabled
    }

    /// Sets the state.
    pub fn set(&mut self, value: bool)
        ensures
            final(self)@ == set_to(old(self)@, value),
    {
        self.enabled = value;
    }

    /// Enables the probe.
    pub fn enable(&mut self)
        ensures
            final(self)@ == set_to(old(self)@, true),
    {
        self.enabled = true;
    }

    /// Disables the probe.
    pub fn disable(&mut self)
        ensures
            final(self)@ == set_to(old(self)@, false),
    {
        self.enabled = false;
    }
}

impl HealthProbeInner for Manual {
    open spec fn spec_name(&self) -> Seq<char> {
        self@.name
    }

    open spec fn spec_check(&self, time: u64) -> bool {
        self@.enabled
    }

    /// The name of the probe.
    fn name(&self) -> (r: &str)
        ensures
            r@ == self@.name,
    {
        self.name.as_str()
    }

    /// The name of the probe, as an owned string.
    fn name_owned(&self) -> (r: String)
        ensures
            r@ == self@.name,
    {
        self.name.clone()
    }

    /// The name of the probe and its state; the time plays no part.
    fn check_reply(&self, time: u64) -> (r: HealthProbeResult)
        ensures
            r.name@ == self@.name,
            r.valid == self@.enabled,
    {
        HealthProbeResult { name: self.name.clone(), valid: self.check(time) }
    }

    /// The state of the probe; the time plays no part.
    fn check(&self, time: u64) -> (r: bool)
        ensures
            r == self@.enabled,
    {
        self.enabled
    }
}

/// Toggling twice gives back the state a probe had.
pub proof fn law_toggle_twice_restores(v: ManualView)
    ensures
        toggled(toggled(v)) == v,
{
}

/// Enabling and disabling fix the state whatever it was, and setting the state that a
/// probe already has changes nothing.
pub proof fn law_set_overrides(v: ManualView, first: bool, second: bool)
    ensures
        set_to(set_to(v, first), second) == set_to(v, second),
        set_to(v, v.enabled) == v,
        toggled(set_to(v, first)) == set_to(v, !first),
{
}

} // verus!
