//! A check of the health module: probes behind shared handles, told apart by the name
//! each gives when it is added, valid when every probe answers that it is.

use vstd::prelude::*;
use crate::hams::check::{entry_names, HealthCheck as NamedProbes};
use crate::health::health_probe::HealthProbe;

verus! {

/// The reply of a check of the health module: its name and whether it is valid.
#[derive(Debug, Clone, PartialEq, Eq)]
pub struct HealthCheckReply {
    /// Name of the check
    pub name: String,
    /// Whether every probe answered valid
    pub valid: bool,
}

impl HealthCheckReply {
    /// The HTTP status of the reply: 200 (OK) when valid, 406 (not acceptable) when not.
    pub fn status_code(&self) -> (r: u16)
        ensures
            r == (if self.valid { 200u16 } else { 406u16 }),
    {
        if self.valid { 200 } else { 406 }
    }
}

/// A named collection of probes, each kept under the name it gave when it was added.
pub struct HealthCheck<P> {
    probes: NamedProbes<P>,
}

impl<P: HealthProbe> HealthCheck<P> {
    /// The probes with their names, in the order they were added.
    pub closed spec fn entries(&self) -> Seq<(String, P)> {
        self.probes.entries()
    }

    /// The name of the check.
    pub closed spec fn spec_name(&self) -> Seq<char> {
        self.probes.spec_name()
    }

    /// A check with the given name and no probes.
    pub fn new(name: &str) -> (r: Self)
        ensures
            r.spec_name() == name@,
            r.entries() == Seq::<(String, P)>::empty(),
    {
        HealthCheck { probes: NamedProbes::new(name) }
    }

    /// Adds a probe under the name it gives now. Returns true when it was added; a probe
    /// whose name is taken, or cannot be read at the moment, is not added and the check
    /// is left as it was.
    pub fn insert_boxed(&mut self, newval: P) -> (r: bool)
        ensures
            r ==> exists|n: String|
                call_ensures(P::name_owned, (&newval,), Some(n))
                && !entry_names(old(self).entries()).contains(n@)
                && final(self).entries() == old(self).entries().push((n, newval)),
            !r ==> final(self).entries() == old(self).entries(),
            final(self).spec_name() == old(self).spec_name(),
    {
        match newval.name_owned() {
            Some(n) => self.probes.insert(n, newval),
            None => false,
        }
    }

    /// Takes out the probe kept under the name that `value` gives now. Returns true when
    /// there was one; else the check is left as it was.
    pub fn remove_boxed(&mut self, value: &P) -> (r: bool)
        ensures
            r ==> exists|n: String|
                call_ensures(P::name_owned, (value,), Some(n))
                && entry_names(old(self).entries()).contains(n@)
                && final(self).entries() == crate::hams::check::removed(old(self).entries(), n@),
            !r ==> final(self).entries() == old(self).entries(),
            final(self).spec_name() == old(self).spec_name(),
    {
        match value.name_owned() {
            Some(n) => self.probes.remove(n.as_str()),
            None => false,
        }
    }

    /// The number of probes.
    pub fn len(&self) -> (r: usize)
        ensures
            r == self.entries().len(),
    {
        self.probes.len()
    }

    /// Whether the check is valid at a time: true when every probe answered true, false
    /// when one answered false.
    pub fn check(&self, now: u64) -> (r: bool)
        ensures
            r ==> forall|i: int| 0 <= i < self.entries().len()
                ==> call_ensures(P::check, (&#[trigger] self.entries()[i].1, now), true),
            !r ==> exists|i: int| 0 <= i < self.entries().len()
                && call_ensures(P::check, (&#[trigger] self.entries()[i].1, now), false),
    {
        let probes = self.probes.probes();
        let mut i: usize = 0;
        while i < probes.len()
            invariant
                probes@ == self.entries(),
                i <= probes@.len(),
                forall|j: int| 0 <= j < i
                    ==> call_ensures(P::check, (&#[trigger] probes@[j].1, now), true),
            decreases probes@.len() - i,
        {
            let valid = probes[i].1.check(now);
            if !valid {
                return false;
            }
            i = i + 1;
        }
        true
    }

    /// The reply of the check at a time: its name and [`HealthCheck::check`].
    pub fn check_reply(&self, now: u64) -> (r: HealthCheckReply)
        ensures
            r.name@ == self.spec_name(),
            r.valid ==> forall|i: int| 0 <= i < self.entries().len()
                ==> call_ensures(P::check, (&#[trigger] self.entries()[i].1, now), true),
            !r.valid ==> exists|i: int| 0 <= i < self.entries().len()
                && call_ensures(P::check, (&#[trigger] self.entries()[i].1, now), false),
    {
        let valid = self.check(now);
        HealthCheckReply { name: self.probes.name().clone(), valid }
    }
}

} // verus!
