//! The combined results of the probes of a check.

use vstd::prelude::*;
use vstd::string::*;
use crate::health::health_probe::HealthProbeResult;

verus! {

/// The texts of probe results, separated by commas.
pub open spec fn joined_texts(results: Seq<HealthProbeResult>) -> Seq<char>
    decreases results.len(),
{
    if results.len() == 0 {
        Seq::empty()
    } else if results.len() == 1 {
        results[0].spec_text()
    } else {
        joined_texts(results.drop_last()) + ","@ + results.last().spec_text()
    }
}

/// The results of the probes of a check.
#[derive(Debug, Clone, PartialEq, Eq)]
pub struct HealthCheckResults(pub Vec<HealthProbeResult>);

impl HealthCheckResults {
    /// Valid when every probe result is.
    pub fn valid(&self) -> (r: bool)
        ensures
            r == (forall|i: int| 0 <= i < self.0@.len() ==> (#[trigger] self.0@[i]).valid),
    {
        let mut i: usize = 0;
        while i < self.0.len()
            invariant
                i <= self.0@.len(),
                forall|j: int| 0 <= j < i ==> (#[trigger] self.0@[j]).valid,
            decreases self.0@.len() - i,
        {
            if !self.0[i].valid {
                return false;
            }
            i = i + 1;
        }
        true
    }

    /// The text of the results: each probe's `name/valid`, separated by commas, in
    /// square brackets.
    pub fn to_string(&self) -> (r: String)
        ensures
            r@ == "["@ + joined_texts(self.0@) + "]"@,
    {
        let mut s = String::from_str("[");
        let mut i: usize = 0;
        while i < self.0.len()
            invariant
                i <= self.0@.len(),
                s@ == "["@ + joined_texts(self.0@.take(i as int)),
            decreases self.0@.len() - i,
        {
            proof {
                assert(self.0@.take(i + 1).drop_last() =~= self.0@.take(i as int));
                assert(self.0@.take(i + 1).last() == self.0@[i as int]);
            }
            if i > 0 {
                s.append(",");
            }
            let t = self.0[i].to_string();
            s.append(t.as_str());
            proof {
                if i == 0 {
                    assert(self.0@.take(1)[0] == self.0@[0]);
                    assert(joined_texts(self.0@.take(0)) =~= Seq::<char>::empty());
                }
            }
            i = i + 1;
        }
        assert(self.0@.take(self.0@.len() as int) =~= self.0@);
        s.append("]");
        s
    }

    /// The probe results.
    pub fn into_vec(self) -> (r: Vec<HealthProbeResult>)
        ensures
            r@ == self.0@,
    {
        self.0
    }
}

/// The reply of a check: its name, whether it is valid, and the result of each probe.
#[derive(Debug, Clone, PartialEq, Eq)]
pub struct HealthCheckReply {
    /// Name of the check
    pub name: String,
    /// Whether every probe is valid
    pub valid: bool,
    /// The result of each probe
    pub detail: Vec<HealthProbeResult>,
}

impl HealthCheckReply {
    /// The reply of a check named `name` whose probes gave `results`: valid when every
    /// result is.
    pub fn new(name: &str, results: HealthCheckResults) -> (r: HealthCheckReply)
        ensures
            r.name@ == name@,
            r.detail@ == results.0@,
            r.valid == (forall|i: int| 0 <= i < results.0@.len() ==> (#[trigger] results.0@[i]).valid),
    {
        let valid = results.valid();
        HealthCheckReply { name: name.to_owned(), valid, detail: results.into_vec() }
    }
}

} // verus!
