//! Checks of the whole system: each check reports its own result, and the system is
//! valid when every check is.

use vstd::prelude::*;

verus! {

/// The result of one check: its name and whether it is valid.
#[derive(Debug, Clone, PartialEq, Eq)]
pub struct HealthCheckResult {
    /// Name of the check
    pub name: String,
    /// Whether the check is valid
    pub valid: bool,
}

/// The result of the whole system: valid when every check is, with each check's result.
#[derive(Debug, Clone, PartialEq, Eq)]
pub struct HealthSystemResult {
    /// Name of the system
    pub name: String,
    /// Whether every check is valid
    pub valid: bool,
    /// The result of each check
    pub detail: Vec<HealthCheckResult>,
}

impl HealthSystemResult {
    /// The result of a system named `name` whose checks gave `detail`.
    pub fn new(name: &str, detail: Vec<HealthCheckResult>) -> (r: HealthSystemResult)
        ensures
            r.name@ == name@,
            r.detail@ == detail@,
            r.valid == (forall|i: int| 0 <= i < detail@.len() ==> (#[trigger] detail@[i]).valid),
    {
        let mut valid = true;
        let mut i: usize = 0;
        while i < detail.len()
            invariant
                i <= detail@.len(),
                valid == (forall|j: int| 0 <= j < i ==> (#[trigger] detail@[j]).valid),
            decreases detail@.len() - i,
        {
            valid = valid && detail[i].valid;
            i = i + 1;
        }
        HealthSystemResult { name: name.to_owned(), valid, detail }
    }
}

/// A check of the system: a name and a result at a time given in nanoseconds.
pub trait HealthCheck {
    /// The name of the check. A check verified here defines it; for one written outside,
    /// it is left unknown.
    open spec fn spec_name(&self) -> Seq<char> {
        arbitrary()
    }

    /// Name of the check
    fn get_name(&self) -> (r: &str)
        ensures
            r@ == self.spec_name();

    /// The result of the check at a time, under the check's name. Its validity is left
    /// to each check: the kicked check reads a time that other threads update.
    fn check(&self, time: u64) -> (r: HealthCheckResult)
        ensures
            r.name@ == self.spec_name();
}

/// A boxed check of any kind.
pub struct HealthCheckWrapper(pub Box<dyn HealthCheck>);

impl HealthCheckWrapper {
    /// The name of the check.
    pub fn get_name(&self) -> (r: &str)
        ensures
            r@ == self.0.spec_name(),
    {
        self.0.get_name()
    }

    /// The result of the check at a time.
    pub fn check(&self, time: u64) -> (r: HealthCheckResult)
        ensures
            r.name@ == self.0.spec_name(),
    {
        self.0.check(time)
    }
}

} // verus!
