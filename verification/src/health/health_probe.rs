//! Probes of the health module: a probe's own logic, and the shared wrapper that lets
//! the application keep acting on a probe that a check holds.

use vstd::prelude::*;
use std::sync::{Arc, Mutex, MutexGuard, TryLockError};
pub use crate::probe::HealthProbeResult;

verus! {

#[verifier::external_type_specification]
#[verifier::external_body]
#[verifier::reject_recursive_types(T)]
pub struct ExMutex<T: ?Sized>(Mutex<T>);

#[verifier::external_type_specification]
#[verifier::external_body]
#[verifier::reject_recursive_types(T)]
pub struct ExMutexGuard<'a, T: ?Sized + 'a>(MutexGuard<'a, T>);

/// `Mutex::new`: a lock holding the value.
#[verifier::external_body]
fn mutex_new<T>(value: T) -> Mutex<T> {
    Mutex::new(value)
}

/// `Mutex::try_lock`: the lock's guard when it can be taken at once, `None` when it is
/// held, by another thread or by this one. It never waits, so it cannot block on a lock
/// the calling thread already holds. A lock that a panicking holder left poisoned still
/// holds its value; its guard is then taken from the error with `into_inner`, as std
/// documents. Nothing is claimed of which answer comes, nor of the value behind the guard,
/// which other holders of the lock may have changed.
#[verifier::external_body]
fn mutex_try_lock<T>(m: &Mutex<T>) -> Option<MutexGuard<'_, T>> {
    match m.try_lock() {
        Ok(guard) => Some(guard),
        Err(TryLockError::Poisoned(poisoned)) => Some(poisoned.into_inner()),
        Err(TryLockError::WouldBlock) => None,
    }
}

/// `MutexGuard::deref`: the value behind a held lock. Nothing is claimed of it.
#[verifier::external_body]
fn guard_value<'a, 'b, T>(g: &'b MutexGuard<'a, T>) -> &'b T {
    &**g
}

/// `Arc::ptr_eq`: whether two handles share one allocation. Nothing is claimed of the
/// result, which rests on addresses.
#[verifier::external_body]
fn arc_ptr_eq<T>(a: &Arc<T>, b: &Arc<T>) -> bool {
    Arc::ptr_eq(a, b)
}

/// What a probe of the health module provides: a name and a check at a time given in
/// nanoseconds.
pub trait HealthProbeInner {
    /// The name of the probe. A probe verified here defines it; for one written outside,
    /// it is left unknown.
    open spec fn spec_name(&self) -> Seq<char> {
        arbitrary()
    }

    /// Whether the probe is valid at a time. A probe verified here defines it; for one
    /// written outside, it is left unknown.
    open spec fn spec_check(&self, time: u64) -> bool {
        arbitrary()
    }

    /// Name of the probe
    fn name(&self) -> (r: &str)
        ensures
            r@ == self.spec_name();

    /// Name of the probe, as an owned string
    fn name_owned(&self) -> (r: String)
        ensures
            r@ == self.spec_name();

    /// The result of the probe at a time: its name and its validity
    fn check_reply(&self, time: u64) -> (r: HealthProbeResult)
        ensures
            r.name@ == self.spec_name(),
            r.valid == self.spec_check(time);

    /// Whether the probe is valid at a time
    fn check(&self, time: u64) -> (r: bool)
        ensures
            r == self.spec_check(time);
}

/// What a check of the health module needs of a probe: a name and a validity at a time.
pub trait HealthProbe {
    /// Name of the probe, as an owned string; `None` when it cannot be read at the moment
    fn name_owned(&self) -> Option<String>;
    /// Whether the probe is valid at a time
    fn check(&self, now: u64) -> bool;
}

/// A boxed probe of any kind.
pub struct HealthProbeWrapper(pub Box<dyn HealthProbeInner>);

impl HealthProbeWrapper {
    /// The name of the probe.
    pub fn get_name(&self) -> (r: &str)
        ensures
            r@ == self.0.spec_name(),
    {
        self.0.name()
    }

    /// The result of the probe at a time.
    pub fn check(&self, time: u64) -> (r: HealthProbeResult)
        ensures
            r.name@ == self.0.spec_name(),
            r.valid == self.0.spec_check(time),
    {
        self.0.check_reply(time)
    }
}

/// A probe behind a shared lock: clones share the probe, so the application keeps a
/// clone to act on the probe while a check holds another. No operation waits for the
/// lock: one that finds it held, by another thread or by a guard of this thread, reports
/// that instead, so that a guard kept while the handle is used again cannot hang or panic.
#[derive(Debug)]
#[verifier::reject_recursive_types(T)]
pub struct HpW<T> {
    inner: Arc<Mutex<T>>,
}

impl<T> HpW<T> {
    /// Puts a probe behind a shared lock.
    pub fn new(value: T) -> HpW<T> {
        HpW { inner: Arc::new(mutex_new(value)) }
    }

    /// Locks the probe for direct use; the lock is held while the guard lives. `None`
    /// when the lock is held at the moment.
    pub fn inner_through_lock(&self) -> Option<MutexGuard<'_, T>> {
        mutex_try_lock(&*self.inner)
    }
}

impl<T> Clone for HpW<T> {
    /// Another handle on the same probe.
    fn clone(&self) -> (r: Self) {
        HpW { inner: Arc::clone(&self.inner) }
    }
}

impl<T: HealthProbeInner> HpW<T> {
    /// The name of the probe, copied out under the lock; `None` when the lock is held at
    /// the moment.
    pub fn name(&self) -> Option<String> {
        match mutex_try_lock(&*self.inner) {
            Some(guard) => {
                let n = guard_value(&guard).name();
                Some(n.to_owned())
            },
            None => None,
        }
    }
}

impl<T: HealthProbeInner> HealthProbe for HpW<T> {
    /// The name of the probe, copied out under the lock; `None` when the lock is held at
    /// the moment.
    fn name_owned(&self) -> Option<String> {
        match mutex_try_lock(&*self.inner) {
            Some(guard) => Some(guard_value(&guard).name_owned()),
            None => None,
        }
    }

    /// Whether the probe is valid at a time, checked under the lock; a probe whose lock is
    /// held at the moment cannot be read and counts as not valid.
    fn check(&self, now: u64) -> bool {
        match mutex_try_lock(&*self.inner) {
            Some(guard) => guard_value(&guard).check(now),
            None => false,
        }
    }
}

impl<T: PartialEq> PartialEq for HpW<T> {
    /// Two handles are equal when they share one probe, or when their probes are equal;
    /// handles whose probes cannot both be read at the moment count as unequal.
    fn eq(&self, other: &Self) -> (r: bool) {
        if arc_ptr_eq(&self.inner, &other.inner) {
            true
        } else {
            match mutex_try_lock(&*self.inner) {
                Some(a) => match mutex_try_lock(&*other.inner) {
                    Some(b) => *guard_value(&a) == *guard_value(&b),
                    None => false,
                },
                None => false,
            }
        }
    }
}

impl<T: PartialEq> vstd::std_specs::cmp::PartialEqSpecImpl for HpW<T> {
    /// Equality rests on probes behind shared locks, which other handles may change at
    /// any time: no law of `==` is claimed.
    open spec fn obeys_eq_spec() -> bool {
        false
    }

    open spec fn eq_spec(&self, other: &Self) -> bool {
        true
    }
}

impl<T: Eq> Eq for HpW<T> {}

} // verus!
