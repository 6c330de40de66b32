//! A probe that is switched on and off by hand.

use vstd::prelude::*;
use std::sync::Arc;
use std::sync::atomic::{AtomicBool, Ordering};
use crate::probe::HealthProbe;

verus! {

/// Whether `cell` is the cell that `AtomicBool::new` made holding `v`.
pub open spec fn cell_made(cell: AtomicBool, v: bool) -> bool {
    call_ensures(AtomicBool::new, (v,), cell)
}

/// Whether `v` is what a sequentially consistent load of `cell` gave.
pub open spec fn cell_loaded(cell: AtomicBool, v: bool) -> bool {
    call_ensures(AtomicBool::load, (&cell, Ordering::SeqCst), v)
}

/// Whether `v` was stored in `cell` by a sequentially consistent store.
pub open spec fn cell_stored(cell: AtomicBool, v: bool) -> bool {
    call_ensures(AtomicBool::store, (&cell, v, Ordering::SeqCst), ())
}

/// Whether `cell` was flipped in one step: xor-ed with `true`, sequentially consistent.
pub open spec fn cell_flipped(cell: AtomicBool) -> bool {
    exists|prev: bool| call_ensures(AtomicBool::fetch_xor, (&cell, true, Ordering::SeqCst), prev)
}

/// A probe whose state the application sets: enabled, disabled or toggled. Clones share
/// the state, so a clone handed to a check follows what is done through any other clone.
#[derive(Debug)]
pub struct Manual {
    name: String,
    enabled: Arc<AtomicBool>,
}

impl Manual {
    /// The name of the probe.
    pub closed spec fn spec_name(&self) -> Seq<char> {
        self.name@
    }

    /// The cell that holds the probe's state, shared by every clone.
    pub closed spec fn state_cell(&self) -> AtomicBool {
        *self.enabled
    }

    /// A probe with the given name, enabled or not: its state cell is made holding
    /// `enabled`.
    pub fn new(name: &str, enabled: bool) -> (r: Manual)
        ensures
            r.spec_name() == name@,
            cell_made(r.state_cell(), enabled),
    {
        let cell = AtomicBool::new(enabled);
        Manual { name: name.to_owned(), enabled: Arc::new(cell) }
    }

    /// Marks the probe healthy: `true` is stored in its state cell.
    pub fn enable(&self)
        ensures
            cell_stored(self.state_cell(), true),
    {
        self.enabled.store(true, Ordering::SeqCst);
    }

    /// Marks the probe unhealthy: `false` is stored in its state cell.
    pub fn disable(&self)
        ensures
            cell_stored(self.state_cell(), false),
    {
        self.enabled.store(false, Ordering::SeqCst);
    }

    /// Flips the probe's state, in one atomic step: its state cell is xor-ed with `true`.
    pub fn toggle(&self)
        ensures
            cell_flipped(self.state_cell()),
    {
        self.enabled.fetch_xor(true, Ordering::SeqCst);
    }

    /// Whether the probe is enabled: the value read from its state cell. The state is
    /// shared with every clone, which may change it at any time.
    pub fn is_enabled(&self) -> (r: bool)
        ensures
            cell_loaded(self.state_cell(), r),
    {
        self.enabled.load(Ordering::SeqCst)
    }
}

impl Clone for Manual {
    /// Another handle on the same probe: the same name and the same shared state.
    fn clone(&self) -> (r: Self)
        ensures
            r.spec_name() == self.spec_name(),
            r.state_cell() == self.state_cell(),
    {
        Manual { name: self.name.clone(), enabled: Arc::clone(&self.enabled) }
    }
}

impl HealthProbe for Manual {
    /// The name of the probe.
    fn name(&self) -> (r: String)
        ensures
            r@ == self.spec_name(),
    {
        self.name.clone()
    }

    /// 1 when enabled, 0 when not; the time plays no part.
    fn check(&self, time: i64) -> (r: i32)
        ensures
            r == 0 || r == 1,
            exists|b: bool| cell_loaded(self.state_cell(), b)
                && r == (if b { 1i32 } else { 0i32 }),
    {
        if self.is_enabled() { 1 } else { 0 }
    }
}

/// A manual probe answers from the state cell it was made with: `Manual::new(name, b)`
/// makes a cell holding `b`, clones share that very cell, and a check of the probe
/// answers 1 exactly when a load of that cell reads `true`, 0 when it reads `false`.
pub proof fn law_new_probe_answers_from_its_cell(name: &str, b: bool, m: Manual, c: Manual, time: i64, r: i32)
    requires
        call_ensures(Manual::new, (name, b), m),
        call_ensures(Manual::clone, (&m,), c),
        call_ensures(<Manual as HealthProbe>::check, (&c, time), r),
    ensures
        cell_made(m.state_cell(), b),
        c.state_cell() == m.state_cell(),
        exists|v: bool| cell_loaded(m.state_cell(), v) && (r == 1 <==> v) && (r == 0 <==> !v),
{
}

} // verus!
