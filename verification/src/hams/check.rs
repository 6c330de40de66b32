//! A health check: a named collection of probes, told apart by their names, whose
//! combined result is valid when every probe is.

use vstd::prelude::*;
use vstd::string::*;
use crate::error::HamsError;
use crate::probe::HealthProbeResult;
use crate::text::same_text;

verus! {

/// The reply to a health check.
#[derive(Debug, Clone, PartialEq, Eq)]
pub struct HealthCheckResult {
    /// Name of the check
    pub name: String,
    /// Whether every probe of the check was valid
    pub valid: bool,
    /// The result of each probe, for a verbose check
    pub details: Option<Vec<HealthProbeResult>>,
}

impl HealthCheckResult {
    /// The HTTP status of this reply on its own: 200 (OK) when valid, 406 (not
    /// acceptable) when not.
    pub fn status_code(&self) -> (r: u16)
        ensures
            r == (if self.valid { 200u16 } else { 406u16 }),
    {
        if self.valid { 200 } else { 406 }
    }
}

/// Whether a probe's outcome counts as valid: only a successful `true` does.
pub open spec fn outcome_valid(outcome: Result<bool, HamsError>) -> bool {
    outcome matches Ok(true)
}

/// Whether every outcome counts as valid.
pub open spec fn all_outcomes_valid(outcomes: Seq<Result<bool, HamsError>>) -> bool {
    forall|i: int| 0 <= i < outcomes.len() ==> outcome_valid(#[trigger] outcomes[i])
}

/// Whether every probe result is valid.
pub open spec fn all_results_valid(results: Seq<HealthProbeResult>) -> bool {
    forall|i: int| 0 <= i < results.len() ==> (#[trigger] results[i]).valid
}

/// The names of a sequence of named probes.
pub open spec fn entry_names<P>(entries: Seq<(String, P)>) -> Seq<Seq<char>> {
    entries.map_values(|e: (String, P)| e.0@)
}

/// The probes after inserting `probe` under `probe_name`: unchanged when the name is
/// already taken, else the new probe comes last.
pub open spec fn inserted<P>(entries: Seq<(String, P)>, probe_name: String, probe: P) -> Seq<(String, P)> {
    if entry_names(entries).contains(probe_name@) {
        entries
    } else {
        entries.push((probe_name, probe))
    }
}

/// The probes after removing the one named `probe_name`: unchanged when there is none.
pub open spec fn removed<P>(entries: Seq<(String, P)>, probe_name: Seq<char>) -> Seq<(String, P)> {
    if entry_names(entries).contains(probe_name) {
        entries.remove(entry_names(entries).index_of(probe_name))
    } else {
        entries
    }
}

/// Removing the name of a probe that was just inserted under a fresh name gives back
/// the probes as they were.
pub proof fn law_remove_undoes_insert<P>(entries: Seq<(String, P)>, probe_name: String, probe: P)
    requires
        entry_names(entries).no_duplicates(),
        !entry_names(entries).contains(probe_name@),
    ensures
        removed(inserted(entries, probe_name, probe), probe_name@) == entries,
{
    let after = entries.push((probe_name, probe));
    let names = entry_names(after);
    assert(names =~= entry_names(entries).push(probe_name@));
    assert(names[entries.len() as int] == probe_name@);
    assert(names.contains(probe_name@));
    let k = names.index_of(probe_name@);
    if k < entries.len() {
        assert(entry_names(entries)[k] == probe_name@);
        assert(entry_names(entries).contains(probe_name@));
    }
    assert(k == entries.len());
    assert(after.remove(k) =~= entries);
}

/// Inserting under a name that is already taken changes nothing: the probe inserted
/// first stays.
pub proof fn law_first_insert_wins<P>(entries: Seq<(String, P)>, probe_name: String, first: P, second: P)
    ensures
        inserted(inserted(entries, probe_name, first), probe_name, second)
            == inserted(entries, probe_name, first),
{
    let once = inserted(entries, probe_name, first);
    if !entry_names(entries).contains(probe_name@) {
        assert(entry_names(once) =~= entry_names(entries).push(probe_name@));
        assert(entry_names(once)[entries.len() as int] == probe_name@);
    }
    assert(entry_names(once).contains(probe_name@));
}

/// After a removal the name is gone.
pub proof fn law_removed_name_absent<P>(entries: Seq<(String, P)>, probe_name: Seq<char>)
    requires
        entry_names(entries).no_duplicates(),
    ensures
        !entry_names(removed(entries, probe_name)).contains(probe_name),
{
    if entry_names(entries).contains(probe_name) {
        let names = entry_names(entries);
        let i = names.index_of(probe_name);
        assert(names[i] == probe_name);
        let after = entry_names(entries.remove(i));
        assert(after =~= names.remove(i));
        if after.contains(probe_name) {
            let k = choose|k: int| 0 <= k < after.len() && after[k] == probe_name;
            let k1 = if k < i { k } else { k + 1 };
            assert(names[k1] == probe_name && k1 != i);
        }
    }
}

/// Taking one element out of a sequence without repeats takes exactly that value out
/// of its set.
proof fn lemma_remove_unique_to_set<A>(s: Seq<A>, i: int)
    requires
        s.no_duplicates(),
        0 <= i < s.len(),
    ensures
        s.remove(i).to_set() == s.to_set().remove(s[i]),
{
    let r = s.remove(i);
    assert forall|x: A| r.to_set().contains(x) <==> s.to_set().remove(s[i]).contains(x) by {
        if r.contains(x) {
            let k = choose|k: int| 0 <= k < r.len() && r[k] == x;
            if k < i {
                assert(s[k] == x && k != i);
            } else {
                assert(s[k + 1] == x && k + 1 != i);
            }
        }
        if s.contains(x) && x != s[i] {
            let k = choose|k: int| 0 <= k < s.len() && s[k] == x;
            if k < i {
                assert(r[k] == x);
            } else {
                assert(k != i);
                assert(r[k - 1] == x);
            }
        }
    }
    assert(r.to_set() =~= s.to_set().remove(s[i]));
}

/// A named collection of probes. No two probes share a name: a name identifies its probe.
#[derive(Debug)]
pub struct HealthCheck<P> {
    name: String,
    probes: Vec<(String, P)>,
}

impl<P> HealthCheck<P> {
    /// The probes with their names, in the order they were inserted.
    pub closed spec fn entries(&self) -> Seq<(String, P)> {
        self.probes@
    }

    /// The name of the check.
    pub closed spec fn spec_name(&self) -> Seq<char> {
        self.name@
    }

    /// The name of the check.
    pub fn name(&self) -> (r: &String)
        ensures
            r@ == self.spec_name(),
    {
        &self.name
    }

    /// The names of the probes, in the order they were inserted.
    pub open spec fn names(&self) -> Seq<Seq<char>> {
        entry_names(self.entries())
    }

    /// The set of probe names.
    pub open spec fn name_set(&self) -> Set<Seq<char>> {
        self.names().to_set()
    }

    #[verifier::type_invariant]
    closed spec fn names_unique(&self) -> bool {
        self.names().no_duplicates()
    }

    /// Creates a check with the given name and no probes.
    pub fn new(name: &str) -> (r: Self)
        ensures
            r.spec_name() == name@,
            r.entries() == Seq::<(String, P)>::empty(),
    {
        let r = HealthCheck { name: name.to_owned(), probes: Vec::new() };
        assert(r.names() =~= Seq::<Seq<char>>::empty());
        r
    }

    /// The number of probes.
    pub fn len(&self) -> (r: usize)
        ensures
            r == self.entries().len(),
            r == self.name_set().len(),
    {
        proof {
            use_type_invariant(self);
            self.names().unique_seq_to_set();
        }
        self.probes.len()
    }

    /// The position of the probe with the given name, if there is one.
    fn position(&self, probe_name: &str) -> (r: Option<usize>)
        ensures
            r matches Some(i) ==> i < self.entries().len() && self.names()[i as int] == probe_name@,
            r is None ==> !self.names().contains(probe_name@),
    {
        let mut i: usize = 0;
        while i < self.probes.len()
            invariant
                i <= self.probes@.len(),
                forall|j: int| 0 <= j < i ==> self.names()[j] != probe_name@,
            decreases self.probes@.len() - i,
        {
            if same_text(self.probes[i].0.as_str(), probe_name) {
                return Some(i);
            }
            i = i + 1;
        }
        proof {
            if self.names().contains(probe_name@) {
                let k = choose|k: int| 0 <= k < self.names().len() && self.names()[k] == probe_name@;
                assert(self.names()[k] != probe_name@);
            }
        }
        None
    }

    /// Whether a probe with the given name is in the check.
    pub fn contains(&self, probe_name: &str) -> (r: bool)
        ensures
            r == self.name_set().contains(probe_name@),
    {
        match self.position(probe_name) {
            Some(_) => true,
            None => false,
        }
    }

    /// Adds a probe under its name. Returns true when it was added; when a probe with
    /// that name is already there, the check is left as it was and false is returned.
    pub fn insert(&mut self, probe_name: String, probe: P) -> (r: bool)
        ensures
            r == !old(self).name_set().contains(probe_name@),
            final(self).entries() == inserted(old(self).entries(), probe_name, probe),
            final(self).spec_name() == old(self).spec_name(),
            final(self).name_set() == old(self).name_set().insert(probe_name@),
    {
        proof { use_type_invariant(&*self); }
        match self.position(probe_name.as_str()) {
            Some(_) => {
                proof {
                    assert(self.name_set().insert(probe_name@) =~= self.name_set());
                }
                false
            },
            None => {
                let ghost before = self.names();
                let mut probes: Vec<(String, P)> = Vec::new();
                std::mem::swap(&mut probes, &mut self.probes);
                probes.push((probe_name, probe));
                proof {
                    let after = probes@.map_values(|e: (String, P)| e.0@);
                    assert(after =~= before.push(probe_name@));
                    assert forall|a: int, b: int| 0 <= a < after.len() && 0 <= b < after.len() && a != b
                        implies after[a] != after[b] by {
                        if a < before.len() && b < before.len() {
                        } else if a < before.len() {
                            assert(before.contains(after[a]));
                        } else {
                            assert(before.contains(after[b]));
                        }
                    }
                }
                self.probes = probes;
                proof {
                    assert(self.names() =~= before.push(probe_name@));
                    before.lemma_push_to_set_commute(probe_name@);
                    assert(self.name_set() =~= before.to_set().insert(probe_name@));
                }
                true
            },
        }
    }

    /// Takes out the probe with the given name. Returns true when there was one; the
    /// other probes keep their order.
    pub fn remove(&mut self, probe_name: &str) -> (r: bool)
        ensures
            r == old(self).name_set().contains(probe_name@),
            final(self).entries() == removed(old(self).entries(), probe_name@),
            final(self).spec_name() == old(self).spec_name(),
            final(self).name_set() == old(self).name_set().remove(probe_name@),
    {
        proof { use_type_invariant(&*self); }
        match self.position(probe_name) {
            Some(i) => {
                let ghost before = self.names();
                let mut probes: Vec<(String, P)> = Vec::new();
                std::mem::swap(&mut probes, &mut self.probes);
                let _removed = probes.remove(i);
                proof {
                    let after = probes@.map_values(|e: (String, P)| e.0@);
                    assert(after =~= before.remove(i as int));
                    assert forall|a: int, b: int| 0 <= a < after.len() && 0 <= b < after.len() && a != b
                        implies after[a] != after[b] by {
                        let a1 = if a < i { a } else { a + 1 };
                        let b1 = if b < i { b } else { b + 1 };
                        assert(after[a] == before[a1] && after[b] == before[b1]);
                    }
                }
                self.probes = probes;
                proof {
                    assert(self.names() =~= before.remove(i as int));
                    lemma_remove_unique_to_set(before, i as int);
                    assert(before.contains(probe_name@));
                    let k = before.index_of(probe_name@);
                    assert(before[k] == probe_name@);
                    assert(k == i);
                }
                true
            },
            None => {
                proof {
                    assert(self.name_set().remove(probe_name@) =~= self.name_set());
                }
                false
            },
        }
    }

    /// The probes with their names, for running their checks.
    pub fn probes(&self) -> (r: &Vec<(String, P)>)
        ensures
            r@ == self.entries(),
    {
        &self.probes
    }

    /// The reply to a check, given the outcome of each probe: valid when every probe
    /// reported `Ok(true)`; an error or `false` makes it invalid.
    pub fn check(&self, outcomes: &Vec<Result<bool, HamsError>>) -> (r: HealthCheckResult)
        ensures
            r.name@ == self.spec_name(),
            r.valid == all_outcomes_valid(outcomes@),
            r.details is None,
    {
        let mut valid = true;
        let mut i: usize = 0;
        while i < outcomes.len()
            invariant
                i <= outcomes@.len(),
                valid == (forall|j: int| 0 <= j < i ==> outcome_valid(#[trigger] outcomes@[j])),
            decreases outcomes@.len() - i,
        {
            let this_valid = match &outcomes[i] {
                Ok(b) => *b,
                Err(_) => false,
            };
            valid = valid && this_valid;
            i = i + 1;
        }
        HealthCheckResult { name: self.name.clone(), valid, details: None }
    }

    /// The verbose reply to a check, given the outcome of each probe in the order of
    /// [`HealthCheck::probes`]: one result per probe, under the probe's name, valid when
    /// the probe reported `Ok(true)`; the whole is valid when every result is.
    pub fn check_verbose(&self, outcomes: &Vec<Result<bool, HamsError>>) -> (r: HealthCheckResult)
        requires
            outcomes@.len() == self.entries().len(),
        ensures
            r.name@ == self.spec_name(),
            r.details matches Some(d) && d@.len() == outcomes@.len()
                && (forall|i: int| 0 <= i < d@.len() ==>
                    (#[trigger] d@[i]).name@ == self.names()[i]
                    && d@[i].valid == outcome_valid(outcomes@[i]))
                && r.valid == all_results_valid(d@),
            r.valid == all_outcomes_valid(outcomes@),
    {
        let mut details: Vec<HealthProbeResult> = Vec::new();
        let mut valid = true;
        let mut i: usize = 0;
        while i < outcomes.len()
            invariant
                i <= outcomes@.len(),
                outcomes@.len() == self.probes@.len(),
                details@.len() == i,
                forall|j: int| 0 <= j < i ==>
                    (#[trigger] details@[j]).name@ == self.names()[j]
                    && details@[j].valid == outcome_valid(outcomes@[j]),
                valid == (forall|j: int| 0 <= j < i ==> outcome_valid(#[trigger] outcomes@[j])),
            decreases outcomes@.len() - i,
        {
            let this_valid = match &outcomes[i] {
                Ok(b) => *b,
                Err(_) => false,
            };
            details.push(HealthProbeResult { name: self.probes[i].0.clone(), valid: this_valid });
            valid = valid && this_valid;
            i = i + 1;
        }
        proof {
            assert(valid == all_results_valid(details@)) by {
                if valid {
                    assert forall|j: int| 0 <= j < details@.len() implies (#[trigger] details@[j]).valid by {
                        assert(outcome_valid(outcomes@[j]));
                    }
                } else {
                    let j = choose|j: int| 0 <= j < outcomes@.len() && !outcome_valid(#[trigger] outcomes@[j]);
                    assert(!details@[j].valid);
                }
            }
        }
        HealthCheckResult { name: self.name.clone(), valid, details: Some(details) }
    }
}

} // verus!
