//! The health and monitoring service: its identity, its health checks, its startup and
//! shutdown tasks, and whether it is running.

pub mod check;
pub mod config;
pub mod lifecycle;
pub mod tasks;
pub mod webservice;

use vstd::prelude::*;
use vstd::string::*;
use crate::error::HamsError;
use crate::hams::check::{HealthCheck, inserted, removed};
use crate::hams::config::{HamsConfig, TaskConfig};
use crate::hams::lifecycle::{ServiceControl, spec_start_decision, spec_stop_decision};

verus! {

/// Name of the library.
pub const NAME: &'static str = "hams";

/// Version of the library.
pub const VERSION: &'static str = "0.1.0";

/// The name and version of the library, as `name:version`.
pub fn hams_version() -> (r: String)
    ensures
        r@ == NAME@ + ":"@ + VERSION@,
{
    let mut s = String::from_str(NAME);
    s.append(":");
    s.append(VERSION);
    s
}

/// The reply of the version endpoint.
#[derive(Debug, Clone, PartialEq, Eq)]
pub struct VersionReply {
    /// Name of the service
    pub name: String,
    /// Version of the service
    pub version: String,
    /// Name of the library
    pub hams_name: String,
    /// Version of the library
    pub hams_version: String,
}

/// The health and monitoring service. `P` is the kind of probe its checks hold.
#[derive(Debug)]
pub struct Hams<P> {
    /// Name of the service
    pub name: String,
    /// Version of the service
    pub version: String,
    /// Version of the library
    pub hams_version: String,
    /// Name of the library
    pub hams_name: String,
    /// Socket address to serve on, as `host:port`
    pub address: String,
    /// Checks that must all pass before the service starts
    pub preflights: HealthCheck<P>,
    /// Checks run after the service was asked to stop
    pub shutdowns: HealthCheck<P>,
    /// Liveness checks
    pub alive: HealthCheck<P>,
    /// Readiness checks
    pub ready: HealthCheck<P>,
    /// Startup checks
    pub startup: HealthCheck<P>,
    /// Tasks run before serving
    pub startup_tasks: Vec<(P, TaskConfig)>,
    /// Tasks run after serving
    pub shutdown_tasks: Vec<(P, TaskConfig)>,
    /// Whether the service is running
    pub control: ServiceControl,
}

/// Whether two states of a service agree on all but their running state.
pub open spec fn same_but_control<P>(a: Hams<P>, b: Hams<P>) -> bool {
    &&& a.name == b.name
    &&& a.version == b.version
    &&& a.hams_version == b.hams_version
    &&& a.hams_name == b.hams_name
    &&& a.address == b.address
    &&& a.preflights == b.preflights
    &&& a.shutdowns == b.shutdowns
    &&& a.alive == b.alive
    &&& a.ready == b.ready
    &&& a.startup == b.startup
    &&& a.startup_tasks == b.startup_tasks
    &&& a.shutdown_tasks == b.shutdown_tasks
}

/// Whether two states of a service agree on their identity, tasks and running state;
/// their checks may differ.
pub open spec fn same_but_checks<P>(a: Hams<P>, b: Hams<P>) -> bool {
    &&& a.name == b.name
    &&& a.version == b.version
    &&& a.hams_version == b.hams_version
    &&& a.hams_name == b.hams_name
    &&& a.address == b.address
    &&& a.startup_tasks == b.startup_tasks
    &&& a.shutdown_tasks == b.shutdown_tasks
    &&& a.control == b.control
}

impl<P> Hams<P> {
    /// A service that is not running, named and addressed as configured, with empty
    /// checks named "preflights", "shutdowns", "alive", "ready" and "startup", and no tasks.
    pub fn new(config: HamsConfig) -> (r: Hams<P>)
        ensures
            r.name@ == config.name@,
            r.version@ == config.version@,
            r.address@ == config.address@,
            r.hams_name@ == NAME@,
            r.hams_version@ == VERSION@,
            r.preflights.spec_name() == "preflights"@ && r.preflights.entries().len() == 0,
            r.shutdowns.spec_name() == "shutdowns"@ && r.shutdowns.entries().len() == 0,
            r.alive.spec_name() == "alive"@ && r.alive.entries().len() == 0,
            r.ready.spec_name() == "ready"@ && r.ready.entries().len() == 0,
            r.startup.spec_name() == "startup"@ && r.startup.entries().len() == 0,
            r.startup_tasks@.len() == 0,
            r.shutdown_tasks@.len() == 0,
            r.control.is_idle(),
    {
        Hams {
            name: config.name,
            version: config.version,
            hams_version: String::from_str(VERSION),
            hams_name: String::from_str(NAME),
            address: config.address,
            preflights: HealthCheck::new("preflights"),
            shutdowns: HealthCheck::new("shutdowns"),
            alive: HealthCheck::new("alive"),
            ready: HealthCheck::new("ready"),
            startup: HealthCheck::new("startup"),
            startup_tasks: Vec::new(),
            shutdown_tasks: Vec::new(),
            control: ServiceControl::new(),
        }
    }

    /// Grants a start when the service is not running (and gives it a fresh token);
    /// refuses with `AlreadyRunning` when it is.
    pub fn start(&mut self) -> (r: Result<(), HamsError>)
        ensures
            exists|cancelled: bool| r == spec_start_decision(cancelled),
            old(self).control.is_idle() ==> r is Ok,
            r is Ok ==> !final(self).control.is_idle(),
            r is Err ==> final(self).control == old(self).control,
            same_but_control(*final(self), *old(self)),
    {
        self.control.start()
    }

    /// Grants a stop when the service is running and its thread is there (and cancels
    /// its token); refuses with `NotRunning` or `NoThread` otherwise.
    pub fn stop(&mut self, has_thread: bool) -> (r: Result<(), HamsError>)
        ensures
            exists|cancelled: bool| r == spec_stop_decision(cancelled, has_thread),
            old(self).control.is_idle() ==> r == Err::<(), HamsError>(HamsError::NotRunning),
            r is Ok ==> final(self).control.is_idle(),
            r is Err ==> final(self).control == old(self).control,
            same_but_control(*final(self), *old(self)),
    {
        self.control.stop(has_thread)
    }

    /// The reply of the version endpoint.
    pub fn version_reply(&self) -> (r: VersionReply)
        ensures
            r.name@ == self.name@,
            r.version@ == self.version@,
            r.hams_name@ == self.hams_name@,
            r.hams_version@ == self.hams_version@,
    {
        VersionReply {
            name: self.name.clone(),
            version: self.version.clone(),
            hams_name: self.hams_name.clone(),
            hams_version: self.hams_version.clone(),
        }
    }

    /// Adds a probe to the liveness checks; false when its name is taken.
    pub fn alive_insert(&mut self, probe_name: String, probe: P) -> (r: bool)
        ensures
            r == !old(self).alive.name_set().contains(probe_name@),
            final(self).alive.entries() == inserted(old(self).alive.entries(), probe_name, probe),
            same_but_checks(*final(self), *old(self)),
            final(self).preflights == old(self).preflights,
            final(self).shutdowns == old(self).shutdowns,
            final(self).ready == old(self).ready,
            final(self).startup == old(self).startup,
    {
        self.alive.insert(probe_name, probe)
    }

    /// Takes a probe out of the liveness checks; false when there was none of that name.
    pub fn alive_remove(&mut self, probe_name: &str) -> (r: bool)
        ensures
            r == old(self).alive.name_set().contains(probe_name@),
            final(self).alive.entries() == removed(old(self).alive.entries(), probe_name@),
            same_but_checks(*final(self), *old(self)),
            final(self).preflights == old(self).preflights,
            final(self).shutdowns == old(self).shutdowns,
            final(self).ready == old(self).ready,
            final(self).startup == old(self).startup,
    {
        self.alive.remove(probe_name)
    }

    /// Adds a probe to the readiness checks; false when its name is taken.
    pub fn ready_insert(&mut self, probe_name: String, probe: P) -> (r: bool)
        ensures
            r == !old(self).ready.name_set().contains(probe_name@),
            final(self).ready.entries() == inserted(old(self).ready.entries(), probe_name, probe),
            same_but_checks(*final(self), *old(self)),
            final(self).preflights == old(self).preflights,
            final(self).shutdowns == old(self).shutdowns,
            final(self).alive == old(self).alive,
            final(self).startup == old(self).startup,
    {
        self.ready.insert(probe_name, probe)
    }

    /// Takes a probe out of the readiness checks; false when there was none of that name.
    pub fn ready_remove(&mut self, probe_name: &str) -> (r: bool)
        ensures
            r == old(self).ready.name_set().contains(probe_name@),
            final(self).ready.entries() == removed(old(self).ready.entries(), probe_name@),
            same_but_checks(*final(self), *old(self)),
            final(self).preflights == old(self).preflights,
            final(self).shutdowns == old(self).shutdowns,
            final(self).alive == old(self).alive,
            final(self).startup == old(self).startup,
    {
        self.ready.remove(probe_name)
    }

    /// Adds a probe to the startup checks; false when its name is taken.
    pub fn startup_insert(&mut self, probe_name: String, probe: P) -> (r: bool)
        ensures
            r == !old(self).startup.name_set().contains(probe_name@),
            final(self).startup.entries() == inserted(old(self).startup.entries(), probe_name, probe),
            same_but_checks(*final(self), *old(self)),
            final(self).preflights == old(self).preflights,
            final(self).shutdowns == old(self).shutdowns,
            final(self).alive == old(self).alive,
            final(self).ready == old(self).ready,
    {
        self.startup.insert(probe_name, probe)
    }

    /// Takes a probe out of the startup checks; false when there was none of that name.
    pub fn startup_remove(&mut self, probe_name: &str) -> (r: bool)
        ensures
            r == old(self).startup.name_set().contains(probe_name@),
            final(self).startup.entries() == removed(old(self).startup.entries(), probe_name@),
            same_but_checks(*final(self), *old(self)),
            final(self).preflights == old(self).preflights,
            final(self).shutdowns == old(self).shutdowns,
            final(self).alive == old(self).alive,
            final(self).ready == old(self).ready,
    {
        self.startup.remove(probe_name)
    }

    /// Adds a probe to the preflight checks; false when its name is taken.
    pub fn preflight_insert(&mut self, probe_name: String, probe: P) -> (r: bool)
        ensures
            r == !old(self).preflights.name_set().contains(probe_name@),
            final(self).preflights.entries() == inserted(old(self).preflights.entries(), probe_name, probe),
            same_but_checks(*final(self), *old(self)),
            final(self).shutdowns == old(self).shutdowns,
            final(self).alive == old(self).alive,
            final(self).ready == old(self).ready,
            final(self).startup == old(self).startup,
    {
        self.preflights.insert(probe_name, probe)
    }

    /// Adds a probe to the shutdown checks; false when its name is taken.
    pub fn shutdown_insert(&mut self, probe_name: String, probe: P) -> (r: bool)
        ensures
            r == !old(self).shutdowns.name_set().contains(probe_name@),
            final(self).shutdowns.entries() == inserted(old(self).shutdowns.entries(), probe_name, probe),
            same_but_checks(*final(self), *old(self)),
            final(self).preflights == old(self).preflights,
            final(self).alive == old(self).alive,
            final(self).ready == old(self).ready,
            final(self).startup == old(self).startup,
    {
        self.shutdowns.insert(probe_name, probe)
    }

    /// Adds a task to run before serving; tasks run in the order they were added.
    pub fn startup_task_insert(&mut self, probe: P, config: TaskConfig)
        ensures
            final(self).startup_tasks@ == old(self).startup_tasks@.push((probe, config)),
            final(self).name == old(self).name,
            final(self).version == old(self).version,
            final(self).hams_version == old(self).hams_version,
            final(self).hams_name == old(self).hams_name,
            final(self).address == old(self).address,
            final(self).preflights == old(self).preflights,
            final(self).shutdowns == old(self).shutdowns,
            final(self).alive == old(self).alive,
            final(self).ready == old(self).ready,
            final(self).startup == old(self).startup,
            final(self).shutdown_tasks == old(self).shutdown_tasks,
            final(self).control == old(self).control,
    {
        self.startup_tasks.push((probe, config));
    }

    /// Adds a task to run after serving; tasks run in the order they were added.
    pub fn shutdown_task_insert(&mut self, probe: P, config: TaskConfig)
        ensures
            final(self).shutdown_tasks@ == old(self).shutdown_tasks@.push((probe, config)),
            final(self).name == old(self).name,
            final(self).version == old(self).version,
            final(self).hams_version == old(self).hams_version,
            final(self).hams_name == old(self).hams_name,
            final(self).address == old(self).address,
            final(self).preflights == old(self).preflights,
            final(self).shutdowns == old(self).shutdowns,
            final(self).alive == old(self).alive,
            final(self).ready == old(self).ready,
            final(self).startup == old(self).startup,
            final(self).startup_tasks == old(self).startup_tasks,
            final(self).control == old(self).control,
    {
        self.shutdown_tasks.push((probe, config));
    }
}

} // verus!
