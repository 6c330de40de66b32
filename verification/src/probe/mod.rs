//! Probes: the single health signals that checks are made of.

use vstd::prelude::*;
use vstd::string::*;
use std::time::SystemTime;
use crate::clock::epoch_seconds;
use crate::error::HamsError;
use crate::text::{bool_text, decimal_text, push_bool, push_decimal_i64};

pub mod dns;
pub mod http;
pub mod kick;
pub mod manual;
pub mod tcp;

verus! {

/// The outcome of one probe: its name and whether it was valid.
#[derive(Debug, Clone, PartialEq, Eq)]
pub struct HealthProbeResult {
    /// Name of the probe
    pub name: String,
    /// Whether the probe was valid
    pub valid: bool,
}

impl HealthProbeResult {
    /// The text of a probe result: its name, a slash, and "true" or "false".
    pub open spec fn spec_text(self) -> Seq<char> {
        self.name@ + "/"@ + bool_text(self.valid)
    }

    /// The text of this probe result, `name/valid`.
    pub fn to_string(&self) -> (r: String)
        ensures
            r@ == self.spec_text(),
    {
        let mut s = self.name.clone();
        s.append("/");
        push_bool(&mut s, self.valid);
        s
    }
}

} // verus!

verus! {

/// A probe as it is handed across FFI: a name, and a check at a time given in seconds
/// since the epoch that answers 1 when healthy, 0 when not and -1 on an error.
/// Implemented by the probes of this library and by probes of the host application.
pub trait HealthProbe {
    /// Name of the probe
    fn name(&self) -> String;
    /// Checks the probe at a time given in seconds since the epoch: 1 healthy, 0 not,
    /// -1 an error
    fn check(&self, time: i64) -> i32;
}

/// Whether `r` is what a probe's answer means: 1 valid, 0 not valid, and anything else
/// an error whose message carries the answer.
pub open spec fn reads_reply(reply: i32, r: Result<bool, HamsError>) -> bool {
    if reply == 1 {
        r == Ok::<bool, HamsError>(true)
    } else if reply == 0 {
        r == Ok::<bool, HamsError>(false)
    } else {
        r matches Err(HamsError::Message(m)) && m@ == "Error in check probe got value: "@ + decimal_text(reply as int)
    }
}

/// What a probe's answer means: 1 valid, 0 not valid, and anything else an error
/// whose message carries the answer.
pub fn reply_to_result(reply: i32) -> (r: Result<bool, HamsError>)
    ensures
        reads_reply(reply, r),
{
    if reply == 1 {
        Ok(true)
    } else if reply == 0 {
        Ok(false)
    } else {
        let mut m = String::from_str("Error in check probe got value: ");
        push_decimal_i64(&mut m, reply as i64);
        Err(HamsError::Message(m))
    }
}

/// A probe behind the FFI interface, checked with a wall-clock time.
#[derive(Debug, Clone, PartialEq, Eq)]
pub struct FFIProbe<P> {
    /// The probe
    pub probe: P,
}

impl<P: HealthProbe> FFIProbe<P> {
    /// Wraps a probe.
    pub fn new(probe: P) -> (r: FFIProbe<P>)
        ensures
            r.probe == probe,
    {
        FFIProbe { probe }
    }

    /// The name of the probe, as the probe's own `name` gives it.
    pub fn name(&self) -> (r: Result<String, HamsError>)
        ensures
            r matches Ok(n) && call_ensures(P::name, (&self.probe,), n),
    {
        Ok(self.probe.name())
    }

    /// Checks the probe at a time given in whole seconds since the epoch:
    /// `TryFromIntError` when it does not fit a `time_t`; else the probe's answer read
    /// by [`reply_to_result`].
    pub fn check_at(&self, epoch_secs: u64) -> (r: Result<bool, HamsError>)
        ensures
            epoch_secs > i64::MAX ==> r == Err::<bool, HamsError>(HamsError::TryFromIntError),
            epoch_secs <= i64::MAX ==> exists|reply: i32|
                call_ensures(P::check, (&self.probe, epoch_secs as i64), reply) && reads_reply(reply, r),
    {
        if epoch_secs > i64::MAX as u64 {
            Err(HamsError::TryFromIntError)
        } else {
            reply_to_result(self.probe.check(epoch_secs as i64))
        }
    }

    /// Checks the probe at a wall-clock time: `SystemTimeError` for a time before the
    /// epoch, else as [`FFIProbe::check_at`] with its whole seconds, handed to the probe
    /// as a `time_t`.
    pub fn check(&self, time: &SystemTime) -> (r: Result<bool, HamsError>)
        ensures
            r == Err::<bool, HamsError>(HamsError::SystemTimeError)
                || r == Err::<bool, HamsError>(HamsError::TryFromIntError)
                || exists|secs: i64, reply: i32| secs >= 0
                    && call_ensures(P::check, (&self.probe, secs), reply) && reads_reply(reply, r),
            r == Err::<bool, HamsError>(HamsError::SystemTimeError)
                && call_ensures(epoch_seconds, (time,), Err::<u64, HamsError>(HamsError::SystemTimeError))
            || exists|secs: u64| call_ensures(epoch_seconds, (time,), Ok::<u64, HamsError>(secs))
                && call_ensures(Self::check_at, (self, secs), r),
    {
        match epoch_seconds(time) {
            Ok(secs) => self.check_at(secs),
            Err(e) => Err(e),
        }
    }
}

/// Checking a probe at a wall-clock time asks it about that very time: the answer is the
/// one [`FFIProbe::check_at`] gives for the whole seconds since the epoch that
/// [`epoch_seconds`] reads from the same time, and a time before the epoch is answered
/// `SystemTimeError`. No other time, such as the epoch itself, is handed to the probe.
pub proof fn law_check_asks_about_the_given_time<P: HealthProbe>(
    p: FFIProbe<P>,
    time: SystemTime,
    r: Result<bool, HamsError>,
)
    requires
        call_ensures(FFIProbe::<P>::check, (&p, &time), r),
    ensures
        r == Err::<bool, HamsError>(HamsError::SystemTimeError)
            && call_ensures(epoch_seconds, (&time,), Err::<u64, HamsError>(HamsError::SystemTimeError))
        || exists|secs: u64| call_ensures(epoch_seconds, (&time,), Ok::<u64, HamsError>(secs))
            && call_ensures(FFIProbe::<P>::check_at, (&p, secs), r)
            && (secs > i64::MAX ==> r == Err::<bool, HamsError>(HamsError::TryFromIntError))
            && (secs <= i64::MAX ==> exists|reply: i32|
                call_ensures(P::check, (&p.probe, secs as i64), reply) && reads_reply(reply, r)),
{
}

} // verus!
