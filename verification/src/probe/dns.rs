//! A probe that a host name resolves.

use vstd::prelude::*;
use crate::error::HamsError;
use crate::text::has_nul;

verus! {

/// A probe that is healthy while its host name resolves. The name resolution itself is
/// done by the application, which owns the network.
#[derive(Debug, Clone, PartialEq, Eq)]
pub struct DnsProbe {
    /// Name of the probe
    pub name: String,
    /// Host name to resolve
    pub host: String,
}

impl DnsProbe {
    /// A probe for `host`; `NulError` when the name holds a NUL, which C cannot carry.
    pub fn new(name: &str, host: &str) -> (r: Result<DnsProbe, HamsError>)
        ensures
            name@.contains('\0') <==> r is Err,
            r is Err ==> r == Err::<DnsProbe, HamsError>(HamsError::NulError),
            r matches Ok(p) ==> p.name@ == name@ && p.host@ == host@,
    {
        if has_nul(name) {
            return Err(HamsError::NulError);
        }
        Ok(DnsProbe { name: name.to_owned(), host: host.to_owned() })
    }
}

} // verus!
