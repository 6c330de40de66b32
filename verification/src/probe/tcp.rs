//! A probe that a TCP connection can be opened.

use vstd::prelude::*;
use vstd::string::*;
use crate::error::HamsError;
use crate::text::has_nul;

verus! {

/// A probe that is healthy while a TCP connection to its address opens within the
/// timeout. The connection itself is made by the application, which owns the network.
#[derive(Debug, Clone, PartialEq, Eq)]
pub struct TcpProbe {
    /// Name of the probe
    pub name: String,
    /// Address to connect to, `host:port`
    pub addr: String,
    /// Time allowed to connect, in milliseconds
    pub timeout_ms: u64,
}

impl TcpProbe {
    /// A probe for `addr`, given whether the address resolves to socket addresses:
    /// `NulError` when the name holds a NUL; `Invalid address: <addr>` when the address
    /// does not resolve.
    pub fn new(name: &str, addr: &str, timeout_ms: u64, addr_resolves: bool) -> (r: Result<TcpProbe, HamsError>)
        ensures
            name@.contains('\0') ==> r == Err::<TcpProbe, HamsError>(HamsError::NulError),
            !name@.contains('\0') && !addr_resolves ==> (r matches Err(HamsError::Message(m))
                && m@ == "Invalid address: "@ + addr@),
            r is Ok <==> !name@.contains('\0') && addr_resolves,
            r matches Ok(p) ==> p.name@ == name@ && p.addr@ == addr@ && p.timeout_ms == timeout_ms,
    {
        if has_nul(name) {
            return Err(HamsError::NulError);
        }
        if !addr_resolves {
            let mut m = String::from_str("Invalid address: ");
            m.append(addr);
            return Err(HamsError::Message(m));
        }
        Ok(TcpProbe { name: name.to_owned(), addr: addr.to_owned(), timeout_ms })
    }
}

} // verus!
