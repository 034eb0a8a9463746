//! Name resolution with a fallback: the system's resolver first, then Cloudflare's.

use vstd::prelude::*;

verus! {

/// An IP address: four bytes for version 4, eight 16-bit groups for version 6.
#[derive(Debug, Clone, Copy, PartialEq, Eq, Structural)]
pub enum IpAddress {
    V4(u8, u8, u8, u8),
    V6(u16, u16, u16, u16, u16, u16, u16, u16),
}

/// An address and a port to connect to.
#[derive(Debug, Clone, Copy, PartialEq, Eq, Structural)]
pub struct SocketTarget {
    pub ip: IpAddress,
    pub port: u16,
}

/// The port of HTTPS.
pub const HTTPS_PORT: u16 = 443;

/// The addresses, in order, each with the HTTPS port.
pub fn with_https_port(ips: &Vec<IpAddress>) -> (v: Vec<SocketTarget>)
    ensures
        v@.len() == ips@.len(),
        forall|i: int| 0 <= i < ips@.len() ==> #[trigger] v@[i] == (SocketTarget { ip: ips@[i], port: HTTPS_PORT }),
{
    let mut v: Vec<SocketTarget> = Vec::new();
    for i in 0..ips.len()
        invariant
            v@.len() == i,
            forall|j: int| 0 <= j < i ==> #[trigger] v@[j] == (SocketTarget { ip: ips@[j], port: HTTPS_PORT }),
    {
        v.push(SocketTarget { ip: ips[i], port: HTTPS_PORT });
    }
    v
}

/// What follows the system resolver's answer.
#[derive(Debug)]
pub enum LookupStep {
    /// The lookup is over.
    Resolved(Vec<SocketTarget>),
    /// The system resolver failed: ask Cloudflare's.
    AskFallback,
}

/// The system resolver's addresses are used when it answers; otherwise Cloudflare's
/// resolver is asked.
pub fn after_system_lookup(answer: Result<Vec<IpAddress>, String>) -> (s: LookupStep)
    ensures
        match answer {
            Ok(ips) => (s matches LookupStep::Resolved(v) && v@.len() == ips@.len() && forall|i: int|
                0 <= i < ips@.len() ==> #[trigger] v@[i] == (SocketTarget { ip: ips@[i], port: HTTPS_PORT })),
            Err(_) => s is AskFallback,
        },
{
    match answer {
        Ok(ips) => LookupStep::Resolved(with_https_port(&ips)),
        Err(_) => LookupStep::AskFallback,
    }
}

/// The outcome of the lookup once Cloudflare's resolver answered: its addresses, or its
/// error.
pub fn after_fallback_lookup(answer: Result<Vec<IpAddress>, String>) -> (r: Result<Vec<SocketTarget>, String>)
    ensures
        match answer {
            Ok(ips) => (r matches Ok(v) && v@.len() == ips@.len() && forall|i: int|
                0 <= i < ips@.len() ==> #[trigger] v@[i] == (SocketTarget { ip: ips@[i], port: HTTPS_PORT })),
            Err(e) => r == Err::<Vec<SocketTarget>, String>(e),
        },
{
    match answer {
        Ok(ips) => Ok(with_https_port(&ips)),
        Err(e) => Err(e),
    }
}

} // verus!
