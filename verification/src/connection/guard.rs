use crate::peer::PeerAddr;
use vstd::prelude::*;

verus! {

/// The token of one connection that was let in. It is handed out by
/// [`crate::connection::Manager::accept_connection`] and handed back to
/// [`crate::connection::Manager::release`] when the connection ends; it
/// cannot be copied, so each admission is released at most once.
#[derive(Debug)]
pub struct ConnectionGuard {
    addr: PeerAddr,
    per_ip_permit: bool,
}

impl ConnectionGuard {
    /// The client whose connection this is.
    pub closed spec fn peer(self) -> PeerAddr {
        self.addr
    }

    /// Whether the connection holds a permit of its address besides the
    /// permit that every connection holds.
    pub closed spec fn holds_per_ip_permit(self) -> bool {
        self.per_ip_permit
    }

    /// The token for a connection of `addr`.
    pub(crate) fn issue(addr: PeerAddr, per_ip_permit: bool) -> (guard: Self)
        ensures
            guard.peer() == addr,
            guard.holds_per_ip_permit() == per_ip_permit,
    {
        ConnectionGuard { addr, per_ip_permit }
    }

    /// The client whose connection this is.
    pub fn addr(&self) -> (addr: PeerAddr)
        ensures
            addr == self.peer(),
    {
        self.addr
    }

    /// Whether the connection holds a permit of its address.
    pub fn has_per_ip_permit(&self) -> (b: bool)
        ensures
            b == self.holds_per_ip_permit(),
    {
        self.per_ip_permit
    }
}

} // verus!
