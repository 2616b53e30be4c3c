//! Port allocator: acquires five distinct free local TCP ports by briefly
//! binding listeners on the loopback address.
//!
//! The listeners are all held alive until the whole set is allocated, so the
//! returned ports are pairwise distinct; they are released together when the
//! reserver is dropped. Another process may claim a port between release and
//! the kernel's own bind: that race is inherent to the protocol and is not
//! retried.

use vstd::prelude::*;

verus! {

#[verifier::external_type_specification]
#[verifier::external_body]
pub struct ExTcpListener(smol::net::TcpListener);

/// A set of listeners held on the loopback address, each pinning the port
/// it was bound to.
pub struct PortReserver {
    held: Vec<(smol::net::TcpListener, u16)>,
}

impl PortReserver {
    /// The ports currently pinned, in the order they were acquired.
    pub closed spec fn ports(&self) -> Seq<u16> {
        self.held@.map_values(|p: (smol::net::TcpListener, u16)| p.1)
    }

    pub fn new() -> (r: PortReserver)
        ensures
            r.ports() == Seq::<u16>::empty(),
    {
        let r = PortReserver { held: Vec::new() };
        proof {
            assert(r.ports() =~= Seq::<u16>::empty());
        }
        r
    }

    /// Relies on smol::net::TcpListener::bind with port zero, and on
    /// local_addr: the system assigns a free port, nonzero and distinct
    /// from every port a live listener holds, and the listener keeps it
    /// bound while it lives. `None` on any bind error.
    #[verifier::external_body]
    fn reserve(&mut self) -> (r: Option<u16>)
        ensures
            match r {
                Some(p) => final (self).ports() == old(self).ports().push(p) && p != 0 && !old(
                    self,
                ).ports().contains(p),
                None => final (self).ports() == old(self).ports(),
            },
    {
        match smol::block_on(smol::net::TcpListener::bind(("127.0.0.1", 0u16))) {
            Ok(listener) => match listener.local_addr() {
                Ok(addr) => {
                    let port = addr.port();
                    self.held.push((listener, port));
                    Some(port)
                },
                Err(_) => None,
            },
            Err(_) => None,
        }
    }
}

/// Allocates five pairwise-distinct free TCP ports on the loopback address.
/// The listeners that pinned them are all released on return; a bind error
/// aborts the whole allocation.
pub fn peek_ports() -> (r: Option<Vec<u16>>)
    ensures
        match r {
            Some(ports) => {
                &&& ports@.len() == 5
                &&& forall|i: int, j: int| 0 <= i < j < 5 ==> ports@[i] != ports@[j]
                &&& forall|i: int| 0 <= i < 5 ==> ports@[i] != 0
            },
            None => true,
        },
{
    let mut reserver = PortReserver::new();
    let mut ports: Vec<u16> = Vec::new();
    let mut i: usize = 0;
    while i < 5
        invariant
            i <= 5,
            ports@.len() == i,
            reserver.ports() == ports@,
            forall|p: int, q: int| 0 <= p < q < i ==> ports@[p] != ports@[q],
            forall|p: int| 0 <= p < i ==> ports@[p] != 0,
        decreases 5 - i,
    {
        match reserver.reserve() {
            Some(port) => {
                proof {
                    assert(!ports@.contains(port));
                    assert(forall|p: int| 0 <= p < i ==> ports@[p] != port);
                }
                ports.push(port);
            },
            None => {
                return None;
            },
        }
        i = i + 1;
    }
    Some(ports)
}

} // verus!
