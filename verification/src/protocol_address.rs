//! Peer exchange: periodically announces the locally known, externally
//! reachable addresses to the peer, and forwards the peer's announcements to
//! the external address store. Forwarding is fire-and-forget: this protocol
//! never blocks on the collaborator, and deduplication is the store's
//! business, not this protocol's.

use vstd::prelude::*;

verus! {

/// What the peer-exchange protocol observes.
pub enum AddressEvent {
    /// The announce interval elapsed; the runtime read this snapshot of the
    /// locally known addresses from the store.
    AnnounceTick(Vec<String>),
    /// The peer announced these addresses.
    PeerAddrs(Vec<String>),
}

/// What the runtime must do after a step.
pub enum AddressAction {
    /// Send this address set to the peer.
    SendAddrs(Vec<String>),
    /// Hand these addresses to the address store, without waiting on it.
    ForwardToStore(Vec<String>),
}

/// The peer-exchange protocol of one established channel. It keeps the last
/// set it announced; everything else flows straight through.
pub struct ProtocolAddress {
    /// The addresses most recently announced to the peer.
    pub last_announced: Vec<String>,
}

impl ProtocolAddress {
    /// A fresh peer exchange that has announced nothing yet.
    pub fn new() -> (p: ProtocolAddress)
        ensures
            p.last_announced@.len() == 0,
    {
        ProtocolAddress { last_announced: Vec::new() }
    }

    /// Consumes one event. An announce tick sends exactly the snapshot it was
    /// given and records it; a peer announcement is forwarded to the store
    /// entry for entry, unchanged and in order, and changes nothing here.
    pub fn step(&mut self, ev: AddressEvent) -> (r: AddressAction)
        ensures
            match ev {
                AddressEvent::AnnounceTick(addrs) => {
                    &&& r == AddressAction::SendAddrs(addrs)
                    &&& final(self).last_announced@.len() == addrs@.len()
                    &&& forall|i: int|
                        0 <= i < addrs@.len() ==> #[trigger] final(self).last_announced@[i]@
                            == addrs@[i]@
                },
                AddressEvent::PeerAddrs(addrs) => {
                    &&& r == AddressAction::ForwardToStore(addrs)
                    &&& *final(self) == *old(self)
                },
            },
    {
        match ev {
            AddressEvent::AnnounceTick(addrs) => {
                self.last_announced = copy_addrs(&addrs);
                AddressAction::SendAddrs(addrs)
            },
            AddressEvent::PeerAddrs(addrs) => AddressAction::ForwardToStore(addrs),
        }
    }
}

/// A copy of an address list with the same entries in the same order.
pub fn copy_addrs(addrs: &Vec<String>) -> (r: Vec<String>)
    ensures
        r@.len() == addrs@.len(),
        forall|i: int| 0 <= i < addrs@.len() ==> #[trigger] r@[i]@ == addrs@[i]@,
{
    let mut out: Vec<String> = Vec::new();
    let mut i: usize = 0;
    while i < addrs.len()
        invariant
            i <= addrs@.len(),
            out@.len() == i,
            forall|j: int| 0 <= j < i ==> #[trigger] out@[j]@ == addrs@[j]@,
        decreases addrs@.len() - i,
    {
        out.push(addrs[i].clone());
        i = i + 1;
    }
    out
}

} // verus!
