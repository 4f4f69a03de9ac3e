//! The data that the server and its allocators share.

use vstd::prelude::*;
use crate::addr::Ipv4Addr;

verus! {

/// The size of the buffers that datagrams are received into and replies are built in.
pub const DHCP_BUFFER_SIZE: usize = 1024;

/// The UDP port that the server listens on.
pub const DHCP_SERVER_PORT: u16 = 67;

/// The UDP port that replies are broadcast to.
pub const DHCP_CLIENT_PORT: u16 = 68;

/// One address assignment: `ip` is lent to the client `mac` until the clock passes `expires`.
///
/// `mac` is the whole 16-byte hardware-address field of the client's messages; two clients
/// are the same exactly when all 16 bytes agree. `expires` counts clock ticks.
#[derive(Debug, Clone, Copy, PartialEq, Eq)]
pub struct DhcpLease {
    pub ip: Ipv4Addr,
    pub mac: [u8; 16],
    pub expires: u64,
}

/// What a server is set up with. It stays as it is for the server's whole life.
#[derive(Debug, Clone, Copy)]
pub struct DhcpServerConfig<'a> {
    /// The address by which the server names itself.
    pub ip: Ipv4Addr,
    /// How long a lease lasts, in clock ticks.
    pub lease_time: u64,
    /// The gateways that are announced to clients, in this order.
    pub gateways: &'a [Ipv4Addr],
    /// The subnet mask that is announced to clients.
    pub subnet: Option<Ipv4Addr>,
    /// The name servers that are announced to clients, in this order.
    pub dns: &'a [Ipv4Addr],
    /// Kept for a later use; the server does not read it.
    pub use_captive_portal: bool,
}

/// Whether two client identifiers are the same, byte for byte.
pub fn same_client(a: &[u8; 16], b: &[u8; 16]) -> (same: bool)
    ensures
        same <==> *a == *b,
{
    let mut i: usize = 0;
    while i < 16
        invariant
            i <= 16,
            forall|j: int| 0 <= j < i ==> a[j] == b[j],
        decreases 16 - i,
    {
        if a[i] != b[i] {
            return false;
        }
        i += 1;
    }
    assert(*a =~= *b);
    true
}

/// An allocator of leases: the rule by which the server finds, hands out, records and
/// forgets addresses.
///
/// The spec functions say what each operation answers and what it leaves behind; an
/// allocator defines them, and the server's contract is stated through them.
pub trait DhcpLeaser: Sized {
    /// The lease that the allocator holds for the client `mac`.
    spec fn lease_of(&self, mac: [u8; 16]) -> Option<DhcpLease>;

    /// The lease that holds the address `ip`.
    spec fn holder_of(&self, ip: Ipv4Addr) -> Option<DhcpLease>;

    /// The address that the allocator hands out next.
    spec fn free_address(&self) -> Option<Ipv4Addr>;

    /// Whether the allocator accepts a new lease for the client `mac`.
    spec fn takes(&self, mac: [u8; 16]) -> bool;

    /// Whether `after` is what this allocator becomes when it is asked to record `lease`.
    spec fn with_lease(&self, lease: DhcpLease, after: &Self) -> bool;

    /// Whether the allocator reports a removal when the client `mac` gives up its lease.
    spec fn drops(&self, mac: [u8; 16]) -> bool;

    /// Whether `after` is what this allocator becomes when the client `mac` gives up its
    /// lease.
    spec fn without_client(&self, mac: [u8; 16], after: &Self) -> bool;

    /// The current lease of the client `mac`. Asking changes nothing.
    fn get_lease(&mut self, mac: [u8; 16]) -> (lease: Option<DhcpLease>)
        ensures
            lease == old(self).lease_of(mac),
            *final(self) == *old(self),
    ;

    /// The lease that holds the address `ip`. Asking changes nothing.
    fn lease_at(&mut self, ip: Ipv4Addr) -> (lease: Option<DhcpLease>)
        ensures
            lease == old(self).holder_of(ip),
            *final(self) == *old(self),
    ;

    /// An address that is lent to nobody. Asking changes nothing.
    fn next_lease(&mut self) -> (ip: Option<Ipv4Addr>)
        ensures
            ip == old(self).free_address(),
            *final(self) == *old(self),
    ;

    /// Replaces whatever lease the client `mac` has by one on `ip` until `expires`.
    fn add_lease(&mut self, ip: Ipv4Addr, mac: [u8; 16], expires: u64) -> (added: bool)
        ensures
            added == old(self).takes(mac),
            old(self).with_lease((DhcpLease { ip, mac, expires }), final(self)),
    ;

    /// Forgets the lease of the client `mac`.
    fn remove_lease(&mut self, mac: [u8; 16]) -> (removed: bool)
        ensures
            removed == old(self).drops(mac),
            old(self).without_client(mac, final(self)),
    ;
}

} // verus!
