//! The two allocators that ship with the server: a bounded pool and a single fixed address.

use vstd::prelude::*;
use crate::addr::Ipv4Addr;
use crate::bounded::{lease_records, table_new, table_push, table_remove, table_slice, LEASE_CAPACITY};
use crate::search::{first_index, first_index_is};
use crate::structs::{same_client, DhcpLease, DhcpLeaser};
use crate::table::{
    at_address, clients_unique, commit_then_lookup, committed_keeps_clients_unique, next_free_is,
    next_free_is_lowest_free, of_client, release_then_lookup, table_committed, table_holder, table_lookup,
    table_next_free, table_released, table_takes, taken,
};

verus! {

/// An allocator that lends the addresses from `start` to `end`, both included, and keeps
/// its leases in a table of at most sixteen.
pub struct SimpleDhcpLeaser {
    pub start: Ipv4Addr,
    pub end: Ipv4Addr,
    pub leases: heapless::Vec<DhcpLease, 16>,
}

impl View for SimpleDhcpLeaser {
    type V = Seq<DhcpLease>;

    /// The leases of the table, oldest insertion first.
    open spec fn view(&self) -> Seq<DhcpLease> {
        lease_records(self.leases)
    }
}

impl SimpleDhcpLeaser {
    /// The table holds at most one lease for each client.
    pub open spec fn wf(&self) -> bool {
        clients_unique(self@)
    }

    /// An allocator for the addresses from `start` to `end` that has lent none yet.
    pub fn new(start: Ipv4Addr, end: Ipv4Addr) -> (leaser: SimpleDhcpLeaser)
        ensures
            leaser.start == start,
            leaser.end == end,
            leaser@ == Seq::<DhcpLease>::empty(),
            leaser.wf(),
    {
        SimpleDhcpLeaser { start, end, leases: table_new() }
    }

    /// The number of leases in the table.
    pub fn lease_count(&self) -> (count: usize)
        ensures
            count == self@.len(),
            count <= LEASE_CAPACITY,
    {
        table_slice(&self.leases).len()
    }

    /// The place of the first lease of the client `mac`.
    fn position_of_client(&self, mac: &[u8; 16]) -> (place: Option<usize>)
        ensures
            self@.len() <= LEASE_CAPACITY,
            match place {
                Some(i) => first_index(self@, of_client(*mac)) == Some(i as int) && i < self@.len(),
                None => first_index(self@, of_client(*mac)) is None,
            },
    {
        let leases = table_slice(&self.leases);
        let mut i: usize = 0;
        while i < leases.len()
            invariant
                i <= leases.len(),
                leases@ == self@,
                leases@.len() <= LEASE_CAPACITY,
                forall|j: int| 0 <= j < i ==> !of_client(*mac)(#[trigger] leases@[j]),
            decreases leases.len() - i,
        {
            if same_client(&leases[i].mac, mac) {
                proof {
                    first_index_is(self@, of_client(*mac), i as int);
                }
                return Some(i);
            }
            i += 1;
        }
        None
    }

    /// Whether some lease of the table holds the address `ip`.
    fn holds_address(&self, ip: Ipv4Addr) -> (held: bool)
        ensures
            held == taken(self@, ip.bits),
    {
        let leases = table_slice(&self.leases);
        let mut i: usize = 0;
        while i < leases.len()
            invariant
                i <= leases.len(),
                leases@ == self@,
                forall|j: int| 0 <= j < i ==> (#[trigger] leases@[j]).ip.bits != ip.bits,
            decreases leases.len() - i,
        {
            if leases[i].ip == ip {
                return true;
            }
            i += 1;
        }
        false
    }
}

impl DhcpLeaser for SimpleDhcpLeaser {
    open spec fn lease_of(&self, mac: [u8; 16]) -> Option<DhcpLease> {
        table_lookup(self@, mac)
    }

    open spec fn holder_of(&self, ip: Ipv4Addr) -> Option<DhcpLease> {
        table_holder(self@, ip)
    }

    open spec fn free_address(&self) -> Option<Ipv4Addr> {
        table_next_free(self@, self.start, self.end)
    }

    open spec fn takes(&self, mac: [u8; 16]) -> bool {
        table_takes(self@, mac)
    }

    open spec fn with_lease(&self, lease: DhcpLease, after: &Self) -> bool {
        &&& after.start == self.start
        &&& after.end == self.end
        &&& after@ == table_committed(self@, lease)
    }

    open spec fn drops(&self, mac: [u8; 16]) -> bool {
        table_lookup(self@, mac) is Some
    }

    open spec fn without_client(&self, mac: [u8; 16], after: &Self) -> bool {
        &&& after.start == self.start
        &&& after.end == self.end
        &&& after@ == table_released(self@, mac)
    }

    fn get_lease(&mut self, mac: [u8; 16]) -> (lease: Option<DhcpLease>) {
        match self.position_of_client(&mac) {
            Some(i) => Some(table_slice(&self.leases)[i]),
            None => None,
        }
    }

    fn lease_at(&mut self, ip: Ipv4Addr) -> (lease: Option<DhcpLease>) {
        let leases = table_slice(&self.leases);
        let mut i: usize = 0;
        while i < leases.len()
            invariant
                i <= leases.len(),
                leases@ == self@,
                forall|j: int| 0 <= j < i ==> !at_address(ip)(#[trigger] leases@[j]),
            decreases leases.len() - i,
        {
            if leases[i].ip == ip {
                proof {
                    first_index_is(self@, at_address(ip), i as int);
                }
                return Some(leases[i]);
            }
            i += 1;
        }
        None
    }

    fn next_lease(&mut self) -> (ip: Option<Ipv4Addr>) {
        let start: u32 = self.start.bits;
        let end: u32 = self.end.bits;
        if start > end {
            return None;
        }
        let mut bits: u32 = start;
        loop
            invariant
                start == self.start.bits,
                end == self.end.bits,
                start <= bits <= end,
                forall|below: u32| start <= below < bits ==> #[trigger] taken(self@, below),
            decreases end - bits,
        {
            if !self.holds_address(Ipv4Addr { bits }) {
                proof {
                    next_free_is(self@, self.start, self.end, bits);
                }
                return Some(Ipv4Addr { bits });
            }
            if bits == end {
                return None;
            }
            bits += 1;
        }
    }

    fn add_lease(&mut self, ip: Ipv4Addr, mac: [u8; 16], expires: u64) -> (added: bool)
        ensures
            old(self).wf() ==> final(self).wf(),
    {
        proof {
            if self.wf() {
                committed_keeps_clients_unique(self@, DhcpLease { ip, mac, expires });
            }
        }
        self.remove_lease(mac);
        table_push(&mut self.leases, DhcpLease { ip, mac, expires }).is_ok()
    }

    fn remove_lease(&mut self, mac: [u8; 16]) -> (removed: bool)
        ensures
            old(self).wf() ==> final(self).wf(),
    {
        match self.position_of_client(&mac) {
            Some(i) => {
                table_remove(&mut self.leases, i);
                true
            },
            None => false,
        }
    }
}

/// After a commit that the pool took, the pool holds exactly the committed lease for the
/// client, and for every other client the lease that it held before.
pub proof fn pool_commit_then_lookup(
    before: SimpleDhcpLeaser,
    after: SimpleDhcpLeaser,
    lease: DhcpLease,
    other: [u8; 16],
)
    requires
        before.wf(),
        before.takes(lease.mac),
        before.with_lease(lease, &after),
    ensures
        after.wf(),
        after.lease_of(lease.mac) == Some(lease),
        other != lease.mac ==> after.lease_of(other) == before.lease_of(other),
{
    committed_keeps_clients_unique(before@, lease);
    commit_then_lookup(before@, lease, other);
}

/// After a release the pool holds no lease for the client, and for every other client
/// the lease that it held before.
pub proof fn pool_release_then_lookup(
    before: SimpleDhcpLeaser,
    after: SimpleDhcpLeaser,
    mac: [u8; 16],
    other: [u8; 16],
)
    requires
        before.wf(),
        before.without_client(mac, &after),
    ensures
        after.wf(),
        after.lease_of(mac) is None,
        other != mac ==> after.lease_of(other) == before.lease_of(other),
{
    release_then_lookup(before@, mac, other);
}

/// A pool has no address to hand out exactly when every address of its range is held
/// by a lease, run out or not; what it hands out is the lowest address of the range
/// that no lease holds.
pub proof fn pool_hands_out_lowest_free(leaser: SimpleDhcpLeaser)
    ensures
        leaser.free_address() is None <==> forall|bits: u32|
            leaser.start.bits <= bits <= leaser.end.bits ==> #[trigger] taken(leaser@, bits),
        leaser.free_address() matches Some(ip) ==> leaser.start.bits <= ip.bits <= leaser.end.bits && !taken(
            leaser@,
            ip.bits,
        ),
{
    next_free_is_lowest_free(leaser@, leaser.start, leaser.end);
}

/// An allocator that serves one known client: it always hands out `ip` and keeps no
/// record of what it lent.
pub struct SingleDhcpLeaser {
    pub ip: Ipv4Addr,
}

impl SingleDhcpLeaser {
    /// An allocator that hands out `ip`.
    pub fn new(ip: Ipv4Addr) -> (leaser: SingleDhcpLeaser)
        ensures
            leaser.ip == ip,
    {
        SingleDhcpLeaser { ip }
    }
}

impl DhcpLeaser for SingleDhcpLeaser {
    open spec fn lease_of(&self, mac: [u8; 16]) -> Option<DhcpLease> {
        None
    }

    open spec fn holder_of(&self, ip: Ipv4Addr) -> Option<DhcpLease> {
        None
    }

    open spec fn free_address(&self) -> Option<Ipv4Addr> {
        Some(self.ip)
    }

    open spec fn takes(&self, mac: [u8; 16]) -> bool {
        true
    }

    open spec fn with_lease(&self, lease: DhcpLease, after: &Self) -> bool {
        *after == *self
    }

    open spec fn drops(&self, mac: [u8; 16]) -> bool {
        true
    }

    open spec fn without_client(&self, mac: [u8; 16], after: &Self) -> bool {
        *after == *self
    }

    fn get_lease(&mut self, _mac: [u8; 16]) -> (lease: Option<DhcpLease>) {
        None
    }

    fn lease_at(&mut self, _ip: Ipv4Addr) -> (lease: Option<DhcpLease>) {
        None
    }

    fn next_lease(&mut self) -> (ip: Option<Ipv4Addr>) {
        Some(self.ip)
    }

    fn add_lease(&mut self, _ip: Ipv4Addr, _mac: [u8; 16], _expires: u64) -> (added: bool) {
        true
    }

    fn remove_lease(&mut self, _mac: [u8; 16]) -> (removed: bool) {
        true
    }
}

/// Whatever is committed to or released from the fixed allocator, it stays as it is:
/// it hands out its one address and reports no lease.
pub proof fn fixed_allocator_never_changes(
    before: SingleDhcpLeaser,
    after: SingleDhcpLeaser,
    lease: DhcpLease,
    mac: [u8; 16],
)
    requires
        before.with_lease(lease, &after) || before.without_client(mac, &after),
    ensures
        after == before,
        after.free_address() == Some(before.ip),
        after.lease_of(mac) is None,
        after.holder_of(lease.ip) is None,
{
}

} // verus!
