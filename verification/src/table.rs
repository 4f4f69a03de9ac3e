//! The lease table as a sequence of leases: what its operations compute, and what holds
//! of them.

use vstd::prelude::*;
use crate::addr::Ipv4Addr;
use crate::bounded::LEASE_CAPACITY;
use crate::search::{first_index, first_index_is, first_index_none, is_first};
use crate::structs::DhcpLease;

verus! {

/// The condition "this lease belongs to the client `mac`".
pub open spec fn of_client(mac: [u8; 16]) -> spec_fn(DhcpLease) -> bool {
    |lease: DhcpLease| lease.mac == mac
}

/// The condition "this lease holds the address `ip`".
pub open spec fn at_address(ip: Ipv4Addr) -> spec_fn(DhcpLease) -> bool {
    |lease: DhcpLease| lease.ip == ip
}

/// The first lease of the table that belongs to the client `mac`.
pub open spec fn table_lookup(table: Seq<DhcpLease>, mac: [u8; 16]) -> Option<DhcpLease> {
    match first_index(table, of_client(mac)) {
        Some(i) => Some(table[i]),
        None => None,
    }
}

/// The first lease of the table that holds the address `ip`.
pub open spec fn table_holder(table: Seq<DhcpLease>, ip: Ipv4Addr) -> Option<DhcpLease> {
    match first_index(table, at_address(ip)) {
        Some(i) => Some(table[i]),
        None => None,
    }
}

/// Whether some lease of the table, expired or not, holds the address with the value `bits`.
pub open spec fn taken(table: Seq<DhcpLease>, bits: u32) -> bool {
    exists|i: int| 0 <= i < table.len() && (#[trigger] table[i]).ip.bits == bits
}

/// Whether `bits` is the lowest address from `start` to `end` that no lease holds.
pub open spec fn is_next_free(table: Seq<DhcpLease>, start: u32, end: u32, bits: u32) -> bool {
    &&& start <= bits <= end
    &&& !taken(table, bits)
    &&& forall|below: u32| start <= below < bits ==> #[trigger] taken(table, below)
}

/// The lowest address from `start` to `end` that no lease of the table holds.
pub open spec fn table_next_free(table: Seq<DhcpLease>, start: Ipv4Addr, end: Ipv4Addr) -> Option<Ipv4Addr> {
    if exists|bits: u32| is_next_free(table, start.bits, end.bits, bits) {
        Some(Ipv4Addr { bits: choose|bits: u32| is_next_free(table, start.bits, end.bits, bits) })
    } else {
        None
    }
}

/// The table without the first lease of the client `mac`.
pub open spec fn table_released(table: Seq<DhcpLease>, mac: [u8; 16]) -> Seq<DhcpLease> {
    match first_index(table, of_client(mac)) {
        Some(i) => table.remove(i),
        None => table,
    }
}

/// Whether a table has room for a new lease of the client `mac`, once the client's old
/// lease is out.
pub open spec fn table_takes(table: Seq<DhcpLease>, mac: [u8; 16]) -> bool {
    table_released(table, mac).len() < LEASE_CAPACITY
}

/// The table after a commit of `lease`: the client's old lease leaves, and `lease` goes to
/// the end if there is room.
pub open spec fn table_committed(table: Seq<DhcpLease>, lease: DhcpLease) -> Seq<DhcpLease> {
    if table_takes(table, lease.mac) {
        table_released(table, lease.mac).push(lease)
    } else {
        table_released(table, lease.mac)
    }
}

/// No client has two leases.
pub open spec fn clients_unique(table: Seq<DhcpLease>) -> bool {
    forall|i: int, j: int| 0 <= i < j < table.len() ==> (#[trigger] table[i]).mac != (#[trigger] table[j]).mac
}

/// No address is held by two leases.
pub open spec fn addresses_unique(table: Seq<DhcpLease>) -> bool {
    forall|i: int, j: int| 0 <= i < j < table.len() ==> (#[trigger] table[i]).ip != (#[trigger] table[j]).ip
}

/// Every lease is on an address from `start` to `end`.
pub open spec fn addresses_within(table: Seq<DhcpLease>, start: Ipv4Addr, end: Ipv4Addr) -> bool {
    forall|i: int| 0 <= i < table.len() ==> start.bits <= (#[trigger] table[i]).ip.bits <= end.bits
}

/// Whether a lease of another client than `mac` holds the address `ip`.
pub open spec fn held_by_other(table: Seq<DhcpLease>, ip: Ipv4Addr, mac: [u8; 16]) -> bool {
    exists|i: int| 0 <= i < table.len() && (#[trigger] table[i]).ip == ip && table[i].mac != mac
}

/// A range has at most one lowest free address.
pub proof fn next_free_is(table: Seq<DhcpLease>, start: Ipv4Addr, end: Ipv4Addr, bits: u32)
    requires
        is_next_free(table, start.bits, end.bits, bits),
    ensures
        table_next_free(table, start, end) == Some(Ipv4Addr { bits }),
{
}

/// A free address of the range has a lowest free address at or below it.
proof fn lowest_free_below(table: Seq<DhcpLease>, start: Ipv4Addr, end: Ipv4Addr, bits: u32)
    requires
        start.bits <= bits <= end.bits,
        !taken(table, bits),
    ensures
        table_next_free(table, start, end) is Some,
    decreases bits,
{
    if forall|below: u32| start.bits <= below < bits ==> #[trigger] taken(table, below) {
        next_free_is(table, start, end, bits);
    } else {
        let below = choose|below: u32| start.bits <= below < bits && !#[trigger] taken(table, below);
        lowest_free_below(table, start, end, below);
    }
}

/// Where a table has a lease of the client `mac`, the table without it is the old one
/// with that place left out; where it has none, it is the old one.
pub proof fn released_is_table_without_one(table: Seq<DhcpLease>, mac: [u8; 16])
    ensures
        match first_index(table, of_client(mac)) {
            Some(i) => {
                &&& is_first(table, of_client(mac), i)
                &&& table_released(table, mac).len() == table.len() - 1
                &&& forall|k: int| 0 <= k < i ==> #[trigger] table_released(table, mac)[k] == table[k]
                &&& forall|k: int|
                    i <= k < table.len() - 1 ==> #[trigger] table_released(table, mac)[k] == table[k + 1]
            },
            None => {
                &&& table_released(table, mac) == table
                &&& forall|k: int| 0 <= k < table.len() ==> (#[trigger] table[k]).mac != mac
            },
        },
{
    first_index_none(table, of_client(mac));
}

/// Taking a client's lease out leaves no client with two leases, where none had two
/// before, and then leaves the client with none.
pub proof fn released_keeps_clients_unique(table: Seq<DhcpLease>, mac: [u8; 16])
    requires
        clients_unique(table),
    ensures
        clients_unique(table_released(table, mac)),
        forall|k: int|
            0 <= k < table_released(table, mac).len() ==> (#[trigger] table_released(table, mac)[k]).mac != mac,
{
    released_is_table_without_one(table, mac);
}

/// Taking a client's lease out leaves no address with two leases, where none had two
/// before, and takes no lease and no address into the table.
pub proof fn released_keeps_addresses_unique(table: Seq<DhcpLease>, mac: [u8; 16])
    ensures
        addresses_unique(table) ==> addresses_unique(table_released(table, mac)),
        forall|bits: u32| taken(table_released(table, mac), bits) ==> taken(table, bits),
        forall|k: int|
            0 <= k < table_released(table, mac).len() ==> table.contains(#[trigger] table_released(table, mac)[k]),
{
}

/// A commit leaves no client with two leases, where none had two before, and never
/// leaves more leases than the table can hold.
pub proof fn committed_keeps_clients_unique(table: Seq<DhcpLease>, lease: DhcpLease)
    requires
        clients_unique(table),
    ensures
        clients_unique(table_committed(table, lease)),
        table.len() <= LEASE_CAPACITY ==> table_committed(table, lease).len() <= LEASE_CAPACITY,
{
    released_is_table_without_one(table, lease.mac);
}

/// After a release the client has no lease, and every other client has the lease that
/// it had.
pub proof fn release_then_lookup(table: Seq<DhcpLease>, mac: [u8; 16], other: [u8; 16])
    requires
        clients_unique(table),
    ensures
        table_lookup(table_released(table, mac), mac) is None,
        other != mac ==> table_lookup(table_released(table, mac), other) == table_lookup(table, other),
{
    if other != mac {
        released_keeps_other_client(table, mac, other);
    }
}

/// Taking out the lease of one client leaves the lease of another where it is found.
proof fn released_keeps_other_client(table: Seq<DhcpLease>, mac: [u8; 16], other: [u8; 16])
    requires
        other != mac,
    ensures
        table_lookup(table_released(table, mac), other) == table_lookup(table, other),
{
    let after = table_released(table, mac);
    first_index_none(table, of_client(other));
    match (first_index(table, of_client(mac)), first_index(table, of_client(other))) {
        (Some(i), Some(j)) => {
            first_index_is(after, of_client(other), if j < i { j } else { j - 1 });
        },
        _ => {},
    }
}

/// After a commit that the table had room for, the client has exactly the lease that
/// was committed, and every other client has the lease that it had.
pub proof fn commit_then_lookup(table: Seq<DhcpLease>, lease: DhcpLease, other: [u8; 16])
    requires
        clients_unique(table),
        table_takes(table, lease.mac),
    ensures
        table_lookup(table_committed(table, lease), lease.mac) == Some(lease),
        other != lease.mac ==> table_lookup(table_committed(table, lease), other) == table_lookup(table, other),
{
    released_keeps_clients_unique(table, lease.mac);
    let middle = table_released(table, lease.mac);
    first_index_is(table_committed(table, lease), of_client(lease.mac), middle.len() as int);
    if other != lease.mac {
        released_keeps_other_client(table, lease.mac, other);
        pushed_keeps_other_client(middle, lease, other);
    }
}

/// A lease that goes to the end of a table leaves the lease of another client where it
/// is found.
proof fn pushed_keeps_other_client(table: Seq<DhcpLease>, lease: DhcpLease, other: [u8; 16])
    requires
        other != lease.mac,
    ensures
        table_lookup(table.push(lease), other) == table_lookup(table, other),
{
    let after = table.push(lease);
    first_index_none(table, of_client(other));
    match first_index(table, of_client(other)) {
        Some(j) => {
            first_index_is(after, of_client(other), j);
        },
        None => {},
    }
}

/// A commit of an address that no other client holds leaves no address with two leases,
/// where none had two before.
pub proof fn committed_keeps_addresses_unique(table: Seq<DhcpLease>, lease: DhcpLease)
    requires
        clients_unique(table),
        addresses_unique(table),
        !held_by_other(table, lease.ip, lease.mac),
    ensures
        addresses_unique(table_committed(table, lease)),
{
    released_keeps_clients_unique(table, lease.mac);
}

/// A table whose leases are all on addresses of a range stays so by a release, and by a
/// commit of an address of the range.
pub proof fn range_is_kept(table: Seq<DhcpLease>, start: Ipv4Addr, end: Ipv4Addr, lease: DhcpLease)
    requires
        addresses_within(table, start, end),
    ensures
        addresses_within(table_released(table, lease.mac), start, end),
        start.bits <= lease.ip.bits <= end.bits ==> addresses_within(table_committed(table, lease), start, end),
{
}

/// Two clients that both have a lease have leases on different addresses, in a table
/// where no address has two leases.
pub proof fn distinct_clients_hold_distinct_addresses(table: Seq<DhcpLease>, one: [u8; 16], other: [u8; 16])
    requires
        addresses_unique(table),
        one != other,
    ensures
        table_lookup(table, one) is Some && table_lookup(table, other) is Some ==> table_lookup(
            table,
            one,
        ).unwrap().ip != table_lookup(table, other).unwrap().ip,
{
}

/// An address that no lease holds, or whose first lease is the client's own, is held by no
/// other client, in a table where no address has two leases.
pub proof fn open_address_is_spared(table: Seq<DhcpLease>, ip: Ipv4Addr, mac: [u8; 16])
    requires
        addresses_unique(table),
        table_holder(table, ip) matches Some(lease) ==> lease.mac == mac,
    ensures
        !held_by_other(table, ip, mac),
{
    first_index_none(table, at_address(ip));
}

/// The address of a client's own lease is held by no other client, in a table where no
/// address has two leases.
pub proof fn own_address_is_spared(table: Seq<DhcpLease>, mac: [u8; 16])
    requires
        addresses_unique(table),
        table_lookup(table, mac) is Some,
    ensures
        !held_by_other(table, table_lookup(table, mac).unwrap().ip, mac),
{
}

/// The address that a table hands out is held by no client.
pub proof fn free_address_is_spared(table: Seq<DhcpLease>, start: Ipv4Addr, end: Ipv4Addr, mac: [u8; 16])
    requires
        table_next_free(table, start, end) is Some,
    ensures
        !held_by_other(table, table_next_free(table, start, end).unwrap(), mac),
{
}

/// One change of a lease table.
pub enum TableOp {
    /// The commit of a lease.
    Commit(DhcpLease),
    /// The release of a client's lease.
    Release([u8; 16]),
}

/// The table after one change.
pub open spec fn table_step(table: Seq<DhcpLease>, op: TableOp) -> Seq<DhcpLease> {
    match op {
        TableOp::Commit(lease) => table_committed(table, lease),
        TableOp::Release(mac) => table_released(table, mac),
    }
}

/// The table that the changes `ops`, made in this order, leave of an empty table.
pub open spec fn table_after(ops: Seq<TableOp>) -> Seq<DhcpLease>
    decreases ops.len(),
{
    if ops.len() == 0 {
        Seq::empty()
    } else {
        table_step(table_after(ops.drop_last()), ops.last())
    }
}

/// Whether no commit among `ops` takes an address that another client holds at that time.
pub open spec fn commits_spare_other_clients(ops: Seq<TableOp>) -> bool
    decreases ops.len(),
{
    if ops.len() == 0 {
        true
    } else {
        &&& commits_spare_other_clients(ops.drop_last())
        &&& ops.last() matches TableOp::Commit(lease) ==> !held_by_other(
            table_after(ops.drop_last()),
            lease.ip,
            lease.mac,
        )
    }
}

/// Whatever commits and releases a table has seen since it was empty, it holds at most
/// as many leases as it has room for, and no client has two.
pub proof fn every_table_is_well_formed(ops: Seq<TableOp>)
    ensures
        table_after(ops).len() <= LEASE_CAPACITY,
        clients_unique(table_after(ops)),
    decreases ops.len(),
{
    if ops.len() > 0 {
        every_table_is_well_formed(ops.drop_last());
        if let TableOp::Commit(lease) = ops.last() {
            committed_keeps_clients_unique(table_after(ops.drop_last()), lease);
        }
    }
}

/// As long as no commit takes an address that another client holds, no address is ever
/// leased to two clients at once: two clients that both have a lease have leases on
/// different addresses.
pub proof fn no_address_is_leased_twice(ops: Seq<TableOp>, one: [u8; 16], other: [u8; 16])
    requires
        commits_spare_other_clients(ops),
        one != other,
    ensures
        addresses_unique(table_after(ops)),
        table_lookup(table_after(ops), one) is Some && table_lookup(table_after(ops), other) is Some
            ==> table_lookup(table_after(ops), one).unwrap().ip != table_lookup(
            table_after(ops),
            other,
        ).unwrap().ip,
{
    history_keeps_addresses_unique(ops);
}

/// As long as no commit takes an address that another client holds, no address has two
/// leases.
proof fn history_keeps_addresses_unique(ops: Seq<TableOp>)
    requires
        commits_spare_other_clients(ops),
    ensures
        addresses_unique(table_after(ops)),
    decreases ops.len(),
{
    if ops.len() > 0 {
        history_keeps_addresses_unique(ops.drop_last());
        every_table_is_well_formed(ops.drop_last());
        if let TableOp::Commit(lease) = ops.last() {
            committed_keeps_addresses_unique(table_after(ops.drop_last()), lease);
        }
    }
}

/// There is no free address exactly when every address of the range is held by a lease,
/// and an address that is handed out is the lowest of the range that no lease holds.
pub proof fn next_free_is_lowest_free(table: Seq<DhcpLease>, start: Ipv4Addr, end: Ipv4Addr)
    ensures
        table_next_free(table, start, end) is None <==> forall|bits: u32|
            start.bits <= bits <= end.bits ==> #[trigger] taken(table, bits),
        table_next_free(table, start, end) matches Some(ip) ==> is_next_free(table, start.bits, end.bits, ip.bits),
{
    if table_next_free(table, start, end) is None {
        assert forall|bits: u32| start.bits <= bits <= end.bits implies #[trigger] taken(table, bits) by {
            if !taken(table, bits) {
                lowest_free_below(table, start, end, bits);
            }
        }
    }
}

/// The free address depends on nothing but the addresses that the leases hold: two
/// tables whose leases hold the same addresses, place by place, have the same free
/// address, whatever clients and expiry times they record. A lease that has run out
/// keeps its address out of reach like any other.
pub proof fn next_free_ignores_expiry(one: Seq<DhcpLease>, other: Seq<DhcpLease>, start: Ipv4Addr, end: Ipv4Addr)
    requires
        one.len() == other.len(),
        forall|i: int| 0 <= i < one.len() ==> (#[trigger] one[i]).ip == other[i].ip,
    ensures
        table_next_free(one, start, end) == table_next_free(other, start, end),
{
    assert forall|bits: u32| taken(one, bits) == taken(other, bits) by {
        if taken(one, bits) {
            let i = choose|i: int| 0 <= i < one.len() && (#[trigger] one[i]).ip.bits == bits;
            assert(other[i].ip.bits == bits);
        }
        if taken(other, bits) {
            let i = choose|i: int| 0 <= i < other.len() && (#[trigger] other[i]).ip.bits == bits;
            assert(one[i].ip.bits == bits);
        }
    }
    next_free_is_lowest_free(one, start, end);
    if let Some(ip) = table_next_free(one, start, end) {
        next_free_is(other, start, end, ip.bits);
    }
}

/// Once a client's lease is replaced by one on another address, the address that it
/// held is held by no lease, in a table where no address had two leases.
pub proof fn superseded_address_is_free(table: Seq<DhcpLease>, lease: DhcpLease)
    requires
        clients_unique(table),
        addresses_unique(table),
        table_lookup(table, lease.mac) matches Some(old) && old.ip != lease.ip,
    ensures
        !taken(table_committed(table, lease), table_lookup(table, lease.mac).unwrap().ip.bits),
{
}

} // verus!
