//! The fixed-capacity vector that holds the lease table.

use vstd::prelude::*;
use crate::structs::DhcpLease;

verus! {

/// The number of leases that a table can hold.
pub const LEASE_CAPACITY: usize = 16;

/// `heapless::Vec`: a vector that holds at most `N` elements, in place. What one holds is
/// known through `lease_records` alone.
#[verifier::external_type_specification]
#[verifier::external_body]
#[verifier::reject_recursive_types(T)]
pub struct ExHeaplessVec<T, const N: usize>(heapless::Vec<T, N>);

/// The leases that a `heapless::Vec` holds, oldest insertion first.
pub uninterp spec fn lease_records(table: heapless::Vec<DhcpLease, 16>) -> Seq<DhcpLease>;

/// `heapless::Vec::new`: a table that holds nothing.
#[verifier::external_body]
pub(crate) fn table_new() -> (table: heapless::Vec<DhcpLease, 16>)
    ensures
        lease_records(table) == Seq::<DhcpLease>::empty(),
{
    heapless::Vec::new()
}

/// `heapless::Vec::as_slice`: the leases in table order. A table never holds more than
/// its capacity.
#[verifier::external_body]
pub(crate) fn table_slice(table: &heapless::Vec<DhcpLease, 16>) -> (leases: &[DhcpLease])
    ensures
        leases@ == lease_records(*table),
        leases@.len() <= LEASE_CAPACITY,
{
    table.as_slice()
}

/// `heapless::Vec::push`: appends `lease` if the table holds fewer leases than its capacity,
/// and otherwise leaves the table as it was and hands `lease` back.
#[verifier::external_body]
pub(crate) fn table_push(table: &mut heapless::Vec<DhcpLease, 16>, lease: DhcpLease) -> (r: Result<(), DhcpLease>)
    ensures
        r is Ok <==> lease_records(*old(table)).len() < LEASE_CAPACITY,
        lease_records(*final(table)) == (if r is Ok {
            lease_records(*old(table)).push(lease)
        } else {
            lease_records(*old(table))
        }),
        r matches Err(back) ==> back == lease,
{
    table.push(lease)
}

/// `heapless::Vec::remove`: takes out the lease at `index` and moves the later ones one
/// place forward. The outside function panics when `index` is not below the length.
#[verifier::external_body]
pub(crate) fn table_remove(table: &mut heapless::Vec<DhcpLease, 16>, index: usize) -> (lease: DhcpLease)
    requires
        index < lease_records(*old(table)).len(),
    ensures
        lease == lease_records(*old(table))[index as int],
        lease_records(*final(table)) == lease_records(*old(table)).remove(index as int),
{
    table.remove(index)
}

} // verus!
