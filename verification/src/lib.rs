//! A small DHCP server engine for a device that hands out a fixed pool of IPv4 addresses.
//!
//! The engine takes the bytes of a datagram and returns the bytes to broadcast in answer,
//! if any, or the reason why the datagram was dropped. On the way it decodes the message
//! (`codec`), decides what the message asks for (`packet`), consults and updates an
//! allocator of leases (`structs`, `simple_leaser`), and encodes the reply (`codec`).
//! Sockets and tasks are the caller's business.
//!
//! Every function is verified against its contract. `table` holds what is proved of the
//! lease table as a whole: no client has two leases, a commit is found again, a release is
//! not, and the next free address is the lowest one that no lease holds. `bounded`, `codec`
//! and `clock` hold the few functions whose contracts are taken on trust, because other
//! crates do the work.

pub mod addr;
pub mod bounded;
pub mod clock;
pub mod codec;
pub mod packet;
pub mod search;
pub mod server;
pub mod simple_leaser;
pub mod structs;
pub mod table;

pub use addr::Ipv4Addr;

use vstd::prelude::*;
use server::DhcpServer;
use structs::DhcpLeaser;

verus! {

/// Shuts `server` down. A server that is shut down answers no datagram and changes no
/// lease; shutting it down again changes nothing.
pub fn dhcp_close<L: DhcpLeaser>(server: &mut DhcpServer<'_, L>)
    ensures
        *final(server) == old(server).shut(),
{
    server.closed = true;
}

} // verus!
