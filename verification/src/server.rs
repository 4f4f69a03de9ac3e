//! The server: what it answers to a client message, and what becomes of its leases.

use vstd::prelude::*;
use crate::addr::Ipv4Addr;
use crate::clock::{clock_ticks, ticks_in_secs, whole_seconds, TICKS_PER_SECOND};
use crate::codec::{decode_packet, decoded_packet, encode_reply, encoded_reply};
use crate::packet::{
    classify, process_packet, triage_agrees_with_classify, triage_packet, triaged, Action, Ignored, MessageType,
    Packet, PacketView,
};
use crate::simple_leaser::{SimpleDhcpLeaser, SingleDhcpLeaser};
use crate::structs::{same_client, DhcpLease, DhcpLeaser, DhcpServerConfig, DHCP_BUFFER_SIZE};
use crate::table::{
    addresses_unique, committed_keeps_addresses_unique, committed_keeps_clients_unique, free_address_is_spared,
    held_by_other, open_address_is_spared, own_address_is_spared, table_lookup,
};

verus! {

/// What the server answers: the kind of message, and the address that it hands the
/// client, if any.
#[derive(Clone, Copy, Debug, PartialEq, Eq, Structural)]
pub struct Reply {
    pub message_type: MessageType,
    pub ip: Option<Ipv4Addr>,
}

/// Whether a client whose lease is `own` may claim the address `ip` at the time `now`:
/// it has no lease, or its lease is on `ip`, or its lease has run out.
pub open spec fn may_claim(own: Option<DhcpLease>, ip: Ipv4Addr, now: u64) -> bool {
    match own {
        Some(lease) => lease.ip == ip || now > lease.expires,
        None => true,
    }
}

/// Whether an address whose lease is `holder` is open to the client `mac`: no lease
/// holds it, or the client's own does.
pub open spec fn open_to(holder: Option<DhcpLease>, mac: [u8; 16]) -> bool {
    match holder {
        Some(lease) => lease.mac == mac,
        None => true,
    }
}

/// Whether a client whose lease is `own` may claim the address `ip` at the time `now`.
pub fn client_may_claim(own: Option<DhcpLease>, ip: Ipv4Addr, now: u64) -> (may: bool)
    ensures
        may == may_claim(own, ip, now),
{
    match own {
        Some(lease) => lease.ip == ip || now > lease.expires,
        None => true,
    }
}

/// Whether an address whose lease is `holder` is open to the client `mac`.
pub fn address_open_to(holder: Option<DhcpLease>, mac: [u8; 16]) -> (open: bool)
    ensures
        open == open_to(holder, mac),
{
    match holder {
        Some(lease) => same_client(&lease.mac, &mac),
        None => true,
    }
}

/// The offer that carries `ip`, or no reply where there is no address to offer.
pub open spec fn offer_of(ip: Option<Ipv4Addr>) -> Option<Reply> {
    match ip {
        Some(ip) => Some(Reply { message_type: MessageType::Offer, ip: Some(ip) }),
        None => None,
    }
}

/// The acknowledgement of a claim on `ip`.
pub open spec fn ack_of(ip: Ipv4Addr) -> Reply {
    Reply { message_type: MessageType::Ack, ip: Some(ip) }
}

/// The refusal of a claim.
pub open spec fn nak() -> Reply {
    Reply { message_type: MessageType::Nak, ip: None }
}

/// Why a datagram is dropped, or an answer to it is lost.
#[derive(Clone, Copy, Debug, PartialEq, Eq, Structural)]
pub enum Dropped {
    /// The server is shut down.
    ShutDown,
    /// The bytes do not decode to a message.
    Undecodable,
    /// The message is to be ignored.
    Ignored(Ignored),
    /// The lease that the message asks for would end after the last tick that the clock
    /// can count.
    LeaseOutOfRange,
    /// The message was acted on, but the answer could not be encoded.
    Unencodable,
}

/// What handling a datagram comes to, with the bytes of the answer as plain bytes.
pub open spec fn handed_out(result: Result<Option<Vec<u8>>, Dropped>) -> Result<Option<Seq<u8>>, Dropped> {
    match result {
        Ok(Some(bytes)) => Ok(Some(bytes@)),
        Ok(None) => Ok(None),
        Err(why) => Err(why),
    }
}

/// A DHCP server: its configuration, the allocator that keeps its leases, and whether it
/// has been shut down.
pub struct DhcpServer<'a, L: DhcpLeaser> {
    pub config: DhcpServerConfig<'a>,
    pub leaser: L,
    pub closed: bool,
}

impl<'a, L: DhcpLeaser> DhcpServer<'a, L> {
    /// The lease that a claim made at the time `now` by the client `mac` on the
    /// address `ip` is recorded as.
    pub open spec fn lease_from(&self, ip: Ipv4Addr, mac: [u8; 16], now: u64) -> DhcpLease {
        DhcpLease { ip, mac, expires: (now + self.config.lease_time) as u64 }
    }

    /// Whether the lease that `action` starts at the time `now` ends at a time that the
    /// clock can count. Only a request that the client may make starts a lease.
    pub open spec fn lease_fits(&self, action: Action, now: u64) -> bool {
        action matches Action::Request(ip, mac) && may_claim(self.leaser.lease_of(mac), ip, now) ==> now
            + self.config.lease_time <= u64::MAX
    }

    /// Whether the lease that the message `packet` starts at the time `now`, if it starts
    /// one, ends at a time that the clock can count.
    pub open spec fn lease_fits_message(&self, packet: PacketView, now: u64) -> bool {
        match classify(packet, self.config.ip) {
            Some(action) => self.lease_fits(action, now),
            None => true,
        }
    }

    /// Whether the lease that the datagram `data` starts at the time `now`, if it starts
    /// one with a server that is running, ends at a time that the clock can count. It
    /// does whenever `now + lease_time` is no more than `u64::MAX`; `lease_fits_clock`
    /// tells for any time.
    pub open spec fn lease_fits_datagram(&self, data: Seq<u8>, now: u64) -> bool {
        match decoded_packet(data) {
            Some(packet) => self.closed || self.lease_fits_message(packet, now),
            None => true,
        }
    }

    /// The address that the server offers the client `mac` at the time `now`: the one
    /// the client asks for, if that is open to it and the client may claim it; else the
    /// one of the client's lease; else the allocator's next free one.
    pub open spec fn offer_for(&self, requested: Option<Ipv4Addr>, mac: [u8; 16], now: u64) -> Option<Ipv4Addr> {
        let own = self.leaser.lease_of(mac);
        if requested is Some && open_to(self.leaser.holder_of(requested.unwrap()), mac) && may_claim(
            own,
            requested.unwrap(),
            now,
        ) {
            requested
        } else if own is Some {
            Some(own.unwrap().ip)
        } else {
            self.leaser.free_address()
        }
    }

    /// What the server answers to `action` at the time `now`.
    ///
    /// A discover gets an offer, or nothing where no address can be offered. A request
    /// gets an acknowledgement where the client may claim the address and the allocator
    /// takes the lease, and a refusal otherwise. A release or a decline gets nothing.
    pub open spec fn answer(&self, action: Action, now: u64) -> Option<Reply> {
        match action {
            Action::Discover(requested, mac) => offer_of(self.offer_for(requested, mac, now)),
            Action::Request(ip, mac) => if may_claim(self.leaser.lease_of(mac), ip, now) && self.leaser.takes(mac) {
                Some(ack_of(ip))
            } else {
                Some(nak())
            },
            Action::Release(_, _) => None,
            Action::Decline(_, _) => None,
        }
    }

    /// Whether `after` is what the server becomes by `action` at the time `now`.
    ///
    /// A discover changes nothing. A request that the client may make hands the lease to
    /// the allocator; one that it may not make changes nothing. A release or a decline
    /// has the allocator forget the client.
    pub open spec fn follows(&self, action: Action, now: u64, after: &Self) -> bool {
        &&& after.config == self.config
        &&& after.closed == self.closed
        &&& match action {
            Action::Discover(_, _) => after.leaser == self.leaser,
            Action::Request(ip, mac) => if may_claim(self.leaser.lease_of(mac), ip, now) {
                self.leaser.with_lease(self.lease_from(ip, mac, now), &after.leaser)
            } else {
                after.leaser == self.leaser
            },
            Action::Release(_, mac) => self.leaser.without_client(mac, &after.leaser),
            Action::Decline(_, mac) => self.leaser.without_client(mac, &after.leaser),
        }
    }

    /// What the server answers to the message `packet` at the time `now`: nothing to a
    /// message that is to be ignored, and else the answer to the action that it asks for.
    pub open spec fn answer_to(&self, packet: PacketView, now: u64) -> Option<Reply> {
        match classify(packet, self.config.ip) {
            Some(action) => self.answer(action, now),
            None => None,
        }
    }

    /// Whether `after` is what the server becomes by the message `packet` at the time
    /// `now`. A message that is to be ignored changes nothing.
    pub open spec fn follows_from(&self, packet: PacketView, now: u64, after: &Self) -> bool {
        match classify(packet, self.config.ip) {
            Some(action) => self.follows(action, now, after),
            None => *after == *self,
        }
    }

    /// The lease time that replies announce: the whole seconds of the configured lease
    /// time, cut to 32 bits.
    pub open spec fn lease_secs(&self) -> u32 {
        ticks_in_secs(self.config.lease_time) as u32
    }

    /// The bytes of `reply` as an answer to the request in `request`, with what the
    /// configuration announces and no captive-portal address, as far as they fit into
    /// `DHCP_BUFFER_SIZE` bytes.
    pub open spec fn reply_bytes_of(&self, request: Seq<u8>, reply: Reply) -> Option<Seq<u8>> {
        encoded_reply(
            request,
            reply.message_type.code_of(),
            reply.ip,
            self.config.ip,
            self.lease_secs(),
            self.config.gateways@,
            self.config.subnet,
            self.config.dns@,
            None,
            DHCP_BUFFER_SIZE,
        )
    }

    /// What handling the datagram `data` at the time `now` comes to: the bytes of the
    /// answer, or no bytes where the message gets no answer, or why the datagram is
    /// dropped or its answer lost.
    ///
    /// The tests are made in this order: whether the server is shut down, whether the
    /// bytes decode, whether the message is ignored, and whether the answer, if there is
    /// one, can be encoded.
    pub open spec fn outcome(&self, data: Seq<u8>, now: u64) -> Result<Option<Seq<u8>>, Dropped> {
        if self.closed {
            Err(Dropped::ShutDown)
        } else if decoded_packet(data) is None {
            Err(Dropped::Undecodable)
        } else {
            match triaged(decoded_packet(data).unwrap(), self.config.ip) {
                Ok(action) => match self.answer(action, now) {
                    Some(reply) => match self.reply_bytes_of(data, reply) {
                        Some(bytes) => Ok(Some(bytes)),
                        None => Err(Dropped::Unencodable),
                    },
                    None => Ok(None),
                },
                Err(why) => Err(Dropped::Ignored(why)),
            }
        }
    }

    /// Whether `after` is what the server becomes by the datagram `data` at the time
    /// `now`. A server that is shut down and bytes that do not decode change nothing.
    pub open spec fn receives(&self, data: Seq<u8>, now: u64, after: &Self) -> bool {
        if self.closed || decoded_packet(data) is None {
            *after == *self
        } else {
            self.follows_from(decoded_packet(data).unwrap(), now, after)
        }
    }

    /// Whether it depends on the time what becomes of the datagram `data`: it is a
    /// request, which starts a lease, or a discover for another address than the one
    /// that the client holds, which is offered only once the client's lease has run out.
    pub open spec fn clock_decides(&self, data: Seq<u8>) -> bool {
        !self.closed && decoded_packet(data) is Some && match triaged(
            decoded_packet(data).unwrap(),
            self.config.ip,
        ) {
            Ok(Action::Request(_, _)) => true,
            Ok(Action::Discover(Some(ip), mac)) => self.leaser.lease_of(mac) matches Some(lease) && lease.ip != ip,
            _ => false,
        }
    }

    /// Whether a server that finds the clock at `now` when the datagram `data` comes may
    /// come to `result` and become `after`.
    ///
    /// Where the lease that the datagram starts at `now`, if it starts one, ends at a
    /// time that the clock can count, the datagram is handled at the time `now`. Where
    /// it does not, the datagram is dropped, and nothing changes.
    pub open spec fn handles_at(
        &self,
        data: Seq<u8>,
        now: u64,
        after: &Self,
        result: Result<Option<Seq<u8>>, Dropped>,
    ) -> bool {
        if self.lease_fits_datagram(data, now) {
            self.receives(data, now, after) && result == self.outcome(data, now)
        } else {
            *after == *self && result matches Err(Dropped::LeaseOutOfRange)
        }
    }

    /// The server once it is shut down: the same configuration and the same leases.
    pub open spec fn shut(self) -> Self {
        DhcpServer { config: self.config, leaser: self.leaser, closed: true }
    }

    /// A server that runs with `config` and keeps its leases in `leaser`.
    pub fn new(config: DhcpServerConfig<'a>, leaser: L) -> (server: Self)
        ensures
            server.config == config,
            server.leaser == leaser,
            !server.closed,
    {
        DhcpServer { config, leaser, closed: false }
    }

    /// The action that `packet` asks of this server.
    pub fn get_packet_action(&self, packet: &Packet) -> (action: Option<Action>)
        ensures
            action == classify(packet@, self.config.ip),
    {
        process_packet(packet, self.config.ip)
    }

    /// Acts on `action` at the time `now`: consults and updates the allocator, and
    /// returns the reply to send, if any.
    pub fn handle_action(&mut self, action: Action, now: u64) -> (reply: Option<Reply>)
        requires
            old(self).lease_fits(action, now),
        ensures
            reply == old(self).answer(action, now),
            old(self).follows(action, now, final(self)),
    {
        match action {
            Action::Discover(requested, mac) => {
                let own = self.leaser.get_lease(mac);
                let mut offer: Option<Ipv4Addr> = None;
                if let Some(ip) = requested {
                    if address_open_to(self.leaser.lease_at(ip), mac) && client_may_claim(own, ip, now) {
                        offer = Some(ip);
                    }
                }
                if offer.is_none() {
                    offer = match own {
                        Some(lease) => Some(lease.ip),
                        None => self.leaser.next_lease(),
                    };
                }
                match offer {
                    Some(ip) => Some(Reply { message_type: MessageType::Offer, ip: Some(ip) }),
                    None => None,
                }
            },
            Action::Request(ip, mac) => {
                let own = self.leaser.get_lease(mac);
                if client_may_claim(own, ip, now) && self.leaser.add_lease(ip, mac, now + self.config.lease_time) {
                    Some(Reply { message_type: MessageType::Ack, ip: Some(ip) })
                } else {
                    Some(Reply { message_type: MessageType::Nak, ip: None })
                }
            },
            Action::Release(_, mac) => {
                self.leaser.remove_lease(mac);
                None
            },
            Action::Decline(_, mac) => {
                self.leaser.remove_lease(mac);
                None
            },
        }
    }

    /// Handles the message `packet` at the time `now`: ignores it or acts on what it asks
    /// for, and returns the reply to send, if any.
    pub fn process_packet(&mut self, packet: &Packet, now: u64) -> (reply: Option<Reply>)
        requires
            old(self).lease_fits_message(packet@, now),
        ensures
            reply == old(self).answer_to(packet@, now),
            old(self).follows_from(packet@, now, final(self)),
    {
        match self.get_packet_action(packet) {
            Some(action) => self.handle_action(action, now),
            None => None,
        }
    }

    /// The bytes of `reply` as an answer to the request in `request`, or none where the
    /// codec cannot build them.
    pub fn reply_bytes(&self, request: &[u8], reply: Reply) -> (bytes: Option<Vec<u8>>)
        ensures
            match bytes {
                Some(b) => self.reply_bytes_of(request@, reply) == Some(b@) && b@.len() <= DHCP_BUFFER_SIZE,
                None => self.reply_bytes_of(request@, reply) is None,
            },
    {
        let lease_secs: u32 = #[verifier::truncate] (whole_seconds(self.config.lease_time) as u32);
        encode_reply(
            request,
            reply.message_type.code(),
            reply.ip,
            self.config.ip,
            lease_secs,
            self.config.gateways,
            self.config.subnet,
            self.config.dns,
            None,
            DHCP_BUFFER_SIZE,
        )
    }

    /// Handles the datagram `data` at the time `now`, and returns the bytes to broadcast
    /// in answer, or no bytes where the message gets no answer, or why the datagram is
    /// dropped or its answer lost.
    pub fn handle_datagram_at(&mut self, data: &[u8], now: u64) -> (result: Result<Option<Vec<u8>>, Dropped>)
        requires
            old(self).lease_fits_datagram(data@, now),
        ensures
            handed_out(result) == old(self).outcome(data@, now),
            old(self).receives(data@, now, final(self)),
    {
        if self.closed {
            return Err(Dropped::ShutDown);
        }
        let packet = match decode_packet(data) {
            Some(packet) => packet,
            None => {
                return Err(Dropped::Undecodable);
            },
        };
        proof {
            triage_agrees_with_classify(packet@, self.config.ip);
        }
        let action = match triage_packet(&packet, self.config.ip) {
            Ok(action) => action,
            Err(why) => {
                return Err(Dropped::Ignored(why));
            },
        };
        match self.handle_action(action, now) {
            Some(reply) => match self.reply_bytes(data, reply) {
                Some(bytes) => Ok(Some(bytes)),
                None => Err(Dropped::Unencodable),
            },
            None => Ok(None),
        }
    }

    /// Whether the lease that the datagram `data` starts at the time `now`, if it starts
    /// one, ends at a time that the clock can count. Asking changes nothing.
    pub fn lease_fits_clock(&mut self, data: &[u8], now: u64) -> (fits: bool)
        ensures
            fits == old(self).lease_fits_datagram(data@, now),
            *final(self) == *old(self),
    {
        if now <= u64::MAX - self.config.lease_time || self.closed {
            return true;
        }
        let packet = match decode_packet(data) {
            Some(packet) => packet,
            None => {
                return true;
            },
        };
        proof {
            triage_agrees_with_classify(packet@, self.config.ip);
        }
        match triage_packet(&packet, self.config.ip) {
            Ok(Action::Request(ip, mac)) => {
                let own = self.leaser.get_lease(mac);
                !client_may_claim(own, ip, now)
            },
            _ => true,
        }
    }

    /// Handles the datagram `data` at the time that the clock shows, and returns the
    /// bytes to broadcast in answer, or no bytes where the message gets no answer, or why
    /// the datagram is dropped or its answer lost.
    ///
    /// Which time the clock shows is not known beforehand: there is a time for which the
    /// result and the server are as `handles_at` says. Only a request that the client
    /// may make at that time is dropped for the clock, where its lease would end after
    /// the last tick that the clock can count. Where the time does not matter, the
    /// datagram is handled as at any time.
    pub fn handle_datagram(&mut self, data: &[u8]) -> (result: Result<Option<Vec<u8>>, Dropped>)
        ensures
            exists|now: u64| #[trigger] old(self).handles_at(data@, now, final(self), handed_out(result)),
            !old(self).clock_decides(data@) ==> forall|now: u64| #[trigger]
                old(self).handles_at(data@, now, final(self), handed_out(result)),
            final(self).config == old(self).config,
            final(self).closed == old(self).closed,
    {
        let now: u64 = clock_ticks();
        if !self.lease_fits_clock(data, now) {
            assert(self.handles_at(data@, now, self, Err(Dropped::LeaseOutOfRange)));
            return Err(Dropped::LeaseOutOfRange);
        }
        let result = self.handle_datagram_at(data, now);
        assert(old(self).handles_at(data@, now, self, handed_out(result)));
        proof {
            if !old(self).clock_decides(data@) {
                assert forall|other: u64| #[trigger]
                    old(self).handles_at(data@, other, self, handed_out(result)) by {
                    time_matters_where_clock_decides(*old(self), *self, data@, now, other);
                }
            }
        }
        result
    }
}

/// Where the clock does not decide, what becomes of a datagram is the same at any two
/// times, and no lease is started whose end would have to be counted.
pub proof fn time_matters_where_clock_decides<'a, L: DhcpLeaser>(
    server: DhcpServer<'a, L>,
    after: DhcpServer<'a, L>,
    data: Seq<u8>,
    now: u64,
    other: u64,
)
    requires
        !server.clock_decides(data),
    ensures
        server.lease_fits_datagram(data, now),
        server.outcome(data, now) == server.outcome(data, other),
        server.receives(data, now, &after) == server.receives(data, other, &after),
{
    if decoded_packet(data) is Some {
        triage_agrees_with_classify(decoded_packet(data).unwrap(), server.config.ip);
    }
}

/// A server with the fixed allocator offers the allocator's address to every client
/// that asks for none, at any time, and no action changes the allocator.
pub proof fn fixed_server_always_offers_its_address<'a>(
    server: DhcpServer<'a, SingleDhcpLeaser>,
    after: DhcpServer<'a, SingleDhcpLeaser>,
    action: Action,
    mac: [u8; 16],
    now: u64,
)
    requires
        server.follows(action, now, &after),
    ensures
        server.answer(Action::Discover(None, mac), now) == offer_of(Some(server.leaser.ip)),
        after.leaser == server.leaser,
        after.answer(Action::Discover(None, mac), now) == offer_of(Some(server.leaser.ip)),
{
}

/// A server with the pool allocator never offers a client an address that another
/// client holds, as long as no address of the table has two leases; and when the client
/// then requests what it was offered, still no address has two.
pub proof fn offers_spare_other_clients<'a>(
    server: DhcpServer<'a, SimpleDhcpLeaser>,
    after: DhcpServer<'a, SimpleDhcpLeaser>,
    requested: Option<Ipv4Addr>,
    mac: [u8; 16],
    now: u64,
    later: u64,
)
    requires
        server.leaser.wf(),
        addresses_unique(server.leaser@),
        server.offer_for(requested, mac, now) is Some,
        server.follows(Action::Request(server.offer_for(requested, mac, now).unwrap(), mac), later, &after),
    ensures
        !held_by_other(server.leaser@, server.offer_for(requested, mac, now).unwrap(), mac),
        after.leaser.wf(),
        addresses_unique(after.leaser@),
{
    let table = server.leaser@;
    let ip = server.offer_for(requested, mac, now).unwrap();
    if requested == Some(ip) {
        open_address_is_spared(table, ip, mac);
    } else if table_lookup(table, mac) is Some {
        own_address_is_spared(table, mac);
    } else {
        free_address_is_spared(table, server.leaser.start, server.leaser.end, mac);
    }
    committed_keeps_clients_unique(table, server.lease_from(ip, mac, later));
    committed_keeps_addresses_unique(table, server.lease_from(ip, mac, later));
}

/// A discover changes no lease, a request is always answered, and a release or a
/// decline never is.
pub proof fn answers_by_action<'a, L: DhcpLeaser>(
    server: DhcpServer<'a, L>,
    after: DhcpServer<'a, L>,
    action: Action,
    now: u64,
)
    requires
        server.follows(action, now, &after),
    ensures
        action is Discover ==> after == server,
        action is Request ==> server.answer(action, now) is Some,
        action is Release || action is Decline ==> server.answer(action, now) is None,
{
}

/// A lease time of whole seconds is announced as that many seconds.
pub proof fn whole_seconds_are_announced<'a, L: DhcpLeaser>(server: DhcpServer<'a, L>, secs: u32)
    requires
        server.config.lease_time == secs * TICKS_PER_SECOND,
    ensures
        server.lease_secs() == secs,
{
}

/// To shut a server down twice is to shut it down once, and a server that is shut down
/// drops what it receives and stays as it is.
pub proof fn shut_server_stays_shut<'a, L: DhcpLeaser>(server: DhcpServer<'a, L>, data: Seq<u8>, now: u64)
    ensures
        server.shut().shut() == server.shut(),
        server.shut().outcome(data, now) matches Err(Dropped::ShutDown),
        forall|after: DhcpServer<'a, L>| server.shut().receives(data, now, &after) <==> after == server.shut(),
{
}

} // verus!
