use crate::address::{
    ipv4_contains, ipv4_in, ipv4_is_unicast, lemma_ipv4_view_injective, lemma_mac_view_injective,
    mac_is_broadcast, mac_is_multicast, mac_is_unicast, Ipv4Address, MacAddress,
};
use crate::wire::{
    arp_message_in, arp_packet_accepted, decode_frame, encode_frame, frame_bytes, header_in,
    ArpMessage, ArpOperation, DecodeError, EthernetHeader, ETHERNET_HEADER_LEN,
};
use vstd::prelude::*;

verus! {

/// The outcome of one read from the socket.
#[derive(Clone, Copy, Debug, PartialEq, Eq)]
pub enum Received {
    /// The datagram was cut short by the receive buffer; it is dropped and the
    /// next one is awaited.
    Discarded,
    /// A decoded frame.
    Frame(EthernetHeader, ArpMessage),
}

/// The bytes decode as an Ethernet frame that carries an Ethernet/IPv4 ARP packet.
pub open spec fn frame_decodes(b: Seq<u8>) -> bool {
    b.len() >= ETHERNET_HEADER_LEN && arp_packet_accepted(b.skip(ETHERNET_HEADER_LEN as int))
}

/// The error that decoding `b` reports, where it does not decode.
pub open spec fn decode_error_of(b: Seq<u8>) -> DecodeError {
    if b.len() < ETHERNET_HEADER_LEN {
        DecodeError::MalformedFrame
    } else {
        DecodeError::MalformedPacket
    }
}

/// `b` decodes, and `h` and `m` are the header and message it holds.
pub open spec fn frame_holds(b: Seq<u8>, h: EthernetHeader, m: ArpMessage) -> bool {
    &&& frame_decodes(b)
    &&& header_in(b, h)
    &&& arp_message_in(b.skip(ETHERNET_HEADER_LEN as int), m)
}

/// The frame is plausibly meant for this host: broadcast, multicast, or
/// addressed to its own hardware address.
pub open spec fn destination_accepted(own: MacAddress, dst: MacAddress) -> bool {
    mac_is_broadcast(dst@) || mac_is_multicast(dst@) || dst@ == own@
}

/// Every filter of the responder lets the pair through.
pub open spec fn request_answered(
    own: MacAddress,
    protected: Seq<Ipv4Address>,
    eth: EthernetHeader,
    arp: ArpMessage,
) -> bool {
    &&& destination_accepted(own, eth.dst_addr)
    &&& arp.operation == ArpOperation::Request
    &&& ipv4_is_unicast(arp.source_protocol_addr@)
    &&& mac_is_unicast(arp.source_hardware_addr@)
    &&& arp.source_hardware_addr@ == eth.src_addr@
    &&& ipv4_in(protected, arp.target_protocol_addr@)
}

/// The reply that claims the requested address for `own`, sent back to the
/// requester.
pub open spec fn reply_message(own: MacAddress, arp: ArpMessage) -> ArpMessage {
    ArpMessage {
        operation: ArpOperation::Reply,
        source_hardware_addr: own,
        source_protocol_addr: arp.target_protocol_addr,
        target_hardware_addr: arp.source_hardware_addr,
        target_protocol_addr: arp.source_protocol_addr,
    }
}

pub open spec fn reply_for(
    own: MacAddress,
    protected: Seq<Ipv4Address>,
    eth: EthernetHeader,
    arp: ArpMessage,
) -> Option<ArpMessage> {
    if request_answered(own, protected, eth, arp) {
        Some(reply_message(own, arp))
    } else {
        None
    }
}

/// The reply that the responder owning `own` and defending `protected` sends
/// for the received pair, if any.
pub fn reply_to(
    own: &MacAddress,
    protected: &[Ipv4Address],
    eth: &EthernetHeader,
    arp: &ArpMessage,
) -> (r: Option<ArpMessage>)
    ensures
        r == reply_for(*own, protected@, *eth, *arp),
{
    if !(eth.dst_addr.is_broadcast() || eth.dst_addr.is_multicast() || eth.dst_addr.same_as(own)) {
        return None;
    }
    match arp.operation {
        ArpOperation::Request => {},
        _ => return None,
    }
    if !arp.source_protocol_addr.is_unicast() || !arp.source_hardware_addr.is_unicast() {
        return None;
    }
    if !arp.source_hardware_addr.same_as(&eth.src_addr) {
        return None;
    }
    if !ipv4_contains(protected, &arp.target_protocol_addr) {
        return None;
    }
    Some(
        ArpMessage {
            operation: ArpOperation::Reply,
            source_hardware_addr: *own,
            source_protocol_addr: arp.target_protocol_addr,
            target_hardware_addr: arp.source_hardware_addr,
            target_protocol_addr: arp.source_protocol_addr,
        },
    )
}

/// Interprets one read from the socket: `truncated` tells that the datagram did
/// not fit the receive buffer, which drops it without an error.
pub fn receive(buf: &[u8], truncated: bool) -> (r: Result<Received, DecodeError>)
    ensures
        truncated ==> r == Ok::<Received, DecodeError>(Received::Discarded),
        !truncated ==> (r is Ok <==> frame_decodes(buf@)),
        !truncated && !frame_decodes(buf@) ==> r == Err::<Received, DecodeError>(
            decode_error_of(buf@),
        ),
        !truncated ==> !(r matches Ok(Received::Discarded)),
        r matches Ok(Received::Frame(h, m)) ==> frame_holds(buf@, h, m),
{
    if truncated {
        return Ok(Received::Discarded);
    }
    match decode_frame(buf) {
        Ok((h, m)) => Ok(Received::Frame(h, m)),
        Err(e) => Err(e),
    }
}

/// A frame holds one header and one message only.
proof fn lemma_frame_holds_unique(
    b: Seq<u8>,
    h1: EthernetHeader,
    m1: ArpMessage,
    h2: EthernetHeader,
    m2: ArpMessage,
)
    requires
        frame_holds(b, h1, m1),
        frame_holds(b, h2, m2),
    ensures
        h1 == h2,
        m1 == m2,
{
    lemma_mac_view_injective(h1.dst_addr, h2.dst_addr);
    lemma_mac_view_injective(h1.src_addr, h2.src_addr);
    lemma_mac_view_injective(m1.source_hardware_addr, m2.source_hardware_addr);
    lemma_mac_view_injective(m1.target_hardware_addr, m2.target_hardware_addr);
    lemma_ipv4_view_injective(m1.source_protocol_addr, m2.source_protocol_addr);
    lemma_ipv4_view_injective(m1.target_protocol_addr, m2.target_protocol_addr);
}

/// One step of the responder loop: interprets one read from the socket and
/// returns the frame to send in answer, if any. A truncated datagram gives no
/// frame and no error; bytes that do not decode give the decoding error.
pub fn handle_datagram(
    own: &MacAddress,
    protected: &[Ipv4Address],
    buf: &[u8],
    truncated: bool,
) -> (r: Result<Option<Vec<u8>>, DecodeError>)
    ensures
        truncated ==> r == Ok::<Option<Vec<u8>>, DecodeError>(None),
        !truncated ==> (r is Ok <==> frame_decodes(buf@)),
        !truncated && !frame_decodes(buf@) ==> r == Err::<Option<Vec<u8>>, DecodeError>(
            decode_error_of(buf@),
        ),
        !truncated ==> forall|h: EthernetHeader, m: ArpMessage| #[trigger]
            frame_holds(buf@, h, m) ==> match r {
                Ok(None) => reply_for(*own, protected@, h, m) is None,
                Ok(Some(f)) => reply_for(*own, protected@, h, m) matches Some(reply) && f@
                    == frame_bytes(reply),
                Err(_) => false,
            },
{
    match receive(buf, truncated) {
        Ok(Received::Discarded) => Ok(None),
        Ok(Received::Frame(h, m)) => {
            let reply = reply_to(own, protected, &h, &m);
            proof {
                assert forall|h2: EthernetHeader, m2: ArpMessage| #[trigger]
                    frame_holds(buf@, h2, m2) implies h2 == h && m2 == m by {
                    lemma_frame_holds_unique(buf@, h, m, h2, m2);
                }
            }
            match reply {
                Some(reply) => Ok(Some(encode_frame(&reply))),
                None => Ok(None),
            }
        },
        Err(e) => Err(e),
    }
}

/// A frame whose Ethernet destination is neither broadcast, multicast nor the
/// responder's own hardware address is never answered.
pub proof fn lemma_foreign_destination_unanswered(
    own: MacAddress,
    protected: Seq<Ipv4Address>,
    eth: EthernetHeader,
    arp: ArpMessage,
)
    requires
        !mac_is_broadcast(eth.dst_addr@),
        !mac_is_multicast(eth.dst_addr@),
        eth.dst_addr@ != own@,
    ensures
        reply_for(own, protected, eth, arp) is None,
{
}

/// A request for an address outside the protected set is never answered.
pub proof fn lemma_unprotected_target_unanswered(
    own: MacAddress,
    protected: Seq<Ipv4Address>,
    eth: EthernetHeader,
    arp: ArpMessage,
)
    requires
        !ipv4_in(protected, arp.target_protocol_addr@),
    ensures
        reply_for(own, protected, eth, arp) is None,
{
}

/// A request that reaches this host, asks for a protected address, and comes
/// from unicast sender addresses that agree with the Ethernet source, is
/// answered by exactly one reply: from the responder's hardware address and
/// the requested address, to the requester's hardware and protocol addresses.
pub proof fn lemma_protected_request_answered(
    own: MacAddress,
    protected: Seq<Ipv4Address>,
    eth: EthernetHeader,
    arp: ArpMessage,
)
    requires
        destination_accepted(own, eth.dst_addr),
        arp.operation == ArpOperation::Request,
        ipv4_is_unicast(arp.source_protocol_addr@),
        mac_is_unicast(arp.source_hardware_addr@),
        arp.source_hardware_addr@ == eth.src_addr@,
        ipv4_in(protected, arp.target_protocol_addr@),
    ensures
        reply_for(own, protected, eth, arp) == Some(
            ArpMessage {
                operation: ArpOperation::Reply,
                source_hardware_addr: own,
                source_protocol_addr: arp.target_protocol_addr,
                target_hardware_addr: arp.source_hardware_addr,
                target_protocol_addr: arp.source_protocol_addr,
            },
        ),
{
}

/// A received ARP reply never produces an outgoing packet.
pub proof fn lemma_reply_unanswered(
    own: MacAddress,
    protected: Seq<Ipv4Address>,
    eth: EthernetHeader,
    arp: ArpMessage,
)
    requires
        arp.operation == ArpOperation::Reply,
    ensures
        reply_for(own, protected, eth, arp) is None,
{
}

/// A message whose ARP sender hardware address differs from the Ethernet
/// source address is never answered.
pub proof fn lemma_inconsistent_sender_unanswered(
    own: MacAddress,
    protected: Seq<Ipv4Address>,
    eth: EthernetHeader,
    arp: ArpMessage,
)
    requires
        arp.source_hardware_addr@ != eth.src_addr@,
    ensures
        reply_for(own, protected, eth, arp) is None,
{
}

/// A message whose sender protocol or hardware address is not unicast is
/// never answered.
pub proof fn lemma_non_unicast_sender_unanswered(
    own: MacAddress,
    protected: Seq<Ipv4Address>,
    eth: EthernetHeader,
    arp: ArpMessage,
)
    requires
        !ipv4_is_unicast(arp.source_protocol_addr@) || !mac_is_unicast(arp.source_hardware_addr@),
    ensures
        reply_for(own, protected, eth, arp) is None,
{
}

} // verus!
