use crate::address::{lemma_ipv4_view_injective, lemma_mac_view_injective, Ipv4Address, MacAddress};
use smoltcp::wire::{ArpPacket, ArpRepr, EthernetAddress, EthernetFrame, EthernetRepr};
use vstd::prelude::*;

verus! {

/// Length of an Ethernet II header: destination, source, EtherType.
pub const ETHERNET_HEADER_LEN: usize = 14;

/// Length of an ARP packet for Ethernet hardware and IPv4 protocol addresses.
pub const ARP_PACKET_LEN: usize = 28;

/// The EtherType that marks an ARP payload.
pub const ETHERTYPE_ARP: u16 = 0x0806;

/// The ARP operation field.
#[derive(Clone, Copy, Debug, PartialEq, Eq)]
pub enum ArpOperation {
    Request,
    Reply,
    Unknown(u16),
}

/// The header of a received Ethernet II frame.
#[derive(Clone, Copy, Debug, PartialEq, Eq)]
pub struct EthernetHeader {
    pub dst_addr: MacAddress,
    pub src_addr: MacAddress,
    pub ethertype: u16,
}

/// One ARP message of the Ethernet/IPv4 kind, the only kind this library
/// reads or writes.
#[derive(Clone, Copy, Debug, PartialEq, Eq)]
pub struct ArpMessage {
    pub operation: ArpOperation,
    pub source_hardware_addr: MacAddress,
    pub source_protocol_addr: Ipv4Address,
    pub target_hardware_addr: MacAddress,
    pub target_protocol_addr: Ipv4Address,
}

/// Why received bytes could not be decoded.
#[derive(Clone, Copy, Debug, PartialEq, Eq)]
pub enum DecodeError {
    /// Shorter than an Ethernet header.
    MalformedFrame,
    /// The payload is not a complete Ethernet/IPv4 ARP packet.
    MalformedPacket,
}

/// `v` in network byte order.
pub open spec fn be16(v: u16) -> Seq<u8> {
    seq![(v / 256) as u8, (v % 256) as u8]
}

/// The 16-bit value stored big-endian in `hi`, `lo`.
pub open spec fn read_be16(hi: u8, lo: u8) -> u16 {
    (hi as int * 256 + lo as int) as u16
}

impl ArpOperation {
    pub open spec fn spec_from_code(c: u16) -> ArpOperation {
        if c == 1 {
            ArpOperation::Request
        } else if c == 2 {
            ArpOperation::Reply
        } else {
            ArpOperation::Unknown(c)
        }
    }

    pub open spec fn code_of(self) -> u16 {
        match self {
            ArpOperation::Request => 1,
            ArpOperation::Reply => 2,
            ArpOperation::Unknown(c) => c,
        }
    }

    /// The operation that the wire value `c` stands for.
    pub fn from_code(c: u16) -> (r: ArpOperation)
        ensures
            r == ArpOperation::spec_from_code(c),
    {
        if c == 1 {
            ArpOperation::Request
        } else if c == 2 {
            ArpOperation::Reply
        } else {
            ArpOperation::Unknown(c)
        }
    }

    /// The wire value of this operation.
    pub fn code(&self) -> (r: u16)
        ensures
            r == self.code_of(),
    {
        match self {
            ArpOperation::Request => 1,
            ArpOperation::Reply => 2,
            ArpOperation::Unknown(c) => *c,
        }
    }
}

/// An Ethernet II header on the wire.
pub open spec fn ethernet_header_bytes(dst: Seq<u8>, src: Seq<u8>, ethertype: u16) -> Seq<u8> {
    dst + src + be16(ethertype)
}

/// An Ethernet/IPv4 ARP packet on the wire: hardware type 1, protocol type
/// 0x0800, address lengths 6 and 4, then the operation and the four addresses.
pub open spec fn arp_packet_bytes(
    operation: u16,
    sha: Seq<u8>,
    spa: Seq<u8>,
    tha: Seq<u8>,
    tpa: Seq<u8>,
) -> Seq<u8> {
    seq![0u8, 1u8, 8u8, 0u8, 6u8, 4u8] + be16(operation) + sha + spa + tha + tpa
}

pub open spec fn arp_message_bytes(m: ArpMessage) -> Seq<u8> {
    arp_packet_bytes(
        m.operation.code_of(),
        m.source_hardware_addr@,
        m.source_protocol_addr@,
        m.target_hardware_addr@,
        m.target_protocol_addr@,
    )
}

/// The frame that carries `m`: addressed from its sender to its target
/// hardware address, with the ARP EtherType.
pub open spec fn frame_bytes(m: ArpMessage) -> Seq<u8> {
    ethernet_header_bytes(m.target_hardware_addr@, m.source_hardware_addr@, ETHERTYPE_ARP)
        + arp_message_bytes(m)
}

/// `b` begins with a complete Ethernet/IPv4 ARP packet.
pub open spec fn arp_packet_accepted(b: Seq<u8>) -> bool {
    &&& b.len() >= ARP_PACKET_LEN
    &&& b[0] == 0 && b[1] == 1
    &&& b[2] == 8 && b[3] == 0
    &&& b[4] == 6 && b[5] == 4
}

/// `h` holds the header fields at the start of `b`.
pub open spec fn header_in(b: Seq<u8>, h: EthernetHeader) -> bool {
    &&& h.dst_addr@ == b.subrange(0, 6)
    &&& h.src_addr@ == b.subrange(6, 12)
    &&& h.ethertype == read_be16(b[12], b[13])
}

/// `m` holds the fields of the ARP packet at the start of `b`.
pub open spec fn arp_message_in(b: Seq<u8>, m: ArpMessage) -> bool {
    &&& m.operation == ArpOperation::spec_from_code(read_be16(b[6], b[7]))
    &&& m.source_hardware_addr@ == b.subrange(8, 14)
    &&& m.source_protocol_addr@ == b.subrange(14, 18)
    &&& m.target_hardware_addr@ == b.subrange(18, 24)
    &&& m.target_protocol_addr@ == b.subrange(24, 28)
}

/// Relies on smoltcp's `EthernetFrame::new_checked` (accepts a buffer of at
/// least 14 bytes) and `EthernetRepr::parse` (reads destination, source and
/// the big-endian EtherType in place).
#[verifier::external_body]
fn parse_ethernet_header(buf: &[u8]) -> (r: Option<EthernetHeader>)
    ensures
        r is Some <==> buf@.len() >= ETHERNET_HEADER_LEN,
        r matches Some(h) ==> header_in(buf@, h),
{
    let frame = EthernetFrame::new_checked(buf).ok()?;
    let repr = EthernetRepr::parse(&frame).ok()?;
    Some(EthernetHeader {
        dst_addr: MacAddress(repr.dst_addr.0),
        src_addr: MacAddress(repr.src_addr.0),
        ethertype: repr.ethertype.into(),
    })
}

/// Relies on smoltcp's `ArpPacket::new_checked` (the buffer must hold the
/// fixed part and the addresses that its length fields announce) and
/// `ArpRepr::parse` (accepts hardware type Ethernet, protocol type IPv4 and
/// lengths 6 and 4 only, and reads the operation and addresses in place).
/// The result is the operation's wire value and the four addresses.
#[verifier::external_body]
fn parse_arp_packet(buf: &[u8]) -> (r: Option<(u16, MacAddress, Ipv4Address, MacAddress, Ipv4Address)>)
    ensures
        r is Some <==> arp_packet_accepted(buf@),
        r matches Some(f) ==> {
            &&& f.0 == read_be16(buf@[6], buf@[7])
            &&& f.1@ == buf@.subrange(8, 14)
            &&& f.2@ == buf@.subrange(14, 18)
            &&& f.3@ == buf@.subrange(18, 24)
            &&& f.4@ == buf@.subrange(24, 28)
        },
{
    let packet = ArpPacket::new_checked(buf).ok()?;
    match ArpRepr::parse(&packet).ok()? {
        ArpRepr::EthernetIpv4 {
            operation: op,
            source_hardware_addr: sha,
            source_protocol_addr: spa,
            target_hardware_addr: tha,
            target_protocol_addr: tpa,
        } => Some((op.into(), MacAddress(sha.0), Ipv4Address(spa.0), MacAddress(tha.0), Ipv4Address(tpa.0))),
        _ => None,
    }
}

/// Relies on smoltcp's `EthernetRepr::emit`: destination, source, then the
/// EtherType big-endian, into a buffer of `EthernetRepr::buffer_len` bytes.
#[verifier::external_body]
fn emit_ethernet_header(dst: MacAddress, src: MacAddress, ethertype: u16) -> (r: Vec<u8>)
    ensures
        r@ == ethernet_header_bytes(dst@, src@, ethertype),
{
    let repr = EthernetRepr {
        dst_addr: EthernetAddress(dst.0),
        src_addr: EthernetAddress(src.0),
        ethertype: ethertype.into(),
    };
    let mut buf = vec![0u8; repr.buffer_len()];
    repr.emit(&mut EthernetFrame::new_unchecked(&mut buf));
    buf
}

/// Relies on smoltcp's `ArpRepr::emit` for the Ethernet/IPv4 kind: the fixed
/// type and length fields, the operation, then the four addresses, into a
/// buffer of `ArpRepr::buffer_len` bytes.
#[verifier::external_body]
fn emit_arp_packet(
    operation: u16,
    sha: MacAddress,
    spa: Ipv4Address,
    tha: MacAddress,
    tpa: Ipv4Address,
) -> (r: Vec<u8>)
    ensures
        r@ == arp_packet_bytes(operation, sha@, spa@, tha@, tpa@),
{
    let repr = ArpRepr::EthernetIpv4 {
        operation: operation.into(),
        source_hardware_addr: EthernetAddress(sha.0),
        source_protocol_addr: smoltcp::wire::Ipv4Address(spa.0),
        target_hardware_addr: EthernetAddress(tha.0),
        target_protocol_addr: smoltcp::wire::Ipv4Address(tpa.0),
    };
    let mut buf = vec![0u8; repr.buffer_len()];
    repr.emit(&mut ArpPacket::new_unchecked(&mut buf));
    buf
}

/// Decodes an Ethernet frame that carries an Ethernet/IPv4 ARP packet.
/// Bytes after the ARP packet (link-layer padding) are ignored.
pub fn decode_frame(buf: &[u8]) -> (r: Result<(EthernetHeader, ArpMessage), DecodeError>)
    ensures
        r == Err::<(EthernetHeader, ArpMessage), DecodeError>(DecodeError::MalformedFrame)
            <==> buf@.len() < ETHERNET_HEADER_LEN,
        r == Err::<(EthernetHeader, ArpMessage), DecodeError>(DecodeError::MalformedPacket) <==> {
            &&& buf@.len() >= ETHERNET_HEADER_LEN
            &&& !arp_packet_accepted(buf@.skip(ETHERNET_HEADER_LEN as int))
        },
        r matches Ok((h, m)) ==> {
            &&& header_in(buf@, h)
            &&& arp_message_in(buf@.skip(ETHERNET_HEADER_LEN as int), m)
        },
{
    let header = match parse_ethernet_header(buf) {
        Some(h) => h,
        None => return Err(DecodeError::MalformedFrame),
    };
    let (_, payload) = buf.split_at(ETHERNET_HEADER_LEN);
    assert(payload@ == buf@.skip(ETHERNET_HEADER_LEN as int));
    match parse_arp_packet(payload) {
        Some((code, sha, spa, tha, tpa)) => {
            let m = ArpMessage {
                operation: ArpOperation::from_code(code),
                source_hardware_addr: sha,
                source_protocol_addr: spa,
                target_hardware_addr: tha,
                target_protocol_addr: tpa,
            };
            Ok((header, m))
        },
        None => Err(DecodeError::MalformedPacket),
    }
}

/// Encodes `m` as a whole Ethernet frame, addressed from its source to its
/// target hardware address.
pub fn encode_frame(m: &ArpMessage) -> (r: Vec<u8>)
    ensures
        r@ == frame_bytes(*m),
        r@.len() == ETHERNET_HEADER_LEN + ARP_PACKET_LEN,
{
    let mut frame = emit_ethernet_header(
        m.target_hardware_addr,
        m.source_hardware_addr,
        ETHERTYPE_ARP,
    );
    let mut packet = emit_arp_packet(
        m.operation.code(),
        m.source_hardware_addr,
        m.source_protocol_addr,
        m.target_hardware_addr,
        m.target_protocol_addr,
    );
    frame.append(&mut packet);
    frame
}


/// Reading back a value written big-endian gives the value.
proof fn lemma_be16_round_trip(v: u16)
    ensures
        read_be16(be16(v)[0], be16(v)[1]) == v,
{
}

/// An operation is canonical when it is written in the one form that decoding
/// produces for its wire value (not `Unknown(1)` or `Unknown(2)`).
pub open spec fn operation_canonical(op: ArpOperation) -> bool {
    op == ArpOperation::spec_from_code(op.code_of())
}

/// Round trip: the frame that `encode_frame` builds for a message is accepted
/// by `decode_frame`, whose header then reads the message's sender as source,
/// its target as destination and the ARP EtherType, and whose ARP message has
/// the same operation, sender and target addresses as the one encoded.
pub proof fn lemma_frame_round_trip(m: ArpMessage, h: EthernetHeader, d: ArpMessage)
    requires
        operation_canonical(m.operation),
        header_in(frame_bytes(m), h),
        arp_message_in(frame_bytes(m).skip(ETHERNET_HEADER_LEN as int), d),
    ensures
        frame_bytes(m).len() >= ETHERNET_HEADER_LEN,
        arp_packet_accepted(frame_bytes(m).skip(ETHERNET_HEADER_LEN as int)),
        h == (EthernetHeader {
            dst_addr: m.target_hardware_addr,
            src_addr: m.source_hardware_addr,
            ethertype: ETHERTYPE_ARP,
        }),
        d == m,
{
    let b = frame_bytes(m);
    let p = b.skip(ETHERNET_HEADER_LEN as int);
    assert(p =~= arp_message_bytes(m));
    assert(b.subrange(0, 6) =~= m.target_hardware_addr@);
    assert(b.subrange(6, 12) =~= m.source_hardware_addr@);
    lemma_be16_round_trip(ETHERTYPE_ARP);
    lemma_be16_round_trip(m.operation.code_of());
    assert(p.subrange(8, 14) =~= m.source_hardware_addr@);
    assert(p.subrange(14, 18) =~= m.source_protocol_addr@);
    assert(p.subrange(18, 24) =~= m.target_hardware_addr@);
    assert(p.subrange(24, 28) =~= m.target_protocol_addr@);
    lemma_mac_view_injective(h.dst_addr, m.target_hardware_addr);
    lemma_mac_view_injective(h.src_addr, m.source_hardware_addr);
    lemma_mac_view_injective(d.source_hardware_addr, m.source_hardware_addr);
    lemma_mac_view_injective(d.target_hardware_addr, m.target_hardware_addr);
    lemma_ipv4_view_injective(d.source_protocol_addr, m.source_protocol_addr);
    lemma_ipv4_view_injective(d.target_protocol_addr, m.target_protocol_addr);
}

} // verus!
