//! Answers ARP requests on one Ethernet interface for a fixed set of IPv4
//! addresses, without an IP stack.
//!
//! The library holds everything that decides or computes: the address types
//! and their classes, the Ethernet/ARP wire format, the responder's filter
//! chain and reply construction, and the values needed to bind a link-layer
//! socket. Opening, binding, reading and writing the socket are left to the
//! program around it.

pub mod address;
pub mod interface;
pub mod responder;
pub mod wire;

pub use address::{Ipv4Address, MacAddress};
pub use wire::{decode_frame, encode_frame, ArpMessage, ArpOperation, DecodeError, EthernetHeader};
pub use responder::{handle_datagram, receive, reply_to, Received};
pub use interface::{interface_name_field, link_address, LinkAddress, SetupError};
