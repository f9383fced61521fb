use crate::address::MacAddress;
use vstd::prelude::*;
use vstd::string::StringSliceAdditionalSpecFns;

verus! {

/// Size of the interface-name field of an interface request.
pub const IF_NAMESIZE: usize = 16;

/// Size of the address field of a link-layer socket address.
pub const LINK_ADDR_LEN: usize = 8;

/// Length of an Ethernet hardware address.
pub const ETH_ALEN: usize = 6;

/// Why an interface could not be prepared for binding.
#[derive(Clone, Copy, Debug, PartialEq, Eq)]
pub enum SetupError {
    /// The name does not fit the interface-request name field.
    InterfaceNameTooLong,
    /// The queried hardware address is shorter than an Ethernet address.
    AddressLengthMismatch,
}

/// The address part of a link-layer socket address, with the Ethernet
/// address that it begins with.
#[derive(Clone, Copy, Debug, PartialEq, Eq)]
pub struct LinkAddress {
    pub addr: [u8; 8],
    pub hardware_addr: MacAddress,
}

/// `n` zero bytes.
pub open spec fn zeros(n: int) -> Seq<u8> {
    Seq::new(n as nat, |_i: int| 0u8)
}

/// The first `n` bytes of `b`, padded with zeros to `n` when `b` is shorter.
pub open spec fn padded_prefix(b: Seq<u8>, n: int) -> Seq<u8> {
    if b.len() >= n {
        b.subrange(0, n)
    } else {
        b + zeros(n - b.len())
    }
}

/// The name field of an interface request for `name`: its bytes, then zeros.
/// A name of exactly the field's size fills it with no terminating zero.
pub fn interface_name_field(name: &str) -> (r: Result<[u8; 16], SetupError>)
    ensures
        r is Err <==> name.spec_bytes().len() > IF_NAMESIZE,
        r matches Err(e) ==> e == SetupError::InterfaceNameTooLong,
        r matches Ok(f) ==> f@ == padded_prefix(name.spec_bytes(), IF_NAMESIZE as int),
{
    let bytes = name.as_bytes();
    if bytes.len() > IF_NAMESIZE {
        return Err(SetupError::InterfaceNameTooLong);
    }
    let mut field = [0u8; 16];
    let mut i: usize = 0;
    while i < bytes.len()
        invariant
            bytes@ == name.spec_bytes(),
            bytes@.len() <= IF_NAMESIZE,
            i <= bytes@.len(),
            field@.len() == IF_NAMESIZE,
            forall|j: int| 0 <= j < i ==> field@[j] == bytes@[j],
            forall|j: int| i <= j < IF_NAMESIZE ==> field@[j] == 0,
        decreases bytes@.len() - i,
    {
        field[i] = bytes[i];
        i += 1;
    }
    assert(field@ =~= padded_prefix(bytes@, IF_NAMESIZE as int));
    Ok(field)
}

/// The link-layer address for an interface whose hardware-address query gave
/// `hw` (the address bytes of the returned socket address): its first eight
/// bytes, zero-padded, of which the first six are the Ethernet address.
pub fn link_address(hw: &[u8]) -> (r: Result<LinkAddress, SetupError>)
    ensures
        r is Err <==> hw@.len() < ETH_ALEN,
        r matches Err(e) ==> e == SetupError::AddressLengthMismatch,
        r matches Ok(a) ==> {
            &&& a.addr@ == padded_prefix(hw@, LINK_ADDR_LEN as int)
            &&& a.hardware_addr@ == hw@.subrange(0, ETH_ALEN as int)
        },
{
    if hw.len() < ETH_ALEN {
        return Err(SetupError::AddressLengthMismatch);
    }
    let mut addr = [0u8; 8];
    let mut i: usize = 0;
    while i < hw.len() && i < LINK_ADDR_LEN
        invariant
            i <= hw@.len(),
            i <= LINK_ADDR_LEN,
            addr@.len() == LINK_ADDR_LEN,
            forall|j: int| 0 <= j < i ==> addr@[j] == hw@[j],
            forall|j: int| i <= j < LINK_ADDR_LEN ==> addr@[j] == 0,
        decreases LINK_ADDR_LEN - i,
    {
        addr[i] = hw[i];
        i += 1;
    }
    let mac = MacAddress([addr[0], addr[1], addr[2], addr[3], addr[4], addr[5]]);
    assert(addr@ =~= padded_prefix(hw@, LINK_ADDR_LEN as int));
    assert(mac@ =~= hw@.subrange(0, ETH_ALEN as int));
    Ok(LinkAddress { addr, hardware_addr: mac })
}

} // verus!
