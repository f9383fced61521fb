use vstd::prelude::*;

verus! {

/// A 6-byte Ethernet hardware address.
#[derive(Clone, Copy, Debug, PartialEq, Eq)]
pub struct MacAddress(pub [u8; 6]);

/// A 4-byte IPv4 address, most significant byte first.
#[derive(Clone, Copy, Debug, PartialEq, Eq)]
pub struct Ipv4Address(pub [u8; 4]);

impl View for MacAddress {
    type V = Seq<u8>;

    open spec fn view(&self) -> Seq<u8> {
        self.0@
    }
}

impl View for Ipv4Address {
    type V = Seq<u8>;

    open spec fn view(&self) -> Seq<u8> {
        self.0@
    }
}

/// The all-ones Ethernet address.
pub open spec fn mac_is_broadcast(a: Seq<u8>) -> bool {
    forall|i: int| 0 <= i < 6 ==> a[i] == 0xff
}

/// The group bit (lowest bit of the first octet) is set.
pub open spec fn mac_is_multicast(a: Seq<u8>) -> bool {
    a[0] & 1 != 0
}

pub open spec fn mac_is_unicast(a: Seq<u8>) -> bool {
    !(mac_is_broadcast(a) || mac_is_multicast(a))
}

pub open spec fn ipv4_is_broadcast(a: Seq<u8>) -> bool {
    forall|i: int| 0 <= i < 4 ==> a[i] == 0xff
}

/// Class D: the first octet lies in 224..=239.
pub open spec fn ipv4_is_multicast(a: Seq<u8>) -> bool {
    a[0] & 0xf0 == 224
}

/// The "this network" range 0.0.0.0/8.
pub open spec fn ipv4_is_unspecified(a: Seq<u8>) -> bool {
    a[0] == 0
}

pub open spec fn ipv4_is_unicast(a: Seq<u8>) -> bool {
    !(ipv4_is_broadcast(a) || ipv4_is_multicast(a) || ipv4_is_unspecified(a))
}

/// `a` is one of the addresses of `set`.
pub open spec fn ipv4_in(set: Seq<Ipv4Address>, a: Seq<u8>) -> bool {
    exists|i: int| 0 <= i < set.len() && #[trigger] set[i]@ == a
}

/// Two hardware addresses with the same octets are the same address.
pub proof fn lemma_mac_view_injective(a: MacAddress, b: MacAddress)
    requires
        a@ == b@,
    ensures
        a == b,
{
    assert(a.0 =~= b.0);
}

/// Two IPv4 addresses with the same octets are the same address.
pub proof fn lemma_ipv4_view_injective(a: Ipv4Address, b: Ipv4Address)
    requires
        a@ == b@,
    ensures
        a == b,
{
    assert(a.0 =~= b.0);
}

/// True when every byte of `a` and `b` agrees.
fn bytes_equal(a: &[u8], b: &[u8]) -> (r: bool)
    requires
        a@.len() == b@.len(),
    ensures
        r == (a@ == b@),
{
    let mut i: usize = 0;
    while i < a.len()
        invariant
            a@.len() == b@.len(),
            i <= a@.len(),
            forall|j: int| 0 <= j < i ==> a@[j] == b@[j],
        decreases a@.len() - i,
    {
        if a[i] != b[i] {
            return false;
        }
        i += 1;
    }
    assert(a@ =~= b@);
    true
}

/// True when every byte of `a` is `v`.
fn all_bytes_are(a: &[u8], v: u8) -> (r: bool)
    ensures
        r == (forall|j: int| 0 <= j < a@.len() ==> a@[j] == v),
{
    let mut i: usize = 0;
    while i < a.len()
        invariant
            i <= a@.len(),
            forall|j: int| 0 <= j < i ==> a@[j] == v,
        decreases a@.len() - i,
    {
        if a[i] != v {
            return false;
        }
        i += 1;
    }
    true
}

impl MacAddress {
    pub fn is_broadcast(&self) -> (r: bool)
        ensures
            r == mac_is_broadcast(self@),
    {
        all_bytes_are(self.0.as_slice(), 0xff)
    }

    pub fn is_multicast(&self) -> (r: bool)
        ensures
            r == mac_is_multicast(self@),
    {
        self.0[0] & 1 != 0
    }

    pub fn is_unicast(&self) -> (r: bool)
        ensures
            r == mac_is_unicast(self@),
    {
        !(self.is_broadcast() || self.is_multicast())
    }

    /// Byte-wise equality, usable from verified code.
    pub fn same_as(&self, other: &MacAddress) -> (r: bool)
        ensures
            r == (self@ == other@),
    {
        bytes_equal(self.0.as_slice(), other.0.as_slice())
    }
}

impl Ipv4Address {
    pub fn is_broadcast(&self) -> (r: bool)
        ensures
            r == ipv4_is_broadcast(self@),
    {
        all_bytes_are(self.0.as_slice(), 0xff)
    }

    pub fn is_multicast(&self) -> (r: bool)
        ensures
            r == ipv4_is_multicast(self@),
    {
        self.0[0] & 0xf0 == 224
    }

    pub fn is_unspecified(&self) -> (r: bool)
        ensures
            r == ipv4_is_unspecified(self@),
    {
        self.0[0] == 0
    }

    pub fn is_unicast(&self) -> (r: bool)
        ensures
            r == ipv4_is_unicast(self@),
    {
        !(self.is_broadcast() || self.is_multicast() || self.is_unspecified())
    }

    /// Byte-wise equality, usable from verified code.
    pub fn same_as(&self, other: &Ipv4Address) -> (r: bool)
        ensures
            r == (self@ == other@),
    {
        bytes_equal(self.0.as_slice(), other.0.as_slice())
    }
}

/// Whether `a` is one of the addresses in `set`.
pub fn ipv4_contains(set: &[Ipv4Address], a: &Ipv4Address) -> (r: bool)
    ensures
        r == ipv4_in(set@, a@),
{
    let mut i: usize = 0;
    while i < set.len()
        invariant
            i <= set@.len(),
            forall|j: int| 0 <= j < i ==> set@[j]@ != a@,
        decreases set@.len() - i,
    {
        if set[i].same_as(a) {
            return true;
        }
        i += 1;
    }
    false
}

} // verus!
