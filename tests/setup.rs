use arp_reply::{interface_name_field, link_address, Ipv4Address, MacAddress, SetupError};
use arp_reply::address::ipv4_contains;

#[test]
fn interface_name_is_zero_padded() {
    let f = interface_name_field("eth0").unwrap();
    let mut expected = [0u8; 16];
    expected[..4].copy_from_slice(b"eth0");
    assert_eq!(f, expected);
}

#[test]
fn interface_name_of_field_size_fits() {
    let f = interface_name_field("abcdefghijklmnop").unwrap();
    assert_eq!(&f, b"abcdefghijklmnop");
}

#[test]
fn interface_name_too_long() {
    assert_eq!(interface_name_field("abcdefghijklmnopq"), Err(SetupError::InterfaceNameTooLong));
}

#[test]
fn link_address_from_socket_address_data() {
    let data = [0x52, 0x54, 0x00, 0x12, 0x34, 0x56, 0x77, 0x88, 9, 9, 9, 9, 9, 9];
    let a = link_address(&data).unwrap();
    assert_eq!(a.addr, [0x52, 0x54, 0x00, 0x12, 0x34, 0x56, 0x77, 0x88]);
    assert_eq!(a.hardware_addr, MacAddress([0x52, 0x54, 0x00, 0x12, 0x34, 0x56]));
}

#[test]
fn link_address_of_six_bytes_is_padded() {
    let a = link_address(&[1, 2, 3, 4, 5, 6]).unwrap();
    assert_eq!(a.addr, [1, 2, 3, 4, 5, 6, 0, 0]);
}

#[test]
fn link_address_too_short() {
    assert_eq!(link_address(&[1, 2, 3, 4, 5]), Err(SetupError::AddressLengthMismatch));
}

#[test]
fn mac_address_classes() {
    assert!(MacAddress([0xff; 6]).is_broadcast());
    assert!(MacAddress([0xff; 6]).is_multicast());
    assert!(!MacAddress([0xff, 0xff, 0xff, 0xff, 0xff, 0xfe]).is_broadcast());
    assert!(MacAddress([0x33, 0x33, 0, 0, 0, 1]).is_multicast());
    assert!(MacAddress([0x02, 0, 0, 0, 0, 1]).is_unicast());
    assert!(MacAddress([0xff; 6]).same_as(&MacAddress([0xff; 6])));
    assert!(!MacAddress([0xff; 6]).same_as(&MacAddress([0xfe; 6])));
}

#[test]
fn ipv4_address_classes() {
    assert!(Ipv4Address([10, 0, 0, 9]).is_unicast());
    assert!(Ipv4Address([255, 255, 255, 255]).is_broadcast());
    assert!(Ipv4Address([239, 1, 2, 3]).is_multicast());
    assert!(!Ipv4Address([240, 1, 2, 3]).is_multicast());
    assert!(Ipv4Address([0, 0, 0, 1]).is_unspecified());
    assert!(!Ipv4Address([0, 0, 0, 1]).is_unicast());
}

#[test]
fn protected_set_membership() {
    let set = vec![Ipv4Address([10, 0, 0, 5]), Ipv4Address([10, 0, 0, 7])];
    assert!(ipv4_contains(&set, &Ipv4Address([10, 0, 0, 7])));
    assert!(!ipv4_contains(&set, &Ipv4Address([10, 0, 0, 6])));
    assert!(!ipv4_contains(&[], &Ipv4Address([10, 0, 0, 5])));
}
