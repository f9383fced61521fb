use arp_reply::{
    decode_frame, encode_frame, handle_datagram, receive, reply_to, ArpMessage, ArpOperation,
    DecodeError, EthernetHeader, Ipv4Address, MacAddress, Received,
};

const OWN: MacAddress = MacAddress([0x02, 0x00, 0x00, 0x00, 0x00, 0x01]);
const REQUESTER: MacAddress = MacAddress([0xaa, 0xbb, 0xcc, 0xdd, 0xee, 0x01]);
const BROADCAST: MacAddress = MacAddress([0xff; 6]);

fn protected() -> Vec<Ipv4Address> {
    vec![Ipv4Address([10, 0, 0, 5])]
}

/// A raw "who has `target`" frame from the requester, as it comes off the wire.
fn request_frame(dst: [u8; 6], src: [u8; 6], op: u16, sha: [u8; 6], spa: [u8; 4], tpa: [u8; 4]) -> Vec<u8> {
    let mut b = Vec::new();
    b.extend_from_slice(&dst);
    b.extend_from_slice(&src);
    b.extend_from_slice(&[0x08, 0x06]);
    b.extend_from_slice(&[0x00, 0x01, 0x08, 0x00, 0x06, 0x04]);
    b.extend_from_slice(&op.to_be_bytes());
    b.extend_from_slice(&sha);
    b.extend_from_slice(&spa);
    b.extend_from_slice(&[0; 6]);
    b.extend_from_slice(&tpa);
    b
}

fn standard_request(tpa: [u8; 4]) -> Vec<u8> {
    request_frame(BROADCAST.0, REQUESTER.0, 1, REQUESTER.0, [10, 0, 0, 9], tpa)
}

fn request_message(sha: MacAddress, spa: [u8; 4], tpa: [u8; 4]) -> ArpMessage {
    ArpMessage {
        operation: ArpOperation::Request,
        source_hardware_addr: sha,
        source_protocol_addr: Ipv4Address(spa),
        target_hardware_addr: MacAddress([0; 6]),
        target_protocol_addr: Ipv4Address(tpa),
    }
}

fn header(dst: MacAddress, src: MacAddress) -> EthernetHeader {
    EthernetHeader { dst_addr: dst, src_addr: src, ethertype: 0x0806 }
}

fn expected_reply_frame() -> Vec<u8> {
    let mut b = Vec::new();
    b.extend_from_slice(&REQUESTER.0);
    b.extend_from_slice(&OWN.0);
    b.extend_from_slice(&[0x08, 0x06, 0x00, 0x01, 0x08, 0x00, 0x06, 0x04, 0x00, 0x02]);
    b.extend_from_slice(&OWN.0);
    b.extend_from_slice(&[10, 0, 0, 5]);
    b.extend_from_slice(&REQUESTER.0);
    b.extend_from_slice(&[10, 0, 0, 9]);
    b
}

#[test]
fn protected_request_gets_reply() {
    let out = handle_datagram(&OWN, &protected(), &standard_request([10, 0, 0, 5]), false);
    let frame = out.unwrap().expect("a reply");
    assert_eq!(frame, expected_reply_frame());
    let (h, m) = decode_frame(&frame).unwrap();
    assert_eq!(h, header(REQUESTER, OWN));
    assert_eq!(
        m,
        ArpMessage {
            operation: ArpOperation::Reply,
            source_hardware_addr: OWN,
            source_protocol_addr: Ipv4Address([10, 0, 0, 5]),
            target_hardware_addr: REQUESTER,
            target_protocol_addr: Ipv4Address([10, 0, 0, 9]),
        }
    );
}

#[test]
fn unprotected_request_gets_no_reply() {
    let out = handle_datagram(&OWN, &protected(), &standard_request([10, 0, 0, 6]), false);
    assert_eq!(out, Ok(None));
}

#[test]
fn truncated_datagram_is_skipped_and_next_is_answered() {
    let junk = vec![0xffu8; 100];
    assert_eq!(receive(&junk, true), Ok(Received::Discarded));
    assert_eq!(handle_datagram(&OWN, &protected(), &junk, true), Ok(None));
    let out = handle_datagram(&OWN, &protected(), &standard_request([10, 0, 0, 5]), false);
    assert_eq!(out, Ok(Some(expected_reply_frame())));
}

#[test]
fn foreign_unicast_destination_is_ignored() {
    let other = [0x02, 0x00, 0x00, 0x00, 0x00, 0x02];
    let frame = request_frame(other, REQUESTER.0, 1, REQUESTER.0, [10, 0, 0, 9], [10, 0, 0, 5]);
    assert_eq!(handle_datagram(&OWN, &protected(), &frame, false), Ok(None));
}

#[test]
fn own_and_multicast_destinations_are_answered() {
    let m = request_message(REQUESTER, [10, 0, 0, 9], [10, 0, 0, 5]);
    assert!(reply_to(&OWN, &protected(), &header(OWN, REQUESTER), &m).is_some());
    let group = MacAddress([0x01, 0x00, 0x5e, 0x00, 0x00, 0x01]);
    assert!(reply_to(&OWN, &protected(), &header(group, REQUESTER), &m).is_some());
}

#[test]
fn replies_are_never_answered() {
    let frame = request_frame(BROADCAST.0, REQUESTER.0, 2, REQUESTER.0, [10, 0, 0, 9], [10, 0, 0, 5]);
    assert_eq!(handle_datagram(&OWN, &protected(), &frame, false), Ok(None));
    let frame = request_frame(BROADCAST.0, REQUESTER.0, 7, REQUESTER.0, [10, 0, 0, 9], [10, 0, 0, 5]);
    assert_eq!(handle_datagram(&OWN, &protected(), &frame, false), Ok(None));
}

#[test]
fn mismatched_sender_is_ignored() {
    let other = [0xaa, 0xbb, 0xcc, 0xdd, 0xee, 0x02];
    let frame = request_frame(BROADCAST.0, other, 1, REQUESTER.0, [10, 0, 0, 9], [10, 0, 0, 5]);
    assert_eq!(handle_datagram(&OWN, &protected(), &frame, false), Ok(None));
}

#[test]
fn non_unicast_senders_are_ignored() {
    let eth = header(BROADCAST, REQUESTER);
    for spa in [[255, 255, 255, 255], [224, 0, 0, 1], [0, 1, 2, 3]] {
        let m = request_message(REQUESTER, spa, [10, 0, 0, 5]);
        assert_eq!(reply_to(&OWN, &protected(), &eth, &m), None);
    }
    for sha in [BROADCAST, MacAddress([0x01, 0x00, 0x5e, 0x00, 0x00, 0x01])] {
        let m = request_message(sha, [10, 0, 0, 9], [10, 0, 0, 5]);
        assert_eq!(reply_to(&OWN, &protected(), &header(BROADCAST, sha), &m), None);
    }
}

#[test]
fn encoded_reply_decodes_to_same_fields() {
    let reply = ArpMessage {
        operation: ArpOperation::Reply,
        source_hardware_addr: OWN,
        source_protocol_addr: Ipv4Address([192, 168, 1, 20]),
        target_hardware_addr: REQUESTER,
        target_protocol_addr: Ipv4Address([192, 168, 1, 1]),
    };
    let frame = encode_frame(&reply);
    assert_eq!(frame.len(), 42);
    let (h, m) = decode_frame(&frame).unwrap();
    assert_eq!(h, header(REQUESTER, OWN));
    assert_eq!(m, reply);
}

#[test]
fn padded_frame_decodes() {
    let mut frame = standard_request([10, 0, 0, 5]);
    frame.resize(60, 0);
    let (h, m) = decode_frame(&frame).unwrap();
    assert_eq!(h, header(BROADCAST, REQUESTER));
    assert_eq!(m, request_message(REQUESTER, [10, 0, 0, 9], [10, 0, 0, 5]));
}

#[test]
fn short_frame_is_malformed() {
    assert_eq!(decode_frame(&[0u8; 13]), Err(DecodeError::MalformedFrame));
    assert_eq!(receive(&[], false), Err(DecodeError::MalformedFrame));
}

#[test]
fn bad_arp_payload_is_malformed() {
    let frame = standard_request([10, 0, 0, 5]);
    assert_eq!(decode_frame(&frame[..41]), Err(DecodeError::MalformedPacket));
    assert_eq!(decode_frame(&frame[..14]), Err(DecodeError::MalformedPacket));
    let mut wrong_hw = frame.clone();
    wrong_hw[15] = 6;
    assert_eq!(decode_frame(&wrong_hw), Err(DecodeError::MalformedPacket));
    let mut wrong_proto = frame.clone();
    wrong_proto[16] = 0x86;
    wrong_proto[17] = 0xdd;
    assert_eq!(handle_datagram(&OWN, &protected(), &wrong_proto, false), Err(DecodeError::MalformedPacket));
    let mut wrong_len = frame;
    wrong_len[19] = 16;
    assert_eq!(decode_frame(&wrong_len), Err(DecodeError::MalformedPacket));
}

#[test]
fn operation_codes() {
    assert_eq!(ArpOperation::from_code(1), ArpOperation::Request);
    assert_eq!(ArpOperation::from_code(2), ArpOperation::Reply);
    assert_eq!(ArpOperation::from_code(9), ArpOperation::Unknown(9));
    assert_eq!(ArpOperation::Unknown(9).code(), 9);
    assert_eq!(ArpOperation::Reply.code(), 2);
}
