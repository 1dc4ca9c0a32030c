use ethernet_frame::network::ethernet::{conclude, Decoded, EthernetFrame, Protocol};
use ethernet_frame::network::frame::{Frame, HEADER_LEN};
use pnet::packet::ethernet::{EtherType, EtherTypes, EthernetPacket};
use pnet::packet::Packet;

fn bytes_with_ethertype(high: u8, low: u8, payload: &[u8]) -> Vec<u8> {
    let mut bytes = vec![0x01, 0x02, 0x03, 0x04, 0x05, 0x06, 0x11, 0x12, 0x13, 0x14, 0x15, 0x16];
    bytes.push(high);
    bytes.push(low);
    bytes.extend_from_slice(payload);
    bytes
}

#[test]
fn header_length_is_fourteen() {
    assert_eq!(HEADER_LEN, 14);
    assert_eq!(HEADER_LEN, EthernetPacket::minimum_packet_size());
}

#[test]
fn frame_needs_a_whole_header() {
    assert!(Frame::new(Vec::new()).is_none());
    assert!(Frame::new(vec![0; 1]).is_none());
    assert!(Frame::new(vec![0; 13]).is_none());
    assert!(Frame::new(vec![0; 14]).is_some());
    assert!(Frame::new(vec![0; 15]).is_some());
    assert!(Frame::new(vec![0; 1514]).is_some());
}

#[test]
fn ethertype_is_read_most_significant_byte_first() {
    let frame = Frame::new(bytes_with_ethertype(0x86, 0xdd, &[])).unwrap();
    assert_eq!(frame.ethertype(), 0x86DD);
    let frame = Frame::new(bytes_with_ethertype(0x08, 0x00, &[1, 2, 3])).unwrap();
    assert_eq!(frame.ethertype(), 0x0800);
    let frame = Frame::new(bytes_with_ethertype(0x00, 0x08, &[1, 2, 3])).unwrap();
    assert_eq!(frame.ethertype(), 0x0008);
    let frame = Frame::new(bytes_with_ethertype(0xff, 0xff, &[])).unwrap();
    assert_eq!(frame.ethertype(), 0xffff);
    let frame = Frame::new(vec![0; 14]).unwrap();
    assert_eq!(frame.ethertype(), 0);
}

#[test]
fn ethertype_does_not_depend_on_the_other_bytes() {
    let mut bytes = vec![0xff; 40];
    bytes[12] = 0x12;
    bytes[13] = 0x34;
    assert_eq!(Frame::new(bytes).unwrap().ethertype(), 0x1234);
}

#[test]
fn frame_keeps_its_bytes() {
    let bytes = bytes_with_ethertype(0x08, 0x06, &[9, 8, 7]);
    let frame = Frame::new(bytes.clone()).unwrap();
    assert_eq!(frame.bytes(), &bytes[..]);
    assert_eq!(frame.payload(), &[9, 8, 7]);
}

#[test]
fn addresses_are_the_first_twelve_bytes() {
    let frame = Frame::new(bytes_with_ethertype(0x08, 0x06, &[9, 8, 7])).unwrap();
    assert_eq!(frame.destination(), [0x01, 0x02, 0x03, 0x04, 0x05, 0x06]);
    assert_eq!(frame.source(), [0x11, 0x12, 0x13, 0x14, 0x15, 0x16]);
}

#[test]
fn payload_of_a_bare_header_is_empty() {
    let frame = Frame::new(bytes_with_ethertype(0x08, 0x06, &[])).unwrap();
    assert_eq!(frame.payload().len(), 0);
    assert_eq!(frame.bytes().len(), 14);
}

#[test]
fn frame_agrees_with_the_packet() {
    let bytes = bytes_with_ethertype(0x88, 0x47, &[0xde, 0xad, 0xbe, 0xef]);
    let packet = EthernetPacket::new(&bytes).unwrap();
    let frame = Frame::new(bytes.clone()).unwrap();
    assert_eq!(frame.ethertype(), packet.get_ethertype().0);
    assert_eq!(frame.destination(), packet.get_destination().octets());
    assert_eq!(frame.source(), packet.get_source().octets());
    assert_eq!(frame.payload(), packet.payload());
    assert_eq!(frame.bytes(), packet.packet());
}

#[test]
fn the_three_ethertypes_select_their_protocols() {
    assert_eq!(Protocol::of_ethertype(0x0800), Some(Protocol::IPv4));
    assert_eq!(Protocol::of_ethertype(0x86DD), Some(Protocol::IPv6));
    assert_eq!(Protocol::of_ethertype(0x0806), Some(Protocol::Arp));
    assert_eq!(Protocol::of_ethertype(EtherTypes::Ipv4.0), Some(Protocol::IPv4));
    assert_eq!(Protocol::of_ethertype(EtherTypes::Ipv6.0), Some(Protocol::IPv6));
    assert_eq!(Protocol::of_ethertype(EtherTypes::Arp.0), Some(Protocol::Arp));
}

#[test]
fn other_ethertypes_select_no_protocol() {
    assert_eq!(Protocol::of_ethertype(0x9999), None);
    assert_eq!(Protocol::of_ethertype(0), None);
    assert_eq!(Protocol::of_ethertype(0xffff), None);
    assert_eq!(Protocol::of_ethertype(0x0008), None);
    assert_eq!(Protocol::of_ethertype(0x0801), None);
    assert_eq!(Protocol::of_ethertype(0x0805), None);
    assert_eq!(Protocol::of_ethertype(0x0807), None);
    assert_eq!(Protocol::of_ethertype(0x86DC), None);
    assert_eq!(Protocol::of_ethertype(0xDD86), None);
    assert_eq!(Protocol::of_ethertype(EtherTypes::Rarp.0), None);
    assert_eq!(Protocol::of_ethertype(EtherTypes::Vlan.0), None);
    let selected = (0..=u16::MAX).filter(|tag| Protocol::of_ethertype(*tag).is_some()).count();
    assert_eq!(selected, 3);
}

#[test]
fn unknown_diagnostic_shows_the_ethertype_as_the_packet_library_does() {
    for tag in [0u16, 1, 9, 10, 0x0800, 0x0842, 0x9999, 0xffff] {
        let mut log = Vec::new();
        let result: Result<EthernetFrame<u8, u8, u8>, _> =
            conclude("eth0", Decoded::Unknown(tag), &mut log);
        assert_eq!(result, Ok(EthernetFrame::Unknown));
        assert_eq!(log, vec![format!("[eth0]: Unknown packet type: {:?}", EtherType(tag))]);
    }
    let mut log = Vec::new();
    let _: Result<EthernetFrame<u8, u8, u8>, _> =
        conclude("eth0", Decoded::Unknown(0x0842), &mut log);
    assert_eq!(log, vec!["[eth0]: Unknown packet type: EtherType(2114)"]);
}
