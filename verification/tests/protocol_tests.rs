use rams::quick::quick_connect::{
    local_host_candidate, parse_stun_srflx, reflexive_candidate, scan_stun_response, StunScan,
};

fn xor_mapped_response() -> Vec<u8> {
    // A real-world XOR-MAPPED-ADDRESS response snippet
    // Magic Cookie: 0x2112A442
    // XOR'd Port: 0x2112 ^ 12345 (0x3039) = 0x112B
    let mut data = vec![0u8; 40];
    data[0..2].copy_from_slice(&[0x01, 0x01]); // Binding Success
    data[2..4].copy_from_slice(&20u16.to_be_bytes()); // Length

    let attr_pos = 20;
    data[attr_pos..attr_pos + 2].copy_from_slice(&0x0020u16.to_be_bytes()); // XOR-MAPPED-ADDRESS
    data[attr_pos + 2..attr_pos + 4].copy_from_slice(&8u16.to_be_bytes()); // Length
    data[attr_pos + 5] = 0x01; // IPv4

    // Port 12345 (0x3039) -> XOR with 0x2112 = 0x112B
    data[attr_pos + 6..attr_pos + 8].copy_from_slice(&0x112Bu16.to_be_bytes());

    // IP 1.2.3.4 -> XOR with 0x2112A442
    data[attr_pos + 8..attr_pos + 12].copy_from_slice(&[0x20, 0x10, 0xA7, 0x46]);
    data
}

fn mapped_response() -> Vec<u8> {
    let mut data = vec![0u8; 40];
    data[0..2].copy_from_slice(&[0x01, 0x01]); // Binding Success
    data[2..4].copy_from_slice(&20u16.to_be_bytes()); // Length

    let attr_pos = 20;
    data[attr_pos..attr_pos + 2].copy_from_slice(&0x0001u16.to_be_bytes()); // MAPPED-ADDRESS
    data[attr_pos + 2..attr_pos + 4].copy_from_slice(&8u16.to_be_bytes()); // Length
    data[attr_pos + 5] = 0x01; // IPv4
    data[attr_pos + 6..attr_pos + 8].copy_from_slice(&12345u16.to_be_bytes()); // Port
    data[attr_pos + 8..attr_pos + 12].copy_from_slice(&[1, 2, 3, 4]); // IP
    data
}

#[test]
fn protocol_tests_test_stun_parsing_xor_mapped() {
    let data = xor_mapped_response();
    let result = parse_stun_srflx(&data).expect("Failed to parse STUN");
    assert_eq!(result.port(), 12345);
    let ip = result.ip();
    assert_eq!(format!("{}.{}.{}.{}", ip[0], ip[1], ip[2], ip[3]), "1.2.3.4");
}

#[test]
fn protocol_tests_test_stun_parsing_mapped_address() {
    let data = mapped_response();
    let result = parse_stun_srflx(&data).expect("Failed to parse STUN");
    assert_eq!(result.port(), 12345);
    let ip = result.ip();
    assert_eq!(format!("{}.{}.{}.{}", ip[0], ip[1], ip[2], ip[3]), "1.2.3.4");
}

#[test]
fn quick_connect_test_stun_parsing_xor_mapped() {
    let data = xor_mapped_response();
    let result = parse_stun_srflx(&data).expect("Failed to parse STUN");
    assert_eq!(result.port(), 12345);
    let ip = result.ip();
    assert_eq!(format!("{}.{}.{}.{}", ip[0], ip[1], ip[2], ip[3]), "1.2.3.4");
}

#[test]
fn quick_connect_test_stun_parsing_mapped_address() {
    let data = mapped_response();
    let result = parse_stun_srflx(&data).expect("Failed to parse STUN");
    assert_eq!(result.port(), 12345);
    let ip = result.ip();
    assert_eq!(format!("{}.{}.{}.{}", ip[0], ip[1], ip[2], ip[3]), "1.2.3.4");
}

#[test]
fn stun_rejects_other_messages() {
    // Too short for a header
    assert_eq!(scan_stun_response(&[0x01, 0x01, 0, 0]), StunScan::NotFound);
    // A Binding Request, not a success response
    let mut data = xor_mapped_response();
    data[1] = 0x00;
    assert_eq!(parse_stun_srflx(&data), None);
    // No attributes at all
    let mut empty = vec![0u8; 20];
    empty[0] = 0x01;
    empty[1] = 0x01;
    assert_eq!(parse_stun_srflx(&empty), None);
}

#[test]
fn stun_skips_unusable_attributes_with_padding() {
    // An unknown attribute of 5 bytes (padded to 8), then an IPv6 mapped
    // address (skipped), then the IPv4 XOR-MAPPED-ADDRESS.
    let mut data = vec![0x01, 0x01, 0x00, 0x00, 0x21, 0x12, 0xA4, 0x42];
    data.extend_from_slice(&[0u8; 12]);
    data.extend_from_slice(&[0x80, 0x22, 0x00, 0x05, b'r', b'a', b'm', b's', b'!', 0, 0, 0]);
    data.extend_from_slice(&[0x00, 0x01, 0x00, 0x08, 0x00, 0x02, 0x00, 0x50, 9, 9, 9, 9]);
    data.extend_from_slice(&[0x00, 0x20, 0x00, 0x08, 0x00, 0x01, 0x11, 0x2B, 0x20, 0x10, 0xA7, 0x46]);
    let len = (data.len() - 20) as u16;
    data[2..4].copy_from_slice(&len.to_be_bytes());
    let result = parse_stun_srflx(&data).unwrap();
    assert_eq!(result.port(), 12345);
    assert_eq!(result.ip(), [1, 2, 3, 4]);
}

#[test]
fn stun_reports_truncated_messages() {
    // The header declares attributes that the buffer does not hold.
    let mut data = vec![0u8; 22];
    data[0] = 0x01;
    data[1] = 0x01;
    data[3] = 12;
    assert_eq!(scan_stun_response(&data), StunScan::OutOfBounds);

    // An IPv4 address attribute cut short.
    let mut data = xor_mapped_response();
    data.truncate(30);
    assert_eq!(scan_stun_response(&data), StunScan::OutOfBounds);
}

#[test]
fn reflexive_candidate_carries_the_mapped_address() {
    let data = xor_mapped_response();
    let (_, text) = reflexive_candidate(&data, [192, 168, 1, 2], 5000).expect("a server-reflexive candidate");
    assert!(text.contains("1.2.3.4 12345 typ srflx"));
    assert!(reflexive_candidate(&[0u8; 20], [192, 168, 1, 2], 5000).is_none());
}

#[test]
fn host_candidate_uses_the_chosen_address() {
    let (_, text) = local_host_candidate([0, 0, 0, 0], 5000, None).expect("a loopback candidate");
    assert!(text.contains("127.0.0.1 5000 typ host"));
    let (_, text) = local_host_candidate([0, 0, 0, 0], 5000, Some([10, 0, 0, 2])).unwrap();
    assert!(text.contains("10.0.0.2 5000 typ host"));
    assert!(local_host_candidate([169, 254, 0, 1], 5000, None).is_none());
    assert!(local_host_candidate([224, 0, 0, 1], 5000, None).is_none());
}
