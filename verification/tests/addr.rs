use j1939::addr::{J1939SockAddr, J1939SockAddrError, AF_CAN, SOCKADDR_CAN_LEN};
use j1939::protocol::{Addr, Name, Pgn};

#[test]
fn default_holds_unset_sentinels() {
    let addr = J1939SockAddr::default();
    assert_eq!(addr.ifindex(), 0);
    assert_eq!(u64::from(addr.name()), 0);
    // The raw "no PGN" word lies above the 18-bit range, so the accessor
    // truncates it to zero.
    assert_eq!(u32::from(addr.pgn()), 0);
    assert_eq!(u8::from(addr.addr()), 0xFF);
    assert_eq!(addr, J1939SockAddr::new(0));
}

#[test]
fn from_parts_stores_each_field() {
    let addr = J1939SockAddr::from_parts(
        7,
        Name::from(0x9704033501000004),
        Pgn::from(0x0F004),
        Addr::from(0x42),
    );
    assert_eq!(addr.ifindex(), 7);
    assert_eq!(u64::from(addr.name()), 0x9704033501000004);
    assert_eq!(addr.pgn(), Pgn::from(0x0F004));
    assert_eq!(u8::from(addr.addr()), 0x42);
}

#[test]
fn setters_update_one_field() {
    let mut addr = J1939SockAddr::new(1);
    addr.set_name(Name::from(0x0102030405060708));
    addr.set_addr(Addr::from(0x2A));
    addr.set_pgn(Pgn::from(0x1F004));
    assert_eq!(addr.ifindex(), 1);
    assert_eq!(u64::from(addr.name()), 0x0102030405060708);
    assert_eq!(u8::from(addr.addr()), 0x2A);
    assert_eq!(addr.pgn(), Pgn::from(0x1F004));
    // A PDU1 PGN is stored in its wire form: the destination byte drops.
    addr.set_pgn(Pgn::from(0x0EF23));
    assert_eq!(addr.pgn(), Pgn::from(0x0EF00));
}

#[test]
fn wire_layout_is_fixed_and_little_endian() {
    let addr = J1939SockAddr::from_parts(
        3,
        Name::from(0x1122334455667788),
        Pgn::from(0x1F004),
        Addr::from(0x2A),
    );
    let bytes = addr.as_bytes();
    assert_eq!(bytes.len(), SOCKADDR_CAN_LEN);
    let expected = [
        29, 0, // family tag, AF_CAN
        0, 0, // padding
        3, 0, 0, 0, // interface index
        0x88, 0x77, 0x66, 0x55, 0x44, 0x33, 0x22, 0x11, // NAME
        0x04, 0xF0, 0x01, 0x00, // PGN
        0x2A, // address
        0, 0, 0, // padding
    ];
    assert_eq!(bytes.as_slice(), &expected);
}

#[test]
fn byte_round_trip_restores_the_address() {
    let addr = J1939SockAddr::from_parts(
        5,
        Name::from(0x9704033501000004),
        Pgn::from(0x0F004),
        Addr::from(0x17),
    );
    let bytes = addr.as_bytes();
    let decoded = J1939SockAddr::from_bytes(&bytes).expect("the family tag is AF_CAN");
    assert_eq!(decoded, addr);
    assert_eq!(decoded.ifindex(), 5);
    assert_eq!(u64::from(decoded.name()), 0x9704033501000004);
    assert_eq!(decoded.pgn(), Pgn::from(0x0F004));
    assert_eq!(u8::from(decoded.addr()), 0x17);
    // The default address round-trips too, its raw "no PGN" word included.
    let default_bytes = J1939SockAddr::default().as_bytes();
    assert_eq!(
        J1939SockAddr::from_bytes(&default_bytes).expect("the family tag is AF_CAN"),
        J1939SockAddr::default()
    );
}

#[test]
fn decoding_a_foreign_family_fails() {
    let mut bytes = J1939SockAddr::new(2).as_bytes();
    assert_eq!(bytes[0], AF_CAN as u8);
    // An IPv4 address container carries family tag 2.
    bytes[0] = 2;
    let result = J1939SockAddr::from_bytes(&bytes);
    assert_eq!(result, Err(J1939SockAddrError::InvalidAddressFamily));
    // A longer container is accepted as long as its leading bytes decode.
    let mut long = J1939SockAddr::new(2).as_bytes();
    long.extend_from_slice(&[0u8; 104]);
    assert!(J1939SockAddr::from_bytes(&long).is_ok());
}

#[test]
fn equality_truncates_the_raw_pgn() {
    // The default raw PGN word is the out-of-range "no PGN" sentinel; an
    // address that stores a zero PGN compares equal to it.
    let mut explicit = J1939SockAddr::new(0);
    explicit.set_pgn(Pgn::from(0));
    assert_eq!(explicit, J1939SockAddr::default());
    let mut other = J1939SockAddr::new(0);
    other.set_addr(Addr::from(0x10));
    assert_ne!(other, J1939SockAddr::default());
}

#[test]
fn with_ifname_fails_for_an_unknown_interface() {
    assert!(J1939SockAddr::with_ifname("j1939-no-such-if").is_err());
    assert!(J1939SockAddr::from_parts_with_ifname(
        "j1939-no-such-if",
        Name::from(0),
        Pgn::from(0),
        Addr::from(0xFF),
    )
    .is_err());
}
