use j1939::filter::{
    encode_filters, AddrFilter, AddrFilterMask, J1939Filter, NameFilter, NameFilterMask,
    PgnFilter, PgnFilterMask,
};
use j1939::protocol::{Addr, Name, Pgn};

#[test]
fn create_name_filter() {
    let name = Name::from(0x9704033501000004);
    let filter: J1939Filter = NameFilter::new(name, NameFilterMask::Full).into();
    assert_eq!(filter.name, 0x9704033501000004);
    assert_eq!(filter.name_mask, 0xFFFFFFFFFFFFFFFF);
}

#[test]
fn create_pgn_filter() {
    let pgn = Pgn::from(0x2100);
    let filter: J1939Filter = PgnFilter::new(pgn, PgnFilterMask::Pdu1).into();
    assert_eq!(filter.pgn, 0x2100);
    assert_eq!(filter.pgn_mask, 0x3FF00);

    let pgn = Pgn::from(0x21FF);
    let filter: J1939Filter = PgnFilter::new(pgn, PgnFilterMask::Full).into();
    assert_eq!(filter.pgn, 0x2100);
    assert_eq!(filter.pgn_mask, 0x3FFFF);
}

#[test]
fn create_addr_filter() {
    let addr = Addr::from(0x12);
    let filter: J1939Filter = AddrFilter::new(addr, AddrFilterMask::Partial(0x0F)).into();
    assert_eq!(filter.addr, 0x12);
    assert_eq!(filter.addr_mask, 0x0F);

    let addr = Addr::from(0x12);
    let filter: J1939Filter = AddrFilter::new(addr, AddrFilterMask::Full).into();
    assert_eq!(filter.addr, 0x12);
    assert_eq!(filter.addr_mask, 0xFF);
}

#[test]
fn filter_mask_encodings() {
    assert_eq!(u64::from(NameFilterMask::Full), 0xFFFF_FFFF_FFFF_FFFF);
    assert_eq!(u64::from(NameFilterMask::Partial(0x1234)), 0x1234);
    assert_eq!(u32::from(PgnFilterMask::Full), 0x3FFFF);
    assert_eq!(u32::from(PgnFilterMask::Pdu1), 0x3FF00);
    assert_eq!(u32::from(PgnFilterMask::Partial(0xFFFF_FFFF)), 0x3FFFF);
    assert_eq!(u8::from(AddrFilterMask::Full), 0xFF);
    assert_eq!(u8::from(AddrFilterMask::Partial(0x0F)), 0x0F);
}

#[test]
fn new_raw_truncates_pgn_and_mask() {
    let filter = J1939Filter::new_raw(0x55, 0xAA, 0xFFFF_FFFF, 0xFFFF_FFFF, 0x12, 0x0F);
    assert_eq!(filter.name, 0x55);
    assert_eq!(filter.name_mask, 0xAA);
    assert_eq!(filter.pgn, 0x3FFFF);
    assert_eq!(filter.pgn_mask, 0x3FFFF);
    assert_eq!(filter.addr, 0x12);
    assert_eq!(filter.addr_mask, 0x0F);
}

#[test]
fn combine_partial_filters() {
    let filter = J1939Filter::new(
        NameFilter::new(Name::from(0x9704033501000004), NameFilterMask::Full),
        PgnFilter::new(Pgn::from(0x2100), PgnFilterMask::Pdu1),
        AddrFilter::new(Addr::from(0x12), AddrFilterMask::Full),
    );
    assert_eq!(filter.name, 0x9704033501000004);
    assert_eq!(filter.name_mask, 0xFFFF_FFFF_FFFF_FFFF);
    assert_eq!(filter.pgn, 0x2100);
    assert_eq!(filter.pgn_mask, 0x3FF00);
    assert_eq!(filter.addr, 0x12);
    assert_eq!(filter.addr_mask, 0xFF);
}

#[test]
fn encode_empty_filter_list_is_no_buffer() {
    // An empty filter list must not lead to a zero-length option transfer:
    // there is no payload at all.
    assert!(encode_filters(&Vec::new()).is_none());
}

#[test]
fn encode_filter_list_layout() {
    let filters = vec![
        J1939Filter::new_raw(
            0x1122334455667788,
            0xFFFF_FFFF_FFFF_FFFF,
            0x2100,
            0x3FF00,
            0x12,
            0xFF,
        ),
        J1939Filter::new_raw(0, 0, 0x3FFFF, 0x3FFFF, 0xFE, 0x0F),
    ];
    let payload = encode_filters(&filters).expect("two records give a payload");
    assert_eq!(payload.len(), 64);
    let first = [
        0x88, 0x77, 0x66, 0x55, 0x44, 0x33, 0x22, 0x11, // name
        0xFF, 0xFF, 0xFF, 0xFF, 0xFF, 0xFF, 0xFF, 0xFF, // name mask
        0x00, 0x21, 0x00, 0x00, // pgn
        0x00, 0xFF, 0x03, 0x00, // pgn mask
        0x12, 0xFF, // addr, addr mask
        0x00, 0x00, 0x00, 0x00, 0x00, 0x00, // padding
    ];
    assert_eq!(&payload[..32], &first);
    let second = [
        0x00, 0x00, 0x00, 0x00, 0x00, 0x00, 0x00, 0x00, // name
        0x00, 0x00, 0x00, 0x00, 0x00, 0x00, 0x00, 0x00, // name mask
        0xFF, 0xFF, 0x03, 0x00, // pgn
        0xFF, 0xFF, 0x03, 0x00, // pgn mask
        0xFE, 0x0F, // addr, addr mask
        0x00, 0x00, 0x00, 0x00, 0x00, 0x00, // padding
    ];
    assert_eq!(&payload[32..], &second);
}
