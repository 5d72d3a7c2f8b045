use j1939::protocol::{Addr, Name, Pgn};

#[test]
fn test_create_pgn_from_parts() {
    let pgn = Pgn::new(true, 0xF0, 0x04);
    assert!(pgn.data_page());
    assert_eq!(pgn.pdu_format(), 0xF0);
    assert_eq!(pgn.pdu_specific(), 0x04);
    assert_eq!(Into::<u32>::into(pgn), 0x01F004);
}

#[test]
fn test_create_pgn_from_u32() {
    let pgn = Pgn::from(0x01F004);
    assert!(pgn.data_page());
    assert_eq!(pgn.pdu_format(), 0xF0);
    assert_eq!(pgn.pdu_specific(), 0x04);
}

#[test]
fn test_create_name_from_raw() {
    let name = Name::from(0x9704033501000004);
    assert!(name.arbitrary_address_capable());
    assert_eq!(name.industry_group(), 1);
    assert_eq!(name.vehicle_system_instance(), 7);
    assert_eq!(name.vehicle_system(), 2);
    assert_eq!(name.function(), 3);
    assert_eq!(name.function_instance(), 6);
    assert_eq!(name.manufacturer_code(), 8);
    assert_eq!(name.ecu_instance(), 5);
    assert_eq!(name.identity_number(), 4);
}

#[test]
fn access_arbitray_address_capable() {
    let mut name = Name::from(0x9704033501000004);
    assert!(name.arbitrary_address_capable());
    name.set_arbitrary_address_capable(false);
    assert!(!name.arbitrary_address_capable());
}

#[test]
fn access_industry_group() {
    let mut name = Name::from(0x9704033501000004);
    assert_eq!(name.industry_group(), 1);
    name.set_industry_group(0);
    assert_eq!(name.industry_group(), 0);
    name.set_industry_group(7);
    assert_eq!(name.industry_group(), 7);
    name.set_industry_group(1);
    assert_eq!(u64::from(name), 0x9704033501000004);
}

#[test]
fn access_vehicle_system_instance() {
    let mut name = Name::from(0x9704033501000004);
    assert_eq!(name.vehicle_system_instance(), 7);
    name.set_vehicle_system_instance(0x0F);
    assert_eq!(name.vehicle_system_instance(), 0x0F);
    name.set_vehicle_system_instance(0);
    assert_eq!(name.vehicle_system_instance(), 0);
    name.set_vehicle_system_instance(7);
    assert_eq!(u64::from(name), 0x9704033501000004);
}

#[test]
fn access_vehicle_system() {
    let mut name = Name::from(0x9704033501000004);
    assert_eq!(name.vehicle_system(), 2);
    name.set_vehicle_system(0x7F);
    assert_eq!(name.vehicle_system(), 0x7F);
    name.set_vehicle_system(0);
    assert_eq!(name.vehicle_system(), 0);
    name.set_vehicle_system(2);
    assert_eq!(u64::from(name), 0x9704033501000004);
}

#[test]
fn access_function() {
    let mut name = Name::from(0x9704033501000004);
    assert_eq!(name.function(), 3);
    name.set_function(0xFF);
    assert_eq!(name.function(), 0xFF);
    name.set_function(0);
    assert_eq!(name.function(), 0);
    name.set_function(3);
    assert_eq!(u64::from(name), 0x9704033501000004);
}

#[test]
fn access_function_instance() {
    let mut name = Name::from(0x9704033501000004);
    assert_eq!(name.function_instance(), 6);
    name.set_function_instance(0x1F);
    assert_eq!(name.function_instance(), 0x1F);
    name.set_function_instance(0);
    assert_eq!(name.function_instance(), 0);
    name.set_function_instance(6);
    assert_eq!(u64::from(name), 0x9704033501000004);
}

#[test]
fn access_ecu_instance() {
    let mut name = Name::from(0x9704033501000004);
    assert_eq!(name.ecu_instance(), 5);
    name.set_ecu_instance(0x07);
    assert_eq!(name.ecu_instance(), 0x07);
    name.set_ecu_instance(0);
    assert_eq!(name.ecu_instance(), 0);
    name.set_ecu_instance(5);
    assert_eq!(u64::from(name), 0x9704033501000004);
}

#[test]
fn access_manufacturer_code() {
    let mut name = Name::from(0x9704033501000004);
    assert_eq!(name.manufacturer_code(), 8);
    name.set_manufacturer_code(0x07FF);
    assert_eq!(name.manufacturer_code(), 0x07FF);
    name.set_manufacturer_code(0);
    assert_eq!(name.manufacturer_code(), 0);
    name.set_manufacturer_code(8);
    assert_eq!(u64::from(name), 0x9704033501000004);
}

#[test]
fn access_identity_number() {
    let mut name = Name::from(0x9704033501000004);
    assert_eq!(name.identity_number(), 4);
    name.set_identity_number(0x001FFFFF);
    assert_eq!(name.identity_number(), 0x001FFFFF);
    name.set_identity_number(0);
    assert_eq!(name.identity_number(), 0);
    name.set_identity_number(4);
    assert_eq!(u64::from(name), 0x9704033501000004);
}

#[test]
fn pgn_wire_form_zeroes_pdu_specific_only_for_pdu1() {
    // PDU-format byte 0xEF = 239 is still PDU1: the PDU-specific byte drops.
    let pdu1 = Pgn::from(0x0EF12);
    assert!(pdu1.is_pdu1());
    assert!(!pdu1.is_pdu2());
    assert_eq!(u32::from(pdu1), 0x0EF00);
    // PDU-format byte 0xF0 = 240 is the first PDU2 value: unchanged.
    let pdu2 = Pgn::from(0x0F012);
    assert!(pdu2.is_pdu2());
    assert!(!pdu2.is_pdu1());
    assert_eq!(u32::from(pdu2), 0x0F012);
    // The data-page bit survives the PDU1 masking.
    let paged = Pgn::from(0x2EF12);
    assert_eq!(u32::from(paged), 0x2EF00);
}

#[test]
fn pgn_from_truncates_to_18_bits() {
    let pgn = Pgn::from(0xFFFF_FFFF);
    assert_eq!(u32::from(pgn), 0x3FFFF);
    assert_eq!(pgn.pdu_format(), 0xFF);
    assert_eq!(pgn.pdu_specific(), 0xFF);
    assert!(pgn.data_page());
    // The "no PGN" sentinel lies just above the 18-bit range.
    assert_eq!(Pgn::from(0x40000), Pgn::from(0));
}

#[test]
fn pgn_new_composes_each_field() {
    let pgn = Pgn::new(false, 0x00, 0xFF);
    assert!(!pgn.data_page());
    assert_eq!(pgn.pdu_format(), 0x00);
    assert_eq!(pgn.pdu_specific(), 0xFF);
    assert_eq!(u32::from(pgn), 0x000000);
    let pgn = Pgn::new(true, 0xFF, 0x00);
    assert!(pgn.data_page());
    assert_eq!(pgn.pdu_format(), 0xFF);
    assert_eq!(pgn.pdu_specific(), 0x00);
    assert_eq!(u32::from(pgn), 0x01FF00);
}

#[test]
fn pgn_setters_leave_other_fields_alone() {
    let mut pgn = Pgn::from(0x01F004);
    pgn.set_pdu_specific(0x7B);
    assert!(pgn.data_page());
    assert_eq!(pgn.pdu_format(), 0xF0);
    assert_eq!(pgn.pdu_specific(), 0x7B);
    pgn.set_pdu_format(0x12);
    assert!(pgn.data_page());
    assert_eq!(pgn.pdu_format(), 0x12);
    assert_eq!(pgn.pdu_specific(), 0x7B);
    pgn.set_data_page(false);
    assert!(!pgn.data_page());
    assert_eq!(pgn.pdu_format(), 0x12);
    assert_eq!(pgn.pdu_specific(), 0x7B);
}

#[test]
fn pgn_le_byte_round_trip() {
    let pgn = Pgn::from(0x01F004);
    let bytes = pgn.to_le_bytes();
    assert_eq!(bytes, [0x04, 0xF0, 0x01]);
    assert_eq!(Pgn::from_le_bytes(&bytes), pgn);
    // Decoding truncates bits beyond the 18-bit range.
    assert_eq!(Pgn::from_le_bytes(&[0xFF, 0xFF, 0xFF]), Pgn::from(0x3FFFF));
}

#[test]
fn addr_conversions_are_identity() {
    let addr = Addr::from(0x42);
    assert_eq!(u8::from(addr), 0x42);
    assert_eq!(Addr::from(j1939::protocol::NO_ADDR_RAW), Addr::from(0xFF));
    assert_eq!(u8::from(Addr::from(j1939::protocol::IDLE_ADDR_RAW)), 0xFE);
}

#[test]
fn name_le_byte_form() {
    let name = Name::from(0x9704033501000004);
    assert_eq!(
        name.to_le_bytes(),
        [0x04, 0x00, 0x00, 0x01, 0x35, 0x03, 0x04, 0x97]
    );
    let zero = Name::default();
    assert_eq!(u64::from(zero), 0);
    assert_eq!(zero.to_le_bytes(), [0; 8]);
}

#[test]
fn name_setters_truncate_to_field_width() {
    let mut name = Name::from(0);
    name.set_industry_group(0xFF);
    assert_eq!(name.industry_group(), 0x7);
    name.set_vehicle_system_instance(0xFF);
    assert_eq!(name.vehicle_system_instance(), 0xF);
    name.set_vehicle_system(0xFF);
    assert_eq!(name.vehicle_system(), 0x7F);
    name.set_function_instance(0xFF);
    assert_eq!(name.function_instance(), 0x1F);
    name.set_ecu_instance(0xFF);
    assert_eq!(name.ecu_instance(), 0x7);
    name.set_manufacturer_code(0xFFFF);
    assert_eq!(name.manufacturer_code(), 0x7FF);
    name.set_identity_number(0xFFFF_FFFF);
    assert_eq!(name.identity_number(), 0x1F_FFFF);
    // The reserved bit 48 stays clear through all of the writes above.
    assert_eq!((u64::from(name) >> 48) & 1, 0);
}
