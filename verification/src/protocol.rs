//! The three J1939 identifier types: the Parameter Group Number (`Pgn`), the
//! 8-bit control-function address (`Addr`), and the 64-bit NAME (`Name`).
//!
//! All three are plain bit-packed values.  Every accessor and mutator is
//! specified by a spec function over the raw integer, and the independence of
//! the sub-fields is stated and proved as public lemmas.
use vstd::bytes::{spec_u32_to_le_bytes, spec_u64_to_le_bytes, u32_to_le_bytes, u64_to_le_bytes};
use vstd::prelude::*;

verus! {

/// Largest valid Parameter Group Number: a PGN is an 18-bit value.
pub const PGN_MAX: u32 = 0x3FFFF;

/// Mask that keeps the PDU-format byte and the data-page bit of a PGN and
/// drops the PDU-specific byte; this is the wire form of a PDU1 PGN.
pub const PGN_PDU1_MAX: u32 = 0x3FF00;

/// Raw value that marks the absence of a PGN in a socket address.
pub const NO_PGN_RAW: u32 = 0x40000;

/// Address that marks "no address"; also the broadcast destination.
pub const NO_ADDR_RAW: u8 = 0xFF;

/// Address of a control function that has not yet claimed an address.
pub const IDLE_ADDR_RAW: u8 = 0xFE;

/// NAME value that marks the absence of a NAME.
pub const NO_NAME_RAW: u64 = 0;

/// The PGN Request parameter group.
pub const PGN_REQUEST_RAW: u32 = 0x0EA00;

/// The Address Claimed parameter group.
pub const PGN_ADDRESS_CLAIMED_RAW: u32 = 0x0EE00;

/// The Commanded Address parameter group.
pub const PGN_ADDRESS_COMMANDED_RAW: u32 = 0x0FED8;

// ===== PGN bit layout =====
//
// bits 0..8   PDU-specific
// bits 8..16  PDU format
// bit  16     data page
// bit  17     reserved

/// The data-page bit (bit 16) of a raw PGN.
pub open spec fn pgn_data_page(p: u32) -> bool {
    (p >> 16) & 1 == 1
}

/// The PDU-format byte (bits 8..16) of a raw PGN.
pub open spec fn pgn_pdu_format(p: u32) -> u32 {
    (p >> 8) & 0xFF
}

/// The PDU-specific byte (bits 0..8) of a raw PGN.
pub open spec fn pgn_pdu_specific(p: u32) -> u32 {
    p & 0xFF
}

/// A PGN is in PDU1 format exactly when its PDU-format byte is at most 239.
pub open spec fn pgn_is_pdu1(p: u32) -> bool {
    pgn_pdu_format(p) <= 239
}

/// The integer form used on the wire: a PDU1 PGN has its PDU-specific byte
/// zeroed, because the destination address travels separately in the socket
/// address; a PDU2 PGN is unchanged.
pub open spec fn pgn_wire(p: u32) -> u32 {
    if pgn_is_pdu1(p) {
        p & 0x3FF00
    } else {
        p
    }
}

/// The raw PGN with the data-page bit replaced.
pub open spec fn pgn_with_data_page(p: u32, v: bool) -> u32 {
    if v {
        p | 0x10000
    } else {
        p & !0x10000u32
    }
}

/// The raw PGN with the PDU-format byte replaced.
pub open spec fn pgn_with_pdu_format(p: u32, v: u32) -> u32 {
    (p & !0xFF00u32) | ((v & 0xFF) << 8)
}

/// The raw PGN with the PDU-specific byte replaced.
pub open spec fn pgn_with_pdu_specific(p: u32, v: u32) -> u32 {
    (p & !0xFFu32) | (v & 0xFF)
}

/// Bounds of the PGN field operations: every accessor stays within its
/// field's width and every mutator keeps the value inside 18 bits.
proof fn lemma_pgn_masks(p: u32, v: u32)
    by (bit_vector)
    ensures
        p & 0x3FFFF <= 0x3FFFF,
        p & 0x3FF00 <= 0x3FFFF,
        (p >> 8) & 0xFF <= 0xFF,
        p & 0xFF <= 0xFF,
        p <= 0x3FFFF ==> (p | 0x10000) <= 0x3FFFF,
        p <= 0x3FFFF ==> (p & !0x10000u32) <= 0x3FFFF,
        p <= 0x3FFFF ==> ((p & !0xFF00u32) | ((v & 0xFF) << 8)) <= 0x3FFFF,
        p <= 0x3FFFF ==> ((p & !0xFFu32) | (v & 0xFF)) <= 0x3FFFF,
{
}

/// Composing a PGN from its three parts and reading the parts back yields
/// exactly the parts that were put in.
proof fn lemma_pgn_compose(f: u32, s: u32)
    by (bit_vector)
    requires
        f <= 0xFF,
        s <= 0xFF,
    ensures
        0u32 & 0x3FFFF == 0u32,
        pgn_data_page(pgn_with_pdu_specific(pgn_with_pdu_format(pgn_with_data_page(0, true), f), s))
            == true,
        pgn_data_page(
            pgn_with_pdu_specific(pgn_with_pdu_format(pgn_with_data_page(0, false), f), s),
        ) == false,
        pgn_pdu_format(pgn_with_pdu_specific(pgn_with_pdu_format(pgn_with_data_page(0, true), f), s))
            == f,
        pgn_pdu_format(
            pgn_with_pdu_specific(pgn_with_pdu_format(pgn_with_data_page(0, false), f), s),
        ) == f,
        pgn_pdu_specific(
            pgn_with_pdu_specific(pgn_with_pdu_format(pgn_with_data_page(0, true), f), s),
        ) == s,
        pgn_pdu_specific(
            pgn_with_pdu_specific(pgn_with_pdu_format(pgn_with_data_page(0, false), f), s),
        ) == s,
{
}

/// For every 18-bit value `p`, the wire form of the PGN built from `p` is `p`
/// with the PDU-specific byte zeroed when the PDU-format byte is at most 239,
/// and `p` unchanged otherwise.
pub proof fn lemma_pgn_wire_form(p: u32)
    by (bit_vector)
    requires
        p <= 0x3FFFF,
    ensures
        pgn_pdu_format(p) <= 239 ==> pgn_wire(p & 0x3FFFF) == p & !0xFFu32,
        pgn_pdu_format(p) > 239 ==> pgn_wire(p & 0x3FFFF) == p,
{
}

/// Parameter group number defined in "SAE J1939/21 - Data Link Layer".
///
/// # Format
/// The kernel stack expects the following format for a PGN:
/// bits 0 - 7: Protocol Data Unit (PDU) specific,
/// bits 8 - 15: PDU format,
/// bit 16: data page,
/// bit 17: reserved.
///
/// # Note
/// The kernel stack ignores the PDU-specific part of a PGN in PDU1 format
/// (destination-specific message); the destination address is set separately
/// through the socket address.
#[derive(Debug, Copy, Clone, PartialEq, Eq, Structural, PartialOrd, Ord, Hash)]
pub struct Pgn(u32);

impl View for Pgn {
    type V = u32;

    closed spec fn view(&self) -> u32 {
        self.0
    }
}

impl Pgn {
    /// A PGN is always kept inside its 18-bit range.
    #[verifier::type_invariant]
    spec fn type_inv(self) -> bool {
        self.0 <= 0x3FFFF
    }

    /// Creates a new PGN from a `u32`.  The value is truncated to the 18 bits
    /// of a valid PGN.
    pub fn from(pgn: u32) -> (r: Self)
        ensures
            r@ == pgn & 0x3FFFF,
    {
        proof {
            lemma_pgn_masks(pgn, 0);
        }
        Pgn(pgn & 0x3FFFF)
    }

    /// Creates a new PGN from the data page, PDU format, and PDU specific
    /// parts; reading any part back through its accessor yields exactly the
    /// part that was given.
    pub fn new(data_page: bool, pdu_format: u8, pdu_specific: u8) -> (r: Self)
        ensures
            r@ == pgn_with_pdu_specific(
                pgn_with_pdu_format(pgn_with_data_page(0, data_page), pdu_format as u32),
                pdu_specific as u32,
            ),
            pgn_data_page(r@) == data_page,
            pgn_pdu_format(r@) == pdu_format as u32,
            pgn_pdu_specific(r@) == pdu_specific as u32,
    {
        let mut pgn = Pgn::from(0);
        pgn.set_data_page(data_page);
        pgn.set_pdu_format(pdu_format);
        pgn.set_pdu_specific(pdu_specific);
        proof {
            lemma_pgn_compose(pdu_format as u32, pdu_specific as u32);
        }
        pgn
    }

    /// Returns whether the data page bit is set.
    pub fn data_page(&self) -> (r: bool)
        ensures
            r == pgn_data_page(self@),
    {
        (self.0 >> 16) & 1 == 1
    }

    /// Sets the data page bit.
    pub fn set_data_page(&mut self, value: bool)
        ensures
            final(self)@ == pgn_with_data_page(old(self)@, value),
    {
        proof {
            use_type_invariant(&*self);
            lemma_pgn_masks(self.0, 0);
        }
        self.0 = if value {
            self.0 | 0x10000
        } else {
            self.0 & !0x10000u32
        };
    }

    /// Returns the PDU format part.
    pub fn pdu_format(&self) -> (r: u8)
        ensures
            r as u32 == pgn_pdu_format(self@),
    {
        proof {
            lemma_pgn_masks(self.0, 0);
        }
        ((self.0 >> 8) & 0xFF) as u8
    }

    /// Sets the PDU format.
    pub fn set_pdu_format(&mut self, value: u8)
        ensures
            final(self)@ == pgn_with_pdu_format(old(self)@, value as u32),
    {
        proof {
            use_type_invariant(&*self);
            lemma_pgn_masks(self.0, value as u32);
        }
        self.0 = (self.0 & !0xFF00u32) | (((value as u32) & 0xFF) << 8);
    }

    /// Returns the PDU specific part.
    pub fn pdu_specific(&self) -> (r: u8)
        ensures
            r as u32 == pgn_pdu_specific(self@),
    {
        proof {
            lemma_pgn_masks(self.0, 0);
        }
        (self.0 & 0xFF) as u8
    }

    /// Sets the PDU specific part.
    pub fn set_pdu_specific(&mut self, value: u8)
        ensures
            final(self)@ == pgn_with_pdu_specific(old(self)@, value as u32),
    {
        proof {
            use_type_invariant(&*self);
            lemma_pgn_masks(self.0, value as u32);
        }
        self.0 = (self.0 & !0xFFu32) | ((value as u32) & 0xFF);
    }

    /// Returns `true` if the PGN has the PDU1 format.
    pub fn is_pdu1(&self) -> (r: bool)
        ensures
            r == pgn_is_pdu1(self@),
    {
        self.pdu_format() <= 239
    }

    /// Returns `true` if the PGN has the PDU2 format.
    pub fn is_pdu2(&self) -> (r: bool)
        ensures
            r == !pgn_is_pdu1(self@),
    {
        self.pdu_format() >= 240
    }

    /// Returns the PGN as a 3 byte array in little endian byte order.
    pub fn to_le_bytes(&self) -> (r: [u8; 3])
        ensures
            r@ == spec_u32_to_le_bytes(self@).subrange(0, 3),
    {
        let v = u32_to_le_bytes(self.0);
        let r = [v[0], v[1], v[2]];
        proof {
            assert(r@ =~= spec_u32_to_le_bytes(self@).subrange(0, 3));
        }
        r
    }

    /// Create a PGN from a `u8` array (expects little endian byte order),
    /// zero-extended to 32 bits and truncated to the 18 bits of a valid PGN.
    pub fn from_le_bytes(buf: &[u8; 3]) -> (r: Self)
        ensures
            r@ == ((buf@[0] as u32) | ((buf@[1] as u32) << 8) | ((buf@[2] as u32) << 16))
                & 0x3FFFF,
    {
        let raw: u32 = (buf[0] as u32) | ((buf[1] as u32) << 8) | ((buf[2] as u32) << 16);
        Pgn::from(raw)
    }
}

impl core::convert::From<Pgn> for u32 {
    /// The integer form sent to the transport: the PDU-specific byte of a
    /// PDU1 PGN is dropped, since the destination address is carried
    /// separately in the socket address.
    fn from(pgn: Pgn) -> (r: u32) {
        proof {
            use_type_invariant(&pgn);
        }
        if pgn.is_pdu1() {
            pgn.0 & 0x3FF00
        } else {
            pgn.0
        }
    }
}

impl vstd::std_specs::convert::FromSpecImpl<Pgn> for u32 {
    open spec fn obeys_from_spec() -> bool {
        true
    }

    open spec fn from_spec(pgn: Pgn) -> u32 {
        pgn_wire(pgn@)
    }
}

/// Address of a control function on the J1939 network, defined in
/// "SAE J1939/21 - Data Link Layer".
#[derive(Debug, Copy, Clone, PartialEq, Eq, Structural, PartialOrd, Ord, Hash)]
pub struct Addr(pub u8);

impl View for Addr {
    type V = u8;

    open spec fn view(&self) -> u8 {
        self.0
    }
}

impl core::convert::From<Addr> for u8 {
    fn from(addr: Addr) -> (r: u8) {
        addr.0
    }
}

impl vstd::std_specs::convert::FromSpecImpl<Addr> for u8 {
    open spec fn obeys_from_spec() -> bool {
        true
    }

    open spec fn from_spec(addr: Addr) -> u8 {
        addr.0
    }
}

impl core::convert::From<u8> for Addr {
    fn from(value: u8) -> (r: Addr) {
        Addr(value)
    }
}

impl vstd::std_specs::convert::FromSpecImpl<u8> for Addr {
    open spec fn obeys_from_spec() -> bool {
        true
    }

    open spec fn from_spec(value: u8) -> Addr {
        Addr(value)
    }
}

// ===== NAME bit layout =====
//
// bits 0..21   identity number
// bits 21..32  manufacturer code
// bits 32..35  ECU instance
// bits 35..40  function instance
// bits 40..48  function
// bit  48      reserved
// bits 49..56  vehicle system
// bits 56..60  vehicle system instance
// bits 60..63  industry group
// bit  63      arbitrary address capable

/// The identity number (bits 0..21) of a raw NAME.
pub open spec fn name_identity_number(n: u64) -> u64 {
    n & 0x1FFFFF
}

/// The manufacturer code (bits 21..32) of a raw NAME.
pub open spec fn name_manufacturer_code(n: u64) -> u64 {
    (n >> 21) & 0x7FF
}

/// The ECU instance (bits 32..35) of a raw NAME.
pub open spec fn name_ecu_instance(n: u64) -> u64 {
    (n >> 32) & 0x7
}

/// The function instance (bits 35..40) of a raw NAME.
pub open spec fn name_function_instance(n: u64) -> u64 {
    (n >> 35) & 0x1F
}

/// The function (bits 40..48) of a raw NAME.
pub open spec fn name_function(n: u64) -> u64 {
    (n >> 40) & 0xFF
}

/// The reserved bit (bit 48) of a raw NAME.
pub open spec fn name_reserved_bit(n: u64) -> u64 {
    (n >> 48) & 1
}

/// The vehicle system (bits 49..56) of a raw NAME.
pub open spec fn name_vehicle_system(n: u64) -> u64 {
    (n >> 49) & 0x7F
}

/// The vehicle system instance (bits 56..60) of a raw NAME.
pub open spec fn name_vehicle_system_instance(n: u64) -> u64 {
    (n >> 56) & 0xF
}

/// The industry group (bits 60..63) of a raw NAME.
pub open spec fn name_industry_group(n: u64) -> u64 {
    (n >> 60) & 0x7
}

/// The arbitrary-address-capable bit (bit 63) of a raw NAME.
pub open spec fn name_arbitrary_address_capable(n: u64) -> bool {
    (n >> 63) & 1 == 1
}

/// The raw NAME with the identity number (bits 0..21) replaced by `v`,
/// truncated to 21 bits.
pub open spec fn name_with_identity_number(n: u64, v: u64) -> u64 {
    (n & !0x1FFFFFu64) | (v & 0x1FFFFF)
}

/// The raw NAME with the manufacturer code (bits 21..32) replaced by `v`,
/// truncated to 11 bits.
pub open spec fn name_with_manufacturer_code(n: u64, v: u64) -> u64 {
    (n & !(0x7FFu64 << 21)) | ((v & 0x7FF) << 21)
}

/// The raw NAME with the ECU instance (bits 32..35) replaced by `v`,
/// truncated to 3 bits.
pub open spec fn name_with_ecu_instance(n: u64, v: u64) -> u64 {
    (n & !(0x7u64 << 32)) | ((v & 0x7) << 32)
}

/// The raw NAME with the function instance (bits 35..40) replaced by `v`,
/// truncated to 5 bits.
pub open spec fn name_with_function_instance(n: u64, v: u64) -> u64 {
    (n & !(0x1Fu64 << 35)) | ((v & 0x1F) << 35)
}

/// The raw NAME with the function (bits 40..48) replaced by `v`, truncated
/// to 8 bits.
pub open spec fn name_with_function(n: u64, v: u64) -> u64 {
    (n & !(0xFFu64 << 40)) | ((v & 0xFF) << 40)
}

/// The raw NAME with the vehicle system (bits 49..56) replaced by `v`,
/// truncated to 7 bits.
pub open spec fn name_with_vehicle_system(n: u64, v: u64) -> u64 {
    (n & !(0x7Fu64 << 49)) | ((v & 0x7F) << 49)
}

/// The raw NAME with the vehicle system instance (bits 56..60) replaced by
/// `v`, truncated to 4 bits.
pub open spec fn name_with_vehicle_system_instance(n: u64, v: u64) -> u64 {
    (n & !(0xFu64 << 56)) | ((v & 0xF) << 56)
}

/// The raw NAME with the industry group (bits 60..63) replaced by `v`,
/// truncated to 3 bits.
pub open spec fn name_with_industry_group(n: u64, v: u64) -> u64 {
    (n & !(0x7u64 << 60)) | ((v & 0x7) << 60)
}

/// The raw NAME with the arbitrary-address-capable bit (bit 63) replaced.
pub open spec fn name_with_arbitrary_address_capable(n: u64, v: bool) -> u64 {
    if v {
        n | 0x8000000000000000u64
    } else {
        n & !0x8000000000000000u64
    }
}

/// Every NAME sub-field accessor stays within its sub-field's width.
proof fn lemma_name_field_bounds(n: u64)
    by (bit_vector)
    ensures
        n & 0x1FFFFF <= 0x1FFFFF,
        (n >> 21) & 0x7FF <= 0x7FF,
        (n >> 32) & 0x7 <= 0x7,
        (n >> 35) & 0x1F <= 0x1F,
        (n >> 40) & 0xFF <= 0xFF,
        (n >> 49) & 0x7F <= 0x7F,
        (n >> 56) & 0xF <= 0xF,
        (n >> 60) & 0x7 <= 0x7,
{
}

/// Writing the identity number touches only bits 0..21: reading it back
/// yields the value truncated to 21 bits, every other sub-field (the
/// reserved bit included) is unchanged, and writing back the old value
/// restores the whole 64-bit word.
pub proof fn lemma_name_set_identity_number(n: u64, v: u64)
    by (bit_vector)
    ensures
        name_identity_number(name_with_identity_number(n, v)) == v & 0x1FFFFF,
        name_manufacturer_code(name_with_identity_number(n, v)) == name_manufacturer_code(n),
        name_ecu_instance(name_with_identity_number(n, v)) == name_ecu_instance(n),
        name_function_instance(name_with_identity_number(n, v)) == name_function_instance(n),
        name_function(name_with_identity_number(n, v)) == name_function(n),
        name_reserved_bit(name_with_identity_number(n, v)) == name_reserved_bit(n),
        name_vehicle_system(name_with_identity_number(n, v)) == name_vehicle_system(n),
        name_vehicle_system_instance(name_with_identity_number(n, v))
            == name_vehicle_system_instance(n),
        name_industry_group(name_with_identity_number(n, v)) == name_industry_group(n),
        name_arbitrary_address_capable(name_with_identity_number(n, v))
            == name_arbitrary_address_capable(n),
        name_with_identity_number(n, name_identity_number(n)) == n,
{
}

/// Writing the manufacturer code touches only bits 21..32: reading it back
/// yields the value truncated to 11 bits, every other sub-field (the
/// reserved bit included) is unchanged, and writing back the old value
/// restores the whole 64-bit word.
pub proof fn lemma_name_set_manufacturer_code(n: u64, v: u64)
    by (bit_vector)
    ensures
        name_manufacturer_code(name_with_manufacturer_code(n, v)) == v & 0x7FF,
        name_identity_number(name_with_manufacturer_code(n, v)) == name_identity_number(n),
        name_ecu_instance(name_with_manufacturer_code(n, v)) == name_ecu_instance(n),
        name_function_instance(name_with_manufacturer_code(n, v)) == name_function_instance(n),
        name_function(name_with_manufacturer_code(n, v)) == name_function(n),
        name_reserved_bit(name_with_manufacturer_code(n, v)) == name_reserved_bit(n),
        name_vehicle_system(name_with_manufacturer_code(n, v)) == name_vehicle_system(n),
        name_vehicle_system_instance(name_with_manufacturer_code(n, v))
            == name_vehicle_system_instance(n),
        name_industry_group(name_with_manufacturer_code(n, v)) == name_industry_group(n),
        name_arbitrary_address_capable(name_with_manufacturer_code(n, v))
            == name_arbitrary_address_capable(n),
        name_with_manufacturer_code(n, name_manufacturer_code(n)) == n,
{
}

/// Writing the ECU instance touches only bits 32..35: reading it back yields
/// the value truncated to 3 bits, every other sub-field (the reserved bit
/// included) is unchanged, and writing back the old value restores the whole
/// 64-bit word.
pub proof fn lemma_name_set_ecu_instance(n: u64, v: u64)
    by (bit_vector)
    ensures
        name_ecu_instance(name_with_ecu_instance(n, v)) == v & 0x7,
        name_identity_number(name_with_ecu_instance(n, v)) == name_identity_number(n),
        name_manufacturer_code(name_with_ecu_instance(n, v)) == name_manufacturer_code(n),
        name_function_instance(name_with_ecu_instance(n, v)) == name_function_instance(n),
        name_function(name_with_ecu_instance(n, v)) == name_function(n),
        name_reserved_bit(name_with_ecu_instance(n, v)) == name_reserved_bit(n),
        name_vehicle_system(name_with_ecu_instance(n, v)) == name_vehicle_system(n),
        name_vehicle_system_instance(name_with_ecu_instance(n, v))
            == name_vehicle_system_instance(n),
        name_industry_group(name_with_ecu_instance(n, v)) == name_industry_group(n),
        name_arbitrary_address_capable(name_with_ecu_instance(n, v))
            == name_arbitrary_address_capable(n),
        name_with_ecu_instance(n, name_ecu_instance(n)) == n,
{
}

/// Writing the function instance touches only bits 35..40: reading it back
/// yields the value truncated to 5 bits, every other sub-field (the reserved
/// bit included) is unchanged, and writing back the old value restores the
/// whole 64-bit word.
pub proof fn lemma_name_set_function_instance(n: u64, v: u64)
    by (bit_vector)
    ensures
        name_function_instance(name_with_function_instance(n, v)) == v & 0x1F,
        name_identity_number(name_with_function_instance(n, v)) == name_identity_number(n),
        name_manufacturer_code(name_with_function_instance(n, v)) == name_manufacturer_code(n),
        name_ecu_instance(name_with_function_instance(n, v)) == name_ecu_instance(n),
        name_function(name_with_function_instance(n, v)) == name_function(n),
        name_reserved_bit(name_with_function_instance(n, v)) == name_reserved_bit(n),
        name_vehicle_system(name_with_function_instance(n, v)) == name_vehicle_system(n),
        name_vehicle_system_instance(name_with_function_instance(n, v))
            == name_vehicle_system_instance(n),
        name_industry_group(name_with_function_instance(n, v)) == name_industry_group(n),
        name_arbitrary_address_capable(name_with_function_instance(n, v))
            == name_arbitrary_address_capable(n),
        name_with_function_instance(n, name_function_instance(n)) == n,
{
}

/// Writing the function touches only bits 40..48: reading it back yields the
/// value truncated to 8 bits, every other sub-field (the reserved bit
/// included) is unchanged, and writing back the old value restores the whole
/// 64-bit word.
pub proof fn lemma_name_set_function(n: u64, v: u64)
    by (bit_vector)
    ensures
        name_function(name_with_function(n, v)) == v & 0xFF,
        name_identity_number(name_with_function(n, v)) == name_identity_number(n),
        name_manufacturer_code(name_with_function(n, v)) == name_manufacturer_code(n),
        name_ecu_instance(name_with_function(n, v)) == name_ecu_instance(n),
        name_function_instance(name_with_function(n, v)) == name_function_instance(n),
        name_reserved_bit(name_with_function(n, v)) == name_reserved_bit(n),
        name_vehicle_system(name_with_function(n, v)) == name_vehicle_system(n),
        name_vehicle_system_instance(name_with_function(n, v))
            == name_vehicle_system_instance(n),
        name_industry_group(name_with_function(n, v)) == name_industry_group(n),
        name_arbitrary_address_capable(name_with_function(n, v))
            == name_arbitrary_address_capable(n),
        name_with_function(n, name_function(n)) == n,
{
}

/// Writing the vehicle system touches only bits 49..56: reading it back
/// yields the value truncated to 7 bits, every other sub-field (the reserved
/// bit included) is unchanged, and writing back the old value restores the
/// whole 64-bit word.
pub proof fn lemma_name_set_vehicle_system(n: u64, v: u64)
    by (bit_vector)
    ensures
        name_vehicle_system(name_with_vehicle_system(n, v)) == v & 0x7F,
        name_identity_number(name_with_vehicle_system(n, v)) == name_identity_number(n),
        name_manufacturer_code(name_with_vehicle_system(n, v)) == name_manufacturer_code(n),
        name_ecu_instance(name_with_vehicle_system(n, v)) == name_ecu_instance(n),
        name_function_instance(name_with_vehicle_system(n, v)) == name_function_instance(n),
        name_function(name_with_vehicle_system(n, v)) == name_function(n),
        name_reserved_bit(name_with_vehicle_system(n, v)) == name_reserved_bit(n),
        name_vehicle_system_instance(name_with_vehicle_system(n, v))
            == name_vehicle_system_instance(n),
        name_industry_group(name_with_vehicle_system(n, v)) == name_industry_group(n),
        name_arbitrary_address_capable(name_with_vehicle_system(n, v))
            == name_arbitrary_address_capable(n),
        name_with_vehicle_system(n, name_vehicle_system(n)) == n,
{
}

/// Writing the vehicle system instance touches only bits 56..60: reading it
/// back yields the value truncated to 4 bits, every other sub-field (the
/// reserved bit included) is unchanged, and writing back the old value
/// restores the whole 64-bit word.
pub proof fn lemma_name_set_vehicle_system_instance(n: u64, v: u64)
    by (bit_vector)
    ensures
        name_vehicle_system_instance(name_with_vehicle_system_instance(n, v)) == v & 0xF,
        name_identity_number(name_with_vehicle_system_instance(n, v)) == name_identity_number(n),
        name_manufacturer_code(name_with_vehicle_system_instance(n, v))
            == name_manufacturer_code(n),
        name_ecu_instance(name_with_vehicle_system_instance(n, v)) == name_ecu_instance(n),
        name_function_instance(name_with_vehicle_system_instance(n, v))
            == name_function_instance(n),
        name_function(name_with_vehicle_system_instance(n, v)) == name_function(n),
        name_reserved_bit(name_with_vehicle_system_instance(n, v)) == name_reserved_bit(n),
        name_vehicle_system(name_with_vehicle_system_instance(n, v)) == name_vehicle_system(n),
        name_industry_group(name_with_vehicle_system_instance(n, v)) == name_industry_group(n),
        name_arbitrary_address_capable(name_with_vehicle_system_instance(n, v))
            == name_arbitrary_address_capable(n),
        name_with_vehicle_system_instance(n, name_vehicle_system_instance(n)) == n,
{
}

/// Writing the industry group touches only bits 60..63: reading it back
/// yields the value truncated to 3 bits, every other sub-field (the reserved
/// bit included) is unchanged, and writing back the old value restores the
/// whole 64-bit word.
pub proof fn lemma_name_set_industry_group(n: u64, v: u64)
    by (bit_vector)
    ensures
        name_industry_group(name_with_industry_group(n, v)) == v & 0x7,
        name_identity_number(name_with_industry_group(n, v)) == name_identity_number(n),
        name_manufacturer_code(name_with_industry_group(n, v)) == name_manufacturer_code(n),
        name_ecu_instance(name_with_industry_group(n, v)) == name_ecu_instance(n),
        name_function_instance(name_with_industry_group(n, v)) == name_function_instance(n),
        name_function(name_with_industry_group(n, v)) == name_function(n),
        name_reserved_bit(name_with_industry_group(n, v)) == name_reserved_bit(n),
        name_vehicle_system(name_with_industry_group(n, v)) == name_vehicle_system(n),
        name_vehicle_system_instance(name_with_industry_group(n, v))
            == name_vehicle_system_instance(n),
        name_arbitrary_address_capable(name_with_industry_group(n, v))
            == name_arbitrary_address_capable(n),
        name_with_industry_group(n, name_industry_group(n)) == n,
{
}

/// Writing the arbitrary-address-capable bit touches only bit 63: reading it
/// back yields the written value, every other sub-field (the reserved bit
/// included) is unchanged, and writing back the old value restores the whole
/// 64-bit word.
pub proof fn lemma_name_set_arbitrary_address_capable(n: u64)
    by (bit_vector)
    ensures
        name_arbitrary_address_capable(name_with_arbitrary_address_capable(n, true)) == true,
        name_arbitrary_address_capable(name_with_arbitrary_address_capable(n, false)) == false,
        name_identity_number(name_with_arbitrary_address_capable(n, true))
            == name_identity_number(n),
        name_identity_number(name_with_arbitrary_address_capable(n, false))
            == name_identity_number(n),
        name_manufacturer_code(name_with_arbitrary_address_capable(n, true))
            == name_manufacturer_code(n),
        name_manufacturer_code(name_with_arbitrary_address_capable(n, false))
            == name_manufacturer_code(n),
        name_ecu_instance(name_with_arbitrary_address_capable(n, true)) == name_ecu_instance(n),
        name_ecu_instance(name_with_arbitrary_address_capable(n, false)) == name_ecu_instance(n),
        name_function_instance(name_with_arbitrary_address_capable(n, true))
            == name_function_instance(n),
        name_function_instance(name_with_arbitrary_address_capable(n, false))
            == name_function_instance(n),
        name_function(name_with_arbitrary_address_capable(n, true)) == name_function(n),
        name_function(name_with_arbitrary_address_capable(n, false)) == name_function(n),
        name_reserved_bit(name_with_arbitrary_address_capable(n, true)) == name_reserved_bit(n),
        name_reserved_bit(name_with_arbitrary_address_capable(n, false)) == name_reserved_bit(n),
        name_vehicle_system(name_with_arbitrary_address_capable(n, true))
            == name_vehicle_system(n),
        name_vehicle_system(name_with_arbitrary_address_capable(n, false))
            == name_vehicle_system(n),
        name_vehicle_system_instance(name_with_arbitrary_address_capable(n, true))
            == name_vehicle_system_instance(n),
        name_vehicle_system_instance(name_with_arbitrary_address_capable(n, false))
            == name_vehicle_system_instance(n),
        name_industry_group(name_with_arbitrary_address_capable(n, true))
            == name_industry_group(n),
        name_industry_group(name_with_arbitrary_address_capable(n, false))
            == name_industry_group(n),
        name_with_arbitrary_address_capable(n, name_arbitrary_address_capable(n)) == n,
{
}

/// J1939 NAME identifier defined in "SAE J1939/81 - Network Management".
///
/// The J1939 NAME is a 64-bit id to uniquely identify a control function
/// (ECU) on the network.  The NAME consists of:
///
/// * Bits 0-20: Identity number
/// * Bits 21-31: Manufacturer code
/// * Bits 32-34: ECU instance
/// * Bits 35-39: Function instance
/// * Bits 40-47: Function
/// * Bit 48: Reserved
/// * Bits 49-55: Vehicle system
/// * Bits 56-59: Vehicle system instance
/// * Bits 60-62: Industry group
/// * Bit 63: Arbitrary address capable
#[derive(Debug, Copy, Clone, PartialEq, Eq, Structural, PartialOrd, Ord, Hash)]
pub struct Name(pub u64);

impl View for Name {
    type V = u64;

    open spec fn view(&self) -> u64 {
        self.0
    }
}

impl Name {
    /// Return the NAME as a byte array in little-endian byte order.
    pub fn to_le_bytes(&self) -> (r: [u8; 8])
        ensures
            r@ == spec_u64_to_le_bytes(self@),
    {
        let v = u64_to_le_bytes(self.0);
        let r = [v[0], v[1], v[2], v[3], v[4], v[5], v[6], v[7]];
        proof {
            assert(r@ =~= spec_u64_to_le_bytes(self@));
        }
        r
    }

    /// Return whether the control function is arbitrary address capable.
    /// If true then the control function supports dynamic addressing.
    pub fn arbitrary_address_capable(&self) -> (r: bool)
        ensures
            r == name_arbitrary_address_capable(self@),
    {
        (self.0 >> 63) & 1 == 1
    }

    /// Sets the arbitrary address capable bit.
    pub fn set_arbitrary_address_capable(&mut self, val: bool)
        ensures
            final(self)@ == name_with_arbitrary_address_capable(old(self)@, val),
    {
        self.0 = if val {
            self.0 | 0x8000000000000000u64
        } else {
            self.0 & !0x8000000000000000u64
        };
    }

    /// Returns the industry group of the control function.
    pub fn industry_group(&self) -> (r: u8)
        ensures
            r as u64 == name_industry_group(self@),
    {
        proof {
            lemma_name_field_bounds(self.0);
        }
        ((self.0 >> 60) & 0x7) as u8
    }

    /// Sets the industry group field.  The value is truncated to the allowed
    /// range (3 bit).
    pub fn set_industry_group(&mut self, value: u8)
        ensures
            final(self)@ == name_with_industry_group(old(self)@, value as u64),
    {
        self.0 = (self.0 & !(0x7u64 << 60)) | (((value as u64) & 0x7) << 60);
    }

    /// Returns the vehicle system instance of the control function.
    pub fn vehicle_system_instance(&self) -> (r: u8)
        ensures
            r as u64 == name_vehicle_system_instance(self@),
    {
        proof {
            lemma_name_field_bounds(self.0);
        }
        ((self.0 >> 56) & 0xF) as u8
    }

    /// Sets the vehicle system instance field.  The value is truncated to
    /// the allowed range (4 bit).
    pub fn set_vehicle_system_instance(&mut self, value: u8)
        ensures
            final(self)@ == name_with_vehicle_system_instance(old(self)@, value as u64),
    {
        self.0 = (self.0 & !(0xFu64 << 56)) | (((value as u64) & 0xF) << 56);
    }

    /// Returns the vehicle system of the control function.
    pub fn vehicle_system(&self) -> (r: u8)
        ensures
            r as u64 == name_vehicle_system(self@),
    {
        proof {
            lemma_name_field_bounds(self.0);
        }
        ((self.0 >> 49) & 0x7F) as u8
    }

    /// Sets the vehicle system field.  The value is truncated to the allowed
    /// range (7 bit).
    pub fn set_vehicle_system(&mut self, value: u8)
        ensures
            final(self)@ == name_with_vehicle_system(old(self)@, value as u64),
    {
        self.0 = (self.0 & !(0x7Fu64 << 49)) | (((value as u64) & 0x7F) << 49);
    }

    /// Returns the function of the control function.
    pub fn function(&self) -> (r: u8)
        ensures
            r as u64 == name_function(self@),
    {
        proof {
            lemma_name_field_bounds(self.0);
        }
        ((self.0 >> 40) & 0xFF) as u8
    }

    /// Sets the function field.  The value is truncated to the allowed range
    /// (8 bit).
    pub fn set_function(&mut self, value: u8)
        ensures
            final(self)@ == name_with_function(old(self)@, value as u64),
    {
        self.0 = (self.0 & !(0xFFu64 << 40)) | (((value as u64) & 0xFF) << 40);
    }

    /// Returns the function instance of the control function.
    pub fn function_instance(&self) -> (r: u8)
        ensures
            r as u64 == name_function_instance(self@),
    {
        proof {
            lemma_name_field_bounds(self.0);
        }
        ((self.0 >> 35) & 0x1F) as u8
    }

    /// Sets the function instance field.  The value is truncated to the
    /// allowed range (5 bit).
    pub fn set_function_instance(&mut self, value: u8)
        ensures
            final(self)@ == name_with_function_instance(old(self)@, value as u64),
    {
        self.0 = (self.0 & !(0x1Fu64 << 35)) | (((value as u64) & 0x1F) << 35);
    }

    /// Returns the ECU instance of the control function.
    pub fn ecu_instance(&self) -> (r: u8)
        ensures
            r as u64 == name_ecu_instance(self@),
    {
        proof {
            lemma_name_field_bounds(self.0);
        }
        ((self.0 >> 32) & 0x7) as u8
    }

    /// Sets the ECU instance field.  The value is truncated to the allowed
    /// range (3 bit).
    pub fn set_ecu_instance(&mut self, value: u8)
        ensures
            final(self)@ == name_with_ecu_instance(old(self)@, value as u64),
    {
        self.0 = (self.0 & !(0x7u64 << 32)) | (((value as u64) & 0x7) << 32);
    }

    /// Returns the manufacturer code of the control function.
    pub fn manufacturer_code(&self) -> (r: u16)
        ensures
            r as u64 == name_manufacturer_code(self@),
    {
        proof {
            lemma_name_field_bounds(self.0);
        }
        ((self.0 >> 21) & 0x7FF) as u16
    }

    /// Sets the manufacturer code field.  The value is truncated to the
    /// allowed range (11 bit).
    pub fn set_manufacturer_code(&mut self, value: u16)
        ensures
            final(self)@ == name_with_manufacturer_code(old(self)@, value as u64),
    {
        self.0 = (self.0 & !(0x7FFu64 << 21)) | (((value as u64) & 0x7FF) << 21);
    }

    /// Returns the identity number of the control function.
    pub fn identity_number(&self) -> (r: u32)
        ensures
            r as u64 == name_identity_number(self@),
    {
        proof {
            lemma_name_field_bounds(self.0);
        }
        (self.0 & 0x1FFFFF) as u32
    }

    /// Sets the identity number field.  The value is truncated to the
    /// allowed range (21 bit).
    pub fn set_identity_number(&mut self, value: u32)
        ensures
            final(self)@ == name_with_identity_number(old(self)@, value as u64),
    {
        self.0 = (self.0 & !0x1FFFFFu64) | ((value as u64) & 0x1FFFFF);
    }
}

impl core::convert::From<u64> for Name {
    fn from(value: u64) -> (r: Name) {
        Name(value)
    }
}

impl vstd::std_specs::convert::FromSpecImpl<u64> for Name {
    open spec fn obeys_from_spec() -> bool {
        true
    }

    open spec fn from_spec(value: u64) -> Name {
        Name(value)
    }
}

impl core::convert::From<Name> for u64 {
    fn from(name: Name) -> (r: u64) {
        name.0
    }
}

impl vstd::std_specs::convert::FromSpecImpl<Name> for u64 {
    open spec fn obeys_from_spec() -> bool {
        true
    }

    open spec fn from_spec(name: Name) -> u64 {
        name.0
    }
}

impl core::default::Default for Name {
    /// The default NAME is the all-zero "no NAME" value.
    fn default() -> (r: Name)
        ensures
            r@ == 0u64,
    {
        Name(0)
    }
}

} // verus!
