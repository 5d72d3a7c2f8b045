//! Receive filters for a J1939 socket.
//!
//! A filter record pairs each of the three identifier kinds (NAME, PGN,
//! address) with a mask; an all-ones mask on a sub-field demands an exact
//! match, a zero mask means "don't care".  The byte-level encoding of a
//! filter list, as the kernel's filter option expects it, is specified and
//! verified here; installing the list is the socket layer's job.
use crate::protocol::{pgn_wire, Addr, Name, Pgn};
use vstd::bytes::{spec_u32_to_le_bytes, spec_u64_to_le_bytes, u32_to_le_bytes, u64_to_le_bytes};
use vstd::prelude::*;

verus! {

/// Represents a receive filter for a J1939 socket.
///
/// The fields mirror the kernel's filter record: a NAME with its mask, a
/// PGN with its mask, and an address with its mask.
#[derive(Debug, Copy, Clone, Hash, PartialEq, Eq, Structural)]
pub struct J1939Filter {
    /// NAME to match.
    pub name: u64,
    /// Mask over the NAME bits; all ones demands an exact match.
    pub name_mask: u64,
    /// PGN to match, in its 18-bit wire form.
    pub pgn: u32,
    /// Mask over the PGN bits, kept within the 18-bit range.
    pub pgn_mask: u32,
    /// Source address to match.
    pub addr: u8,
    /// Mask over the address bits; all ones demands an exact match.
    pub addr_mask: u8,
}

impl J1939Filter {
    /// Creates a new filter from partial filters.
    pub fn new(name_filter: NameFilter, pgn_filter: PgnFilter, addr_filter: AddrFilter) -> (r:
        Self)
        ensures
            r.name == name_filter.name,
            r.name_mask == name_filter.mask,
            r.pgn == pgn_filter.pgn,
            r.pgn_mask == pgn_filter.mask,
            r.addr == addr_filter.addr,
            r.addr_mask == addr_filter.mask,
    {
        J1939Filter {
            name: name_filter.name,
            name_mask: name_filter.mask,
            pgn: pgn_filter.pgn,
            pgn_mask: pgn_filter.mask,
            addr: addr_filter.addr,
            addr_mask: addr_filter.mask,
        }
    }

    /// Creates a new filter from unchecked raw values; the PGN and its mask
    /// are truncated to the 18 bits of a valid PGN.
    pub fn new_raw(name: u64, name_mask: u64, pgn: u32, pgn_mask: u32, addr: u8, addr_mask: u8) -> (
        r: Self)
        ensures
            r.name == name,
            r.name_mask == name_mask,
            r.pgn == pgn & 0x3FFFF,
            r.pgn_mask == pgn_mask & 0x3FFFF,
            r.addr == addr,
            r.addr_mask == addr_mask,
    {
        J1939Filter {
            name,
            name_mask,
            pgn: pgn & 0x3FFFF,
            pgn_mask: pgn_mask & 0x3FFFF,
            addr,
            addr_mask,
        }
    }
}

/// A mask for the J1939 NAME filter.
#[derive(Debug, Clone, Copy)]
pub enum NameFilterMask {
    /// Partial filter bitmask
    Partial(u64),
    /// Full NAME matching
    Full,
}

/// The bit pattern a NAME filter mask encodes to: all sixty-four bits for
/// full matching, the given bits for a partial mask.
pub open spec fn name_filter_mask_bits(mask: NameFilterMask) -> u64 {
    match mask {
        NameFilterMask::Full => 0xFFFFFFFFFFFFFFFF,
        NameFilterMask::Partial(m) => m,
    }
}

impl core::convert::From<NameFilterMask> for u64 {
    fn from(mask: NameFilterMask) -> (r: u64) {
        match mask {
            NameFilterMask::Full => 0xFFFFFFFFFFFFFFFF,
            NameFilterMask::Partial(m) => m,
        }
    }
}

impl vstd::std_specs::convert::FromSpecImpl<NameFilterMask> for u64 {
    open spec fn obeys_from_spec() -> bool {
        true
    }

    open spec fn from_spec(mask: NameFilterMask) -> u64 {
        name_filter_mask_bits(mask)
    }
}

/// A J1939 NAME filter.
#[derive(Debug, Copy, Clone, Hash, PartialEq, Eq, Structural)]
pub struct NameFilter {
    /// NAME to match.
    pub name: u64,
    /// Mask over the NAME bits.
    pub mask: u64,
}

impl NameFilter {
    /// Create a new [`NameFilter`].
    pub fn new(name: Name, mask: NameFilterMask) -> (r: Self)
        ensures
            r.name == name@,
            r.mask == name_filter_mask_bits(mask),
    {
        NameFilter { name: name.into(), mask: mask.into() }
    }
}

impl core::convert::From<NameFilter> for J1939Filter {
    /// A NAME-only filter: the PGN and address parts are zeroed, so they
    /// match anything.
    fn from(name_filter: NameFilter) -> (r: J1939Filter) {
        J1939Filter {
            name: name_filter.name,
            name_mask: name_filter.mask,
            pgn: 0,
            pgn_mask: 0,
            addr: 0,
            addr_mask: 0,
        }
    }
}

impl vstd::std_specs::convert::FromSpecImpl<NameFilter> for J1939Filter {
    open spec fn obeys_from_spec() -> bool {
        true
    }

    open spec fn from_spec(name_filter: NameFilter) -> J1939Filter {
        J1939Filter {
            name: name_filter.name,
            name_mask: name_filter.mask,
            pgn: 0,
            pgn_mask: 0,
            addr: 0,
            addr_mask: 0,
        }
    }
}

/// A mask for a J1939 PGN filter.
#[derive(Debug, Clone, Copy)]
pub enum PgnFilterMask {
    /// Match bitmask corresponding to PDU1 format
    Pdu1,
    /// Partial filter bitmask
    Partial(u32),
    /// Full PGN matching
    Full,
}

/// The bit pattern a PGN filter mask encodes to: the fixed PDU1 pattern that
/// ignores the destination-specific low byte, the protocol's 18-bit all-ones
/// value for full matching (a PGN is logically 18 bits, so a native-width
/// all-ones would be wrong), or the given bits truncated to 18 bits.
pub open spec fn pgn_filter_mask_bits(mask: PgnFilterMask) -> u32 {
    match mask {
        PgnFilterMask::Pdu1 => 0x3FF00,
        PgnFilterMask::Partial(m) => m & 0x3FFFF,
        PgnFilterMask::Full => 0x3FFFF,
    }
}

impl core::convert::From<PgnFilterMask> for u32 {
    fn from(mask: PgnFilterMask) -> (r: u32) {
        match mask {
            PgnFilterMask::Pdu1 => 0x3FF00,
            PgnFilterMask::Partial(m) => m & 0x3FFFF,
            PgnFilterMask::Full => 0x3FFFF,
        }
    }
}

impl vstd::std_specs::convert::FromSpecImpl<PgnFilterMask> for u32 {
    open spec fn obeys_from_spec() -> bool {
        true
    }

    open spec fn from_spec(mask: PgnFilterMask) -> u32 {
        pgn_filter_mask_bits(mask)
    }
}

/// A J1939 PGN filter.
#[derive(Debug, Copy, Clone, Hash, PartialEq, Eq, Structural)]
pub struct PgnFilter {
    /// PGN to match, in its 18-bit wire form.
    pub pgn: u32,
    /// Mask over the PGN bits.
    pub mask: u32,
}

impl PgnFilter {
    /// Create a new [`PgnFilter`].  The PGN is stored in its wire form, so
    /// a PDU1 PGN's destination-specific byte is zeroed.
    pub fn new(pgn: Pgn, mask: PgnFilterMask) -> (r: Self)
        ensures
            r.pgn == pgn_wire(pgn@),
            r.mask == pgn_filter_mask_bits(mask),
    {
        PgnFilter { pgn: pgn.into(), mask: mask.into() }
    }
}

impl core::convert::From<PgnFilter> for J1939Filter {
    /// A PGN-only filter: the NAME and address parts are zeroed, so they
    /// match anything.
    fn from(pgn_filter: PgnFilter) -> (r: J1939Filter) {
        J1939Filter {
            name: 0,
            name_mask: 0,
            pgn: pgn_filter.pgn,
            pgn_mask: pgn_filter.mask,
            addr: 0,
            addr_mask: 0,
        }
    }
}

impl vstd::std_specs::convert::FromSpecImpl<PgnFilter> for J1939Filter {
    open spec fn obeys_from_spec() -> bool {
        true
    }

    open spec fn from_spec(pgn_filter: PgnFilter) -> J1939Filter {
        J1939Filter {
            name: 0,
            name_mask: 0,
            pgn: pgn_filter.pgn,
            pgn_mask: pgn_filter.mask,
            addr: 0,
            addr_mask: 0,
        }
    }
}

/// A mask for a J1939 control function address filter.
#[derive(Debug, Clone, Copy)]
pub enum AddrFilterMask {
    /// Partial address filter bitmask
    Partial(u8),
    /// Full address matching
    Full,
}

/// The bit pattern an address filter mask encodes to: `0xFF` for full
/// matching, the given bits for a partial mask.
pub open spec fn addr_filter_mask_bits(mask: AddrFilterMask) -> u8 {
    match mask {
        AddrFilterMask::Full => 0xFF,
        AddrFilterMask::Partial(m) => m,
    }
}

impl core::convert::From<AddrFilterMask> for u8 {
    fn from(mask: AddrFilterMask) -> (r: u8) {
        match mask {
            AddrFilterMask::Full => 0xFF,
            AddrFilterMask::Partial(m) => m,
        }
    }
}

impl vstd::std_specs::convert::FromSpecImpl<AddrFilterMask> for u8 {
    open spec fn obeys_from_spec() -> bool {
        true
    }

    open spec fn from_spec(mask: AddrFilterMask) -> u8 {
        addr_filter_mask_bits(mask)
    }
}

/// A J1939 control function address filter.
#[derive(Debug, Copy, Clone, Hash, PartialEq, Eq, Structural)]
pub struct AddrFilter {
    /// Source address to match.
    pub addr: u8,
    /// Mask over the address bits.
    pub mask: u8,
}

impl AddrFilter {
    /// Create a new [`AddrFilter`].
    pub fn new(addr: Addr, mask: AddrFilterMask) -> (r: Self)
        ensures
            r.addr == addr@,
            r.mask == addr_filter_mask_bits(mask),
    {
        AddrFilter { addr: addr.into(), mask: mask.into() }
    }
}

impl core::convert::From<AddrFilter> for J1939Filter {
    /// An address-only filter: the NAME and PGN parts are zeroed, so they
    /// match anything.
    fn from(addr_filter: AddrFilter) -> (r: J1939Filter) {
        J1939Filter {
            name: 0,
            name_mask: 0,
            pgn: 0,
            pgn_mask: 0,
            addr: addr_filter.addr,
            addr_mask: addr_filter.mask,
        }
    }
}

impl vstd::std_specs::convert::FromSpecImpl<AddrFilter> for J1939Filter {
    open spec fn obeys_from_spec() -> bool {
        true
    }

    open spec fn from_spec(addr_filter: AddrFilter) -> J1939Filter {
        J1939Filter {
            name: 0,
            name_mask: 0,
            pgn: 0,
            pgn_mask: 0,
            addr: addr_filter.addr,
            addr_mask: addr_filter.mask,
        }
    }
}

/// The byte layout of one filter record as the kernel's filter option
/// expects it, 32 bytes, little endian:
///
/// * 0..8    NAME
/// * 8..16   NAME mask
/// * 16..20  PGN
/// * 20..24  PGN mask
/// * 24      address
/// * 25      address mask
/// * 26..32  padding, zero
pub open spec fn filter_record_bytes(f: J1939Filter) -> Seq<u8> {
    spec_u64_to_le_bytes(f.name) + spec_u64_to_le_bytes(f.name_mask) + spec_u32_to_le_bytes(f.pgn)
        + spec_u32_to_le_bytes(f.pgn_mask) + seq![f.addr, f.addr_mask, 0u8, 0u8, 0u8, 0u8, 0u8, 0u8]
}

/// The concatenation of the records of a filter list, in order.
pub open spec fn filter_list_bytes(l: Seq<J1939Filter>) -> Seq<u8>
    decreases l.len(),
{
    if l.len() == 0 {
        Seq::empty()
    } else {
        filter_list_bytes(l.drop_last()) + filter_record_bytes(l.last())
    }
}

impl J1939Filter {
    /// Returns this record in the 32-byte wire form of the kernel's filter
    /// option.
    pub fn to_wire_bytes(&self) -> (r: Vec<u8>)
        ensures
            r@ == filter_record_bytes(*self),
            r@.len() == 32,
    {
        let mut out = u64_to_le_bytes(self.name);
        let mut part = u64_to_le_bytes(self.name_mask);
        out.append(&mut part);
        let mut part = u32_to_le_bytes(self.pgn);
        out.append(&mut part);
        let mut part = u32_to_le_bytes(self.pgn_mask);
        out.append(&mut part);
        out.push(self.addr);
        out.push(self.addr_mask);
        out.push(0);
        out.push(0);
        out.push(0);
        out.push(0);
        out.push(0);
        out.push(0);
        proof {
            assert(out@ =~= filter_record_bytes(*self));
        }
        out
    }
}

/// The option payload that installs a filter list.
///
/// An empty list yields `None`: no filters are to be installed and no
/// zero-length buffer may be handed to the option primitive, since such
/// primitives reject zero-length transfers with a non-null pointer
/// requirement.  A non-empty list yields the concatenation of its 32-byte
/// records, in order.
pub fn encode_filters(filters: &Vec<J1939Filter>) -> (r: Option<Vec<u8>>)
    ensures
        filters@.len() == 0 <==> r is None,
        (match r {
            Some(b) => b@ == filter_list_bytes(filters@) && b@.len() == 32 * filters@.len(),
            None => filters@.len() == 0,
        }),
{
    if filters.len() == 0 {
        return None;
    }
    let mut out: Vec<u8> = Vec::new();
    let mut i: usize = 0;
    while i < filters.len()
        invariant
            i <= filters@.len(),
            out@ == filter_list_bytes(filters@.subrange(0, i as int)),
            out@.len() == 32 * i,
        decreases filters@.len() - i,
    {
        let mut rec = filters[i].to_wire_bytes();
        out.append(&mut rec);
        proof {
            let pre = filters@.subrange(0, i as int);
            let post = filters@.subrange(0, i + 1);
            assert(post.drop_last() =~= pre);
            assert(post.last() == filters@[i as int]);
        }
        i = i + 1;
    }
    proof {
        assert(filters@.subrange(0, filters@.len() as int) =~= filters@);
    }
    Some(out)
}

} // verus!
