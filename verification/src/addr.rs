//! The J1939 socket address: interface index, NAME, PGN, and control
//! function address, together with its byte-level wire layout.
//!
//! The kernel's bind, connect, send-to and receive-from calls exchange this
//! address through a generic, family-tagged container that is at least as
//! large as any specific address layout.  Instead of reinterpreting memory,
//! this module gives the specific layout an explicit field-by-field
//! serializer and deserializer over a byte buffer with documented offsets,
//! and validates the family tag on every decode.
use crate::protocol::{
    pgn_wire, Addr, Name, Pgn, NO_ADDR_RAW, NO_NAME_RAW, NO_PGN_RAW,
};
use vstd::bytes::{
    spec_u16_from_le_bytes, spec_u16_to_le_bytes, spec_u32_from_le_bytes, spec_u32_to_le_bytes,
    spec_u64_from_le_bytes, spec_u64_to_le_bytes, u16_from_le_bytes, u16_to_le_bytes,
    u32_from_le_bytes, u32_to_le_bytes, u64_from_le_bytes, u64_to_le_bytes,
};
use vstd::prelude::*;
use vstd::slice::{slice_index_get, slice_subrange};

verus! {

/// The address family tag of the CAN protocol family.
pub const AF_CAN: u16 = 29;

/// Number of bytes in the wire form of a J1939 socket address.
pub const SOCKADDR_CAN_LEN: usize = 24;

/// Error related to the handling of [`J1939SockAddr`].
#[derive(Debug, Copy, Clone, PartialEq, Eq, Structural)]
pub enum J1939SockAddrError {
    /// Found an address family other than the CAN family in a generic
    /// address container.
    InvalidAddressFamily,
}

/// Relies on std::io::Error: the operating system's error type, carried
/// through opaquely so callers receive the originating error unchanged.
#[verifier::external_type_specification]
#[verifier::external_body]
pub struct ExIoError(std::io::Error);

/// Relies on nix::net::if_::if_nametoindex: resolves a network-interface
/// name to its numeric index.  The index depends on the machine's
/// configuration, so nothing is stated of the value; a name that no
/// interface bears yields the operating system's error.
#[verifier::external_body]
fn resolve_ifname(ifname: &str) -> Result<u32, std::io::Error> {
    match nix::net::if_::if_nametoindex(ifname) {
        Ok(index) => Ok(index),
        Err(errno) => Err(std::io::Error::from(errno)),
    }
}

/// A specific socket address for a J1939 socket.
///
/// The wire layout, little endian, is fixed at 24 bytes:
///
/// * 0..2    address family tag, [`AF_CAN`]
/// * 2..4    padding, zero
/// * 4..8    interface index
/// * 8..16   NAME
/// * 16..20  PGN
/// * 20      control function address
/// * 21..24  padding, zero
#[derive(Debug, Clone, Copy)]
pub struct J1939SockAddr {
    ifindex: u32,
    name: u64,
    pgn: u32,
    addr: u8,
}

/// The 24-byte wire form of a socket address, at the offsets documented on
/// [`J1939SockAddr`].
pub open spec fn sockaddr_bytes(a: J1939SockAddr) -> Seq<u8> {
    spec_u16_to_le_bytes(AF_CAN) + seq![0u8, 0u8] + spec_u32_to_le_bytes(a.spec_ifindex())
        + spec_u64_to_le_bytes(a.spec_name()) + spec_u32_to_le_bytes(a.spec_pgn_raw())
        + seq![a.spec_addr(), 0u8, 0u8, 0u8]
}

impl J1939SockAddr {
    /// The interface index the address names.
    pub closed spec fn spec_ifindex(&self) -> u32 {
        self.ifindex
    }

    /// The raw 64-bit NAME stored in the address.
    pub closed spec fn spec_name(&self) -> u64 {
        self.name
    }

    /// The raw PGN word stored in the address; it may hold the "no PGN"
    /// sentinel, which lies outside the 18-bit PGN range.
    pub closed spec fn spec_pgn_raw(&self) -> u32 {
        self.pgn
    }

    /// The control function address stored in the address.
    pub closed spec fn spec_addr(&self) -> u8 {
        self.addr
    }

    /// Creates a new [`J1939SockAddr`] with the given interface index; the
    /// NAME, PGN and address hold the protocol's "unset" sentinels.
    pub fn new(ifindex: u32) -> (r: Self)
        ensures
            r.spec_ifindex() == ifindex,
            r.spec_name() == NO_NAME_RAW,
            r.spec_pgn_raw() == NO_PGN_RAW,
            r.spec_addr() == NO_ADDR_RAW,
    {
        let mut socket_addr = J1939SockAddr::default();
        socket_addr.ifindex = ifindex;
        socket_addr
    }

    /// Creates a new [`J1939SockAddr`] with an interface index, J1939 NAME,
    /// PGN, and control function address.  The PGN is stored in its wire
    /// form, so a PDU1 PGN's destination-specific byte is zeroed.
    pub fn from_parts(ifindex: u32, name: Name, pgn: Pgn, addr: Addr) -> (r: Self)
        ensures
            r.spec_ifindex() == ifindex,
            r.spec_name() == name@,
            r.spec_pgn_raw() == pgn_wire(pgn@),
            r.spec_addr() == addr@,
    {
        let mut socket_addr = J1939SockAddr::default();
        socket_addr.ifindex = ifindex;
        socket_addr.name = name.into();
        socket_addr.pgn = pgn.into();
        socket_addr.addr = addr.into();
        socket_addr
    }

    /// Creates a new [`J1939SockAddr`] from a given interface name; fails
    /// with the operating system's error when no interface bears the name.
    pub fn with_ifname(ifname: &str) -> (r: Result<Self, std::io::Error>)
        ensures
            (match r {
                Ok(a) => a.spec_name() == NO_NAME_RAW && a.spec_pgn_raw() == NO_PGN_RAW
                    && a.spec_addr() == NO_ADDR_RAW,
                Err(_) => true,
            }),
    {
        match resolve_ifname(ifname) {
            Ok(ifindex) => Ok(Self::new(ifindex)),
            Err(e) => Err(e),
        }
    }

    /// Creates a new [`J1939SockAddr`] with an interface name, J1939 NAME,
    /// PGN, and control function address; fails with the operating system's
    /// error when no interface bears the name.
    pub fn from_parts_with_ifname(ifname: &str, name: Name, pgn: Pgn, addr: Addr) -> (r: Result<
        Self,
        std::io::Error,
    >)
        ensures
            (match r {
                Ok(a) => a.spec_name() == name@ && a.spec_pgn_raw() == pgn_wire(pgn@)
                    && a.spec_addr() == addr@,
                Err(_) => true,
            }),
    {
        match resolve_ifname(ifname) {
            Ok(ifindex) => Ok(Self::from_parts(ifindex, name, pgn, addr)),
            Err(e) => Err(e),
        }
    }

    /// Returns the J1939 NAME.
    pub fn name(&self) -> (r: Name)
        ensures
            r@ == self.spec_name(),
    {
        Name::from(self.name)
    }

    /// Sets the J1939 NAME.
    pub fn set_name(&mut self, name: Name)
        ensures
            final(self).spec_name() == name@,
            final(self).spec_ifindex() == old(self).spec_ifindex(),
            final(self).spec_pgn_raw() == old(self).spec_pgn_raw(),
            final(self).spec_addr() == old(self).spec_addr(),
    {
        self.name = name.into();
    }

    /// Returns the control function address.
    pub fn addr(&self) -> (r: Addr)
        ensures
            r@ == self.spec_addr(),
    {
        Addr::from(self.addr)
    }

    /// Sets the control function address.
    pub fn set_addr(&mut self, addr: Addr)
        ensures
            final(self).spec_addr() == addr@,
            final(self).spec_ifindex() == old(self).spec_ifindex(),
            final(self).spec_name() == old(self).spec_name(),
            final(self).spec_pgn_raw() == old(self).spec_pgn_raw(),
    {
        self.addr = addr.into();
    }

    /// Returns the Parameter Group Number, truncated to its 18-bit range.
    pub fn pgn(&self) -> (r: Pgn)
        ensures
            r@ == self.spec_pgn_raw() & 0x3FFFF,
    {
        Pgn::from(self.pgn)
    }

    /// Sets the Parameter Group Number, stored in its wire form: a PDU1
    /// PGN's destination-specific byte is zeroed.
    pub fn set_pgn(&mut self, pgn: Pgn)
        ensures
            final(self).spec_pgn_raw() == pgn_wire(pgn@),
            final(self).spec_ifindex() == old(self).spec_ifindex(),
            final(self).spec_name() == old(self).spec_name(),
            final(self).spec_addr() == old(self).spec_addr(),
    {
        self.pgn = pgn.into();
    }

    /// Returns the interface index.
    pub fn ifindex(&self) -> (r: u32)
        ensures
            r == self.spec_ifindex(),
    {
        self.ifindex
    }

    /// Returns the address in its 24-byte wire form, at the offsets
    /// documented on [`J1939SockAddr`].
    pub fn as_bytes(&self) -> (r: Vec<u8>)
        ensures
            r@ == sockaddr_bytes(*self),
            r@.len() == SOCKADDR_CAN_LEN,
    {
        let mut out = u16_to_le_bytes(AF_CAN);
        out.push(0);
        out.push(0);
        let mut part = u32_to_le_bytes(self.ifindex);
        out.append(&mut part);
        let mut part = u64_to_le_bytes(self.name);
        out.append(&mut part);
        let mut part = u32_to_le_bytes(self.pgn);
        out.append(&mut part);
        out.push(self.addr);
        out.push(0);
        out.push(0);
        out.push(0);
        proof {
            assert(out@ =~= sockaddr_bytes(*self));
        }
        out
    }

    /// Decodes an address from the leading bytes of a generic address
    /// container.
    ///
    /// The container must be at least as large as the specific layout; that
    /// size relationship is demanded here explicitly instead of being
    /// assumed.  Decoding fails, and returns
    /// [`J1939SockAddrError::InvalidAddressFamily`], exactly when the
    /// container's family tag differs from [`AF_CAN`].
    pub fn from_bytes(bytes: &[u8]) -> (r: Result<Self, J1939SockAddrError>)
        requires
            bytes@.len() >= SOCKADDR_CAN_LEN,
        ensures
            (match r {
                Ok(a) => spec_u16_from_le_bytes(bytes@.subrange(0, 2)) == AF_CAN
                    && a.spec_ifindex() == spec_u32_from_le_bytes(bytes@.subrange(4, 8))
                    && a.spec_name() == spec_u64_from_le_bytes(bytes@.subrange(8, 16))
                    && a.spec_pgn_raw() == spec_u32_from_le_bytes(bytes@.subrange(16, 20))
                    && a.spec_addr() == bytes@[20],
                Err(e) => spec_u16_from_le_bytes(bytes@.subrange(0, 2)) != AF_CAN && e
                    == J1939SockAddrError::InvalidAddressFamily,
            }),
    {
        let family = u16_from_le_bytes(slice_subrange(bytes, 0, 2));
        if family != AF_CAN {
            return Err(J1939SockAddrError::InvalidAddressFamily);
        }
        let ifindex = u32_from_le_bytes(slice_subrange(bytes, 4, 8));
        let name = u64_from_le_bytes(slice_subrange(bytes, 8, 16));
        let pgn = u32_from_le_bytes(slice_subrange(bytes, 16, 20));
        let addr = *slice_index_get(bytes, 20);
        Ok(J1939SockAddr { ifindex, name, pgn, addr })
    }
}

impl core::default::Default for J1939SockAddr {
    /// The default address names no interface and holds the protocol's
    /// "unset" sentinels for NAME, PGN and address.
    fn default() -> (r: Self)
        ensures
            r.spec_ifindex() == 0,
            r.spec_name() == NO_NAME_RAW,
            r.spec_pgn_raw() == NO_PGN_RAW,
            r.spec_addr() == NO_ADDR_RAW,
    {
        J1939SockAddr { ifindex: 0, name: NO_NAME_RAW, pgn: NO_PGN_RAW, addr: NO_ADDR_RAW }
    }
}

impl core::cmp::PartialEq for J1939SockAddr {
    /// Two addresses are equal when interface index, NAME, address, and the
    /// PGN truncated to its 18-bit range agree.
    fn eq(&self, other: &Self) -> (r: bool) {
        self.ifindex == other.ifindex && self.name == other.name && (self.pgn & 0x3FFFF) == (
        other.pgn & 0x3FFFF) && self.addr == other.addr
    }
}

impl vstd::std_specs::cmp::PartialEqSpecImpl for J1939SockAddr {
    open spec fn obeys_eq_spec() -> bool {
        true
    }

    open spec fn eq_spec(&self, other: &Self) -> bool {
        self.spec_ifindex() == other.spec_ifindex() && self.spec_name() == other.spec_name()
            && self.spec_pgn_raw() & 0x3FFFF == other.spec_pgn_raw() & 0x3FFFF && self.spec_addr()
            == other.spec_addr()
    }
}

impl core::cmp::Eq for J1939SockAddr {

}

/// Encoding an address and decoding the wire form hands back the same
/// address: the family tag reads as the CAN family and each field reads as
/// the value that was encoded.
pub proof fn lemma_sockaddr_bytes_roundtrip(a: J1939SockAddr)
    ensures
        sockaddr_bytes(a).len() == 24,
        spec_u16_from_le_bytes(sockaddr_bytes(a).subrange(0, 2)) == AF_CAN,
        spec_u32_from_le_bytes(sockaddr_bytes(a).subrange(4, 8)) == a.spec_ifindex(),
        spec_u64_from_le_bytes(sockaddr_bytes(a).subrange(8, 16)) == a.spec_name(),
        spec_u32_from_le_bytes(sockaddr_bytes(a).subrange(16, 20)) == a.spec_pgn_raw(),
        sockaddr_bytes(a)[20] == a.spec_addr(),
{
    vstd::bytes::lemma_auto_spec_u16_to_from_le_bytes();
    vstd::bytes::lemma_auto_spec_u32_to_from_le_bytes();
    vstd::bytes::lemma_auto_spec_u64_to_from_le_bytes();
    let b = sockaddr_bytes(a);
    assert(b.subrange(0, 2) =~= spec_u16_to_le_bytes(AF_CAN));
    assert(b.subrange(4, 8) =~= spec_u32_to_le_bytes(a.spec_ifindex()));
    assert(b.subrange(8, 16) =~= spec_u64_to_le_bytes(a.spec_name()));
    assert(b.subrange(16, 20) =~= spec_u32_to_le_bytes(a.spec_pgn_raw()));
}

} // verus!
