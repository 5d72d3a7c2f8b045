//! Bit-accurate in-memory types for the SAE J1939 vehicle-network protocol's
//! addressing and naming model: parameter group numbers, control-function
//! addresses, 64-bit NAMEs, receive filters, and the byte-level socket
//! address layout used by the kernel's J1939 stack, together with the
//! typestate vocabulary of the connection-state-checked socket built on
//! them.
pub mod addr;
pub mod filter;
pub mod protocol;
pub mod socket;

pub use addr::J1939SockAddr;
pub use addr::J1939SockAddrError;
pub use filter::encode_filters;
pub use filter::AddrFilter;
pub use filter::AddrFilterMask;
pub use filter::J1939Filter;
pub use filter::NameFilter;
pub use filter::NameFilterMask;
pub use filter::PgnFilter;
pub use filter::PgnFilterMask;
pub use protocol::Addr;
pub use protocol::Name;
pub use protocol::Pgn;
