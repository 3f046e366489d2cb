//! Send Wake-on-LAN magic packets.
//!
//! A magic packet is a fixed 102-byte payload: 6 synchronization bytes of
//! `0xff` followed by 16 contiguous repetitions of the 6-byte hardware
//! address of the interface to wake. The packet is sent as a single UDP
//! datagram, typically to the limited broadcast address on the Discard
//! port (9).

pub mod errors;
pub mod mac;
pub mod packet;
pub mod transmit;

pub use errors::BindErrorKind;
pub use errors::Error;
pub use errors::SendErrorKind;
pub use mac::parse_mac;
pub use packet::build_magic_packet;
pub use packet::MAGIC_PACKET_LENGTH;
pub use transmit::effective_destination;
pub use transmit::send_outcome;
pub use transmit::wake_on_lan;
pub use transmit::DEFAULT_PORT;
