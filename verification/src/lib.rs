//! Client side of a pad-based, authenticated, replay-resistant datagram
//! protocol: byte encodings, the pad-indexed keystream, the sealing and
//! opening of datagrams, and the decisions of the session that uses them.

pub mod bytes;
pub mod keystream;
pub mod cipher;
pub mod recent;
pub mod clock;
pub mod transport;
pub mod session;
