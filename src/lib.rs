//! Active network probing: packet construction, frame decoding, reply
//! matching and the per-round decisions of the ping, traceroute, neighbor
//! resolution and fingerprinting engines.
pub mod addr;
pub mod encode;
pub mod filter;
pub mod fp;
pub mod frame;
pub mod interface;
pub mod ip;
pub mod packet;
pub mod result;
pub mod session;
pub mod setting;
pub mod text;
