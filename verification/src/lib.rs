//! A Network Block Device (NBD) protocol library: the constants of the
//! protocol, the encoding and decoding of handshake options, option replies,
//! transmission requests and simple replies, and the decisions a server
//! takes for each option and each request on an in-memory export.
#[allow(non_camel_case_types)]
pub mod value;
pub mod wire;
pub mod buffer;


pub mod error;
pub mod handshake;
pub mod transmission;
pub mod server;
