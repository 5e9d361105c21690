//! The handshake phase: option requests, option replies and the
//! information items that `NBD_REP_INFO` carries.
pub mod info;
pub mod init;
