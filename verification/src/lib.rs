//! The link between an Android Auto head unit and a phone: finding the phone
//! on USB, moving bytes over its bulk endpoints, and running the TLS worker
//! that sits between the framing layer and the wire.
//!
//! Everything here is a decision or a computation. Whoever owns the sockets,
//! the endpoints and the tasks performs the actions that these functions
//! return and hands back what happened.

pub mod bulk;
pub mod bulk_laws;
pub mod frame;
pub mod handshake_laws;
pub mod log_laws;
pub mod mux;
pub mod raw_log;
pub mod ssl;
pub mod ssl_laws;
pub mod text;
pub mod tls;
pub mod usb;
pub mod usb_laws;
