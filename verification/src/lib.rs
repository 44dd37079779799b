//! Abstraction over quic transports.
//!
//! The library holds what a quic transport has to decide: how many bytes a
//! stream may have in flight, which packet goes where, when a connection is
//! done. Sockets, timers and tasks stay with the caller: where one of them has
//! to act, a driver hands out an action and is stepped on with what came of it.
pub mod backend;
pub mod buf;
pub mod con;
pub mod connection;
pub mod driver;
pub mod endpoint;
pub mod error;
pub mod out_chan;
pub mod quiche;
pub mod quinn;
pub mod quinn_udp;
pub mod rt;
pub mod runtime;
pub mod stream;
pub mod task;
pub mod tokio_runtime;
pub mod udp;
pub mod util;
