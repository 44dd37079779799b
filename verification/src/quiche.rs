//! Quic and http3 backend on top of quiche: what its tasks decide.
pub mod bound_multi_send;
pub mod con;
pub mod ep;
