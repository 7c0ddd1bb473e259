//! A real-time fan-out relay core: a registry of live client connections and
//! a broadcast engine that delivers each payload, serialized once, to every
//! registered connection on a best-effort basis.

pub mod broadcast;
pub mod connection;
pub mod ingress;
pub mod lifecycle;
pub mod registry;
