//! A real-time chat relay: the event model, the broadcast hub, and the
//! decisions of the per-connection pumps that move events between a socket
//! and the hub.

pub mod event;
pub mod hub;
pub mod pump;
pub mod config;
