//! Client side of the Phoenix Channels protocol: envelopes, the outbound and
//! inbound protocol halves, endpoint construction and the client's decisions.
pub mod client;
pub mod codec;
pub mod delivery;
pub mod endpoint;
pub mod error;
pub mod event;
pub mod json;
pub mod message;
pub mod receiver;
pub mod sender;
