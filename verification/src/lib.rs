//! Realtime client for a home-automation hub.
//!
//! The crate models the hub protocol and the connection life cycle as
//! plain data and pure transition functions, each with a contract: the
//! tagged message schema and its wire encoding, the correlation of
//! outgoing call ids to reply slots, the authentication state machine of
//! the connection actor, the entity cache behind the published
//! connection status, the bounded event fan-out, and the reconnect
//! policy. Socket and timer plumbing lives outside the library and
//! drives these functions.

pub mod actor;
pub mod api;
pub mod broadcast;
pub mod cache;
pub mod codec;
pub mod config;
pub mod controller;
pub mod correlation;
pub mod decode;
pub mod error;
pub mod gpio_controller;
pub mod json;
pub mod messages;
pub mod supervisor;
pub mod text;
pub mod transport;

pub use error::Error;
