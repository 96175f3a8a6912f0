//! A signaling relay for peer-to-peer sessions.
//!
//! Clients connect, join rooms under user ids of their choosing, and exchange
//! the handshake messages of a session (offers, answers, network candidates)
//! through the relay, which never looks into them. The relay keeps two
//! registries, the members of each room and the delivery handle of each user,
//! and repairs them when connections come and go without notice.
//!
//! The relay does no input or output. A connection is fed events and answers
//! with actions for the transport to carry out:
//!
//! - `codec` and `notice`: the messages that clients send and the texts that
//!   the server sends, over the JSON objects of `json`;
//! - `state`: the registries, over the tables of `store`;
//! - `delivery`: actions and fan-outs;
//! - `reconcile`: what a join does about an earlier session of the same user;
//! - `ws`: the protocol of one connection;
//! - `laws`: what holds of all of these together;
//! - `routes` and `config`: the membership query and the settings of the
//!   server around the relay;
//! - `desktop`: the settings, devices and captures of the desktop companion.
pub mod codec;
pub mod config;
pub mod delivery;
pub mod desktop;
pub mod json;
pub mod laws;
pub mod notice;
pub mod reconcile;
pub mod routes;
pub mod state;
pub mod store;
pub mod text;
pub mod ws;
