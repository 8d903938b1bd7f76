//! Automation and notification core of a chat-room assistant.
//!
//! The library holds the logic that decides, each scheduler tick, whether a
//! recurring daily trigger fires, how a polled temperature is classified into
//! a beverage announcement, and whether an inbound message is forwarded to a
//! watch list's destinations. Delivery itself (the chat connection, the
//! weather provider, persistence) lives outside the library and hands it
//! plain values.

pub mod announce;
pub mod classify;
pub mod clock;
pub mod handler;
pub mod igdb;
pub mod messages;
pub mod rng;
pub mod router;
pub mod schedule;
pub mod text;
