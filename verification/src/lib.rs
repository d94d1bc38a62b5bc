//! Sans-I/O core of a remote-device provisioning client.
//!
//! The crate holds the decisions of the client as state machines over plain
//! values; a driver performs the network operations they ask for.

pub mod auth;
pub mod channel;
pub mod command;
pub mod display;
pub mod flow;
pub mod text;
pub mod transfer;
