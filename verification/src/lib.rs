//! Session orchestration and command routing for a command-line client of
//! the VTube Studio plugin API.
//!
//! The library decides; it never talks to the network or the disk. A caller
//! hands it a parsed [`args::Command`] and gets back a [`router::Plan`] that
//! names the requests to send, and drives a [`session::Session`] with the
//! events it observes to learn what to do next.
//!
//! - [`args`]: the commands;
//! - [`parse`]: colours, physics dimensions and lengths of time from text;
//! - [`config`]: the connection record;
//! - [`request`]: the requests, as plain data;
//! - [`resolve`]: choosing a resource by name from a listing;
//! - [`router`]: from a command to its plan;
//! - [`session`]: the state machine of one invocation;
//! - [`units`]: real numbers and lengths of time as the library carries
//!   them.

pub mod units;
pub mod config;
pub mod args;
pub mod parse;
pub mod request;
pub mod resolve;
pub mod router;
pub mod session;
