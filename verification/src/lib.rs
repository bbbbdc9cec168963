//! Connection and session management for a remote screen-and-pointer server.
//!
//! The crate holds the rules of the server and none of its sockets, threads or
//! timers: every decision is a function from plain values to plain values, so
//! that it can be proved once and driven by any transport.

pub mod control;
pub mod input;
pub mod listener;
pub mod protocol;
pub mod registry;
pub mod session;
pub mod stream_handler;
pub mod websocket;
pub mod window;
