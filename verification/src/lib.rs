//! Desktop-process core of a social-posting client.
//!
//! The crate verifies the two flows that carry real protocol and state-machine
//! content: the publish flow, which turns a secret key and a message into an
//! authenticated network submission, and the desktop lifecycle coordinator,
//! which reconciles window visibility, tray menu actions, and cross-process
//! single-instance signaling. All network and OS interaction is performed by a
//! surrounding driver; this library makes every decision from plain values.

pub mod arbiter;
pub mod auth;
pub mod command;
pub mod lifecycle;
pub mod publish;
