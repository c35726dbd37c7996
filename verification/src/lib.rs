//! A client library for tldr pages: short, example-driven help pages that a
//! static file host serves by command name and platform.
//!
//! The library decides; it performs no input or output itself. A front end
//! sends the requests that the [`resolver`] asks for, reports what came back,
//! and moves the bytes that the [`stream`] module tells it to move.

pub mod platform;
pub mod status;
pub mod error;
pub mod request;
pub mod resolver;
pub mod stream;
