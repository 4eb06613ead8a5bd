//! A loopback HTTP control plane for a desktop installer UI.
//!
//! The library holds the verified core of a small local web server: the
//! request router that maps a method and path to one of six response
//! actions, the JSON bodies those actions carry, the wire-level response
//! encoding, and the server handle that reports the bound address.  The
//! surrounding process (socket binding, the accept loop, the native
//! folder picker, process exit) performs the actions this library
//! decides on.

pub mod assets;
pub mod installer;
pub mod json;
pub mod response;
pub mod router;
pub mod server;
pub mod service;
pub mod text;
