//! A local HTTP reverse proxy core for exercising a remotely executed worker.
//!
//! The library holds the verified request/response forwarding engine: the
//! bidirectional header-renaming codec that tunnels arbitrary headers through
//! a fixed upstream host, the preview-identifier construction used to
//! authenticate each tunneled request, and the outbound URL rewriting.
//! Listening sockets, the TLS client and the event loop live outside the
//! library and hand it plain values.

pub mod header;
pub mod codec;
pub mod config;
pub mod identity;
pub mod forward;
pub mod clock;
