//! Request resolution for a hybrid site: static files with precompressed
//! variants, with fallback to a dynamic renderer.
//!
//! The library models a request, a read-only static directory, the
//! `accept-encoding` negotiation, the asset-path rewrite, and the decision of
//! whether a static lookup outcome is served as-is or the original request is
//! handed to the renderer.

pub mod bytes;
pub mod encoding;
pub mod laws;
pub mod lookup;
pub mod request;
pub mod resolve;
pub mod rewrite;
