//! A middleware-oriented HTTP response layer.
//!
//! - [`mimes`]: a static table mapping file-name extensions to media types.
//! - [`response`]: a response-sink capability and the serving operations
//!   (`serve`, `serve_file`) layered on top of it.
//! - [`chain`]: an ordered sequence of handlers, each deciding via a
//!   [`chain::Signal`] whether processing continues or unwinds to the
//!   finalizing handlers.

pub mod chain;
pub mod mimes;
pub mod response;

pub use chain::Alloy;
pub use chain::Chain;
pub use chain::ChainBuilder;
pub use chain::Middleware;
pub use chain::Signal;
pub use mimes::extension_of;
pub use mimes::resolve;
pub use mimes::MediaType;
pub use response::IoError;
pub use response::MemSink;
pub use response::Serve;
pub use response::Sink;
