//! A safety layer over a host inference runtime's native plugin interface
//! for custom tensor operators.
//!
//! The host is reached through a table of foreign functions. This library
//! never calls that table. Each operation is a small protocol: it names the
//! host call it waits for ([`host::HostCall`]), takes what the call left
//! behind ([`host::HostReply`]), and either names the next call or finishes
//! with a typed result. Whoever embeds the library performs the calls.

pub mod status;
pub mod host;
pub mod text;
pub mod array;
pub mod context;
pub mod tensor;
pub mod output;
pub mod session;
pub mod element_type;
