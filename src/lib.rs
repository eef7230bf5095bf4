//! Network primitives for a shell host: a one-shot TCP/UDP client and an
//! accept-loop server. The library holds their decisions, each with a
//! verified contract: argument checks, timeout precedence, address choice,
//! payload and reply shapes, and the accept loop's state machine.
pub mod error;
pub mod endpoint;
pub mod timeout;
pub mod payload;
pub mod server;
pub mod commands;
