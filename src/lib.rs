//! A small HTTP server's verified core: request routing decisions, response
//! framing, access-log record formatting and the mycology dataset parser.

pub mod text;
pub mod timefmt;
pub mod server;
pub mod request;
pub mod log;
pub mod mycology;
