//! The key-value service: its messages, the decisions of its server and
//! what its client reads out of a reply.
pub mod client;
pub mod pb;
pub mod server;
