//! A client library for a VPS provider's identity and compute services:
//! region resolution, the session that holds credentials and the bearer token,
//! and the compute client that builds requests and decodes their answers.
//!
//! The library performs no I/O: each operation is a request to send and a
//! function that takes the reply.
pub mod compute;
pub mod exchange;
pub mod json;
pub mod region;
pub mod session;
