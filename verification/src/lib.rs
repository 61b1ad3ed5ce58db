//! Boundary validation and action routing for a node in an XOR-addressed
//! storage network.
//!
//! The crate has two halves:
//!
//! * [`parse`]: turns an untrusted byte buffer arriving from a client into
//!   exactly one of two trusted artifacts — a connection handshake, or a
//!   command/query envelope — and rejects everything else.
//! * [`action`]: the closed vocabulary of routing instructions that duty
//!   logic hands to the dispatcher once a validated request or response has
//!   been processed.

pub mod action;
pub mod errors;
pub mod parse;
pub mod protocol;
