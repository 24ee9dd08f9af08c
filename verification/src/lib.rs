//! A small gateway library for read-only queries against a blockchain RPC
//! endpoint: it resolves a symbolic cluster selector to an endpoint URL,
//! decodes raw on-chain account bytes into one of three fixed record layouts
//! (a rewarder, a quarry, or a miner), and re-shapes the decoded records into
//! a JSON-friendly form with every 32-byte identifier rendered as an explicit
//! array of bytes.
//!
//! The transport itself (HTTP surface and RPC client) lives outside this
//! library; the functions here take the values those layers produce and
//! return the values they must send.

pub mod account;
pub mod decode;
pub mod json;
pub mod network;
pub mod pipeline;
