//! Arbitrary-precision signed integers as a typed value of a key space,
//! with a radix-aware text codec and six arithmetic commands.

pub mod args;
pub mod bigint;
pub mod commands;
pub mod error;
pub mod keyspace;
pub mod laws;
pub mod radix;
