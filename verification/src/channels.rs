//! The channels of the cast protocol, one module for each namespace.

pub mod connection;
