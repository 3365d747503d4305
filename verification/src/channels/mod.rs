//! Messaging channels.

pub mod relay;
