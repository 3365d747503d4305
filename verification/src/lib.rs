//! Verified core of browser automation, text-to-speech, local speech input
//! and the relay channel: the policies, state machines and request building,
//! with the I/O left to the caller.

use vstd::prelude::*;

pub mod text;
pub mod secret;
pub mod encoding;
pub mod browser;
pub mod speech;
pub mod tts;
pub mod config;
pub mod channels;
pub mod tools;

verus! {
} // verus!
