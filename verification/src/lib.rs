//! Parameter model of a stereo tanh waveshaper.
//!
//! The effect has three host-automatable parameters: input gain, saturation
//! ceiling and dry/wet mix. This crate holds what can be said about them
//! exactly: which indices exist, how each parameter is named and shown, what
//! the store holds after a write, and the descriptor the effect hands to its
//! host. Values are kept as IEEE 754 single-precision bit patterns, so the
//! store never rounds, compares or interprets them.

pub mod info;
pub mod params;
pub mod store;
pub mod writes;
