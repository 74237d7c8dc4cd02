//! Turns a byte stream into 8-bit unsigned PCM audio: every bit of every byte
//! becomes one sample, through a running accumulator of unit amplitudes.

pub mod bits;
pub mod config;
pub mod encoder;
pub mod pipeline;
