//! Verified core of a small numeric-inference service.
//!
//! The library holds everything that can be reasoned about as plain values:
//! the model locator's candidate selection, metadata loading with its default
//! fallback, shape validation and row-major tensor layout for single and
//! batched prediction, and the engine state shared by request handlers.
//! Feature and prediction values are 32-bit floats on the wire; the library
//! carries each one as its IEEE-754 bit pattern (`u32`), and the surrounding
//! process converts at the boundary and drives the model runtime itself.

pub mod descriptor;
pub mod engine;
pub mod errors;
pub mod json;
pub mod locator;
pub mod metadata;
pub mod responses;
pub mod tensor;
