//! A verified channel-selection and history-tracking state machine.
//!
//! The library owns a fixed set of nine numbered channels, each holding an
//! integer reading and a derived "suspicious" flag, together with a
//! current/previous selection cursor and a threshold-driven classifier.
//! A UI front-end drives it through a small command set and renders the
//! snapshot it exposes; the front-end owns no state of its own.

pub mod common;
pub mod cursor;
pub mod dataset;
pub mod errors;
pub mod laws;
pub mod machine;
pub mod policy;
mod rng;
