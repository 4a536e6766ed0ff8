//! A minimal wake-word detection engine.
//!
//! The engine watches a continuous audio stream and raises an event when a
//! configured keyword is heard. Audio frames flow from a capture source into
//! a bounded ring buffer, are turned into normalized feature vectors, and are
//! judged by a sliding-window detector with debounce and cooldown. A
//! controller owns the enable/disable lifecycle and hands the host
//! application the decisions it needs to run the capture loop.
//!
//! Capture, the scoring model, and the host callbacks are injected from
//! outside: the library holds the data structures and the decision logic,
//! stated and proved over plain values.

pub mod config;
pub mod controller;
pub mod detector;
pub mod feature;
pub mod frame;
pub mod ring_buffer;
