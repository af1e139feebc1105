//! Aggregation of raw input-device activity into periodic reports.
//!
//! Key releases, button presses and pointer moves are folded into a small set
//! of accumulators. Two reporters drain them on a fixed interval: each takes a
//! snapshot, hands it out for delivery, and clears what it reported once the
//! delivery has been acknowledged. A failed delivery clears nothing, so the
//! next report carries the combined total.
//!
//! The crate holds no floating-point state. Pointer travel is kept in
//! micro-pixels, each move rounded down to a whole micro-pixel, and every
//! conversion is exact integer arithmetic.

pub mod accumulators;
pub mod distance;
pub mod json;
pub mod laws;
pub mod report;
pub mod reporter;
