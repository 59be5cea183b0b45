//! A verified number-guessing session: a secret target drawn once from a
//! random source, a retry loop that normalizes and parses each input line,
//! and a three-way comparison that decides when the session is won.
//!
//! Alongside the session core, the crate carries a set of small verified
//! helpers for rectangles, string lengths, and user records.

pub mod borrowing;
pub mod dimensions;
pub mod geometry;
pub mod input;
pub mod numbers;
pub mod owned;
pub mod session;
pub mod users;
