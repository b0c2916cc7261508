//! A growable contiguous buffer with explicit length and capacity, built on a
//! resize-or-fail allocation primitive, and the diagnostics of its two fatal
//! conditions.

pub mod array;
pub mod diagnostic;
pub mod growth;
pub mod memory;
