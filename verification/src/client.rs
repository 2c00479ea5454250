//! Instruction builders for callers of the loader: one accounts struct and
//! one step-by-step builder for each instruction offered.
pub mod finalize;
pub mod truncate;
