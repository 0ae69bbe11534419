//! Build-time metadata derivation: repository inspection, toolchain
//! classification, environment stamping, and directive rendering for a
//! build script, with sentinel fallbacks on every failure path.

pub mod cli;
pub mod emitter;
pub mod git;
pub mod stamp;
pub mod text;
pub mod toolchain;
