//! makegen: turns a declarative build-step configuration into a Makefile.
//!
//! A configuration holds one section per platform; a section maps target
//! names to a list of steps and an optional list of variable declarations.
//! The generator emits, per target, a header line, one runtime assertion per
//! required variable, and a three-line echo/command block per step, all under
//! a fixed banner and helper-macro preamble.

pub mod compile;
pub mod error;
pub mod parse;
pub mod props;
pub mod scan;
pub mod text;
pub mod value;
