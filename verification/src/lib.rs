//! Terminal output engine for command-line programs.
//!
//! Messages are resolved to a stream by kind and verbosity, rendered into the
//! exact text to write (with in-place overwrite, truncation and an idle
//! spinner), and logged line by line. Every decision is a function from plain
//! values to plain values; writing to the terminal is left to the caller.

pub mod emitter;
pub mod matching;
pub mod message;
pub mod printer;
pub mod render;
pub mod screen;
pub mod session;
pub mod spinner;
pub mod stamp;
pub mod text;
pub mod worker;
