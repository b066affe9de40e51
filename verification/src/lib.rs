//! A line-oriented text-stream concatenation library in the style of `cat`,
//! with GNU-style visualization of tabs and line ends.
//!
//! The crate has four parts: parsing a command line into an [`args::Args`]
//! value, resolving the raw flags into the canonical transformation set
//! [`options::OutputOptions`], rendering a unit of text under those options
//! ([`transform`]), and the per-event decisions that drive a stream of units
//! ([`stream`]).

pub mod args;
pub mod options;
pub mod stream;
pub mod transform;
