//! Column-aligned, GNU-style usage text for a list of command-line options.
//!
//! The caller describes each option and supplies every piece of wording; the
//! library lays the text out. What is laid out is stated once, as a
//! mathematical function of the description (module `model`), and every
//! executable function is proved against it. Module `laws` holds what
//! follows for every usage text. Widths are counted in graphemes (module
//! `grapheme`), so that a letter with its combining marks takes one column.

pub mod args;
pub mod grapheme;
pub mod laws;
pub mod marks;
pub mod model;
pub mod opt;
pub mod sink;

pub use crate::args::{Args, ArgsUsage};
pub use crate::opt::{Opt, OptArg};
pub use crate::sink::tab;
