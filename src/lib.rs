//! Sierra program documents: the settings under which a Cairo source is
//! compiled, the framing of a program and its input into one merged JSON
//! document, and the text delivered to a file or to standard output.
use vstd::prelude::*;

pub mod compile;
pub mod error;
pub mod json;
pub mod layout;
pub mod merge;
pub mod output;
