use vstd::prelude::*;

verus! {

/// Why a merge did not produce a document.
#[derive(Debug)]
pub enum ToolError {
    /// The program text is not JSON, or does not fit the program schema.
    InvalidProgram(String),
    /// The input text is not JSON.
    InvalidInput(String),
}

} // verus!
