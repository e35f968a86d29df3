use vstd::prelude::*;

use cairo_lang_sierra::program::Program;

use crate::json::{encode_program, encoded_program, is_program_text};

verus! {

/// The settings under which a source program is compiled.
#[derive(Clone, Copy, Debug, PartialEq, Eq, Structural)]
pub struct CompileOptions {
    /// Replace generated identifiers with stable, readable names.
    pub replace_ids: bool,
    /// Let the compiler add gas withdrawals of its own.
    pub auto_withdraw_gas: bool,
    /// Find the core library from the compiler's installation.
    pub detect_corelib: bool,
}

/// The settings of the compile command: stable identifiers, no automatic gas
/// withdrawal, the core library found by the compiler.
pub fn compile_options() -> (r: CompileOptions)
    ensures
        r.replace_ids,
        !r.auto_withdraw_gas,
        r.detect_corelib,
{
    CompileOptions { replace_ids: true, auto_withdraw_gas: false, detect_corelib: true }
}

/// The JSON document for a compiled program: its compact encoding, which
/// reads back as a program.
pub fn program_document(program: &Program) -> (r: String)
    ensures
        r@ == encoded_program(*program),
        is_program_text(r@),
{
    match encode_program(program) {
        Ok(s) => s,
        Err(_) => String::new(),
    }
}

} // verus!
