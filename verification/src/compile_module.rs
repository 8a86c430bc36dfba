//! The per-file compilation driver state.
//!
//! Code generation is not part of this front end: asking for it is
//! answered with a typed internal error, never a panic.

use vstd::prelude::*;

use crate::error::ErlError;

verus! {

/// State for compiling one input file.
#[derive(Debug)]
pub struct CompileModule {
    /// The input file's path.
    pub in_file: String,
    /// The output path, set when emission starts.
    pub out_file: String,
    /// The module name from the module attribute.
    pub module_name: String,
    /// The source encoding's name.
    pub encoding: String,
}

impl CompileModule {
    /// Driver state for one input file, with the output side unset.
    pub fn new(in_file: String) -> (r: CompileModule)
        ensures
            r.in_file@ == in_file@,
            r.out_file@ == Seq::<char>::empty(),
            r.module_name@ == Seq::<char>::empty(),
            r.encoding@ == Seq::<char>::empty(),
    {
        CompileModule {
            in_file,
            out_file: String::new(),
            module_name: String::new(),
            encoding: String::new(),
        }
    }

    /// Emit code for the module: not provided by this front end, so the
    /// answer is always a distinct internal error.
    pub fn compile(&self) -> (r: Result<(), ErlError>)
        ensures
            r matches Result::Err(e) && e@ is Internal,
    {
        Result::Err(
            ErlError::internal(String::from_str("code emission is outside this front end")),
        )
    }
}

} // verus!
