//! The parse stage: turn every cached Erlang source into a parsed
//! module.

use vstd::prelude::*;

use crate::error::ErlError;
use crate::file_cache::FileCacheImpl;
use crate::module::ErlModuleImpl;

verus! {

/// Runs the parser over the file cache.
#[derive(Debug)]
pub struct ErlParseStage {}

impl ErlParseStage {
    /// Parse every cached file whose name carries a source or header
    /// suffix; the first parse error stops the run. Every module that
    /// comes back is a parsed form list.
    pub fn run(cache: &FileCacheImpl) -> (r: Result<Vec<ErlModuleImpl>, ErlError>)
        ensures
            r matches Result::Ok(ms) ==> forall|i: int|
                0 <= i < ms@.len() ==> (#[trigger] ms@[i].ast)@ is Forms,
    {
        let n = cache.all_files.len();
        let mut out: Vec<ErlModuleImpl> = Vec::new();
        let mut i: usize = 0;
        while i < n
            invariant
                n == cache.all_files@.len(),
                0 <= i <= n,
                forall|j: int| 0 <= j < out@.len() ==> (#[trigger] out@[j].ast)@ is Forms,
            decreases n - i,
        {
            let path = cache.all_files[i].path.as_str();
            if has_source_suffix(path) {
                let m = match ErlModuleImpl::from_module_source(
                    cache.all_files[i].path.clone(),
                    cache.all_files[i].text.as_str(),
                ) {
                    Result::Ok(m) => m,
                    Result::Err(e) => {
                        return Result::Err(e);
                    },
                };
                out.push(m);
            }
            i = i + 1;
        }
        Result::Ok(out)
    }
}

/// Whether a file name ends in the source or header suffix.
pub(crate) fn has_source_suffix(name: &str) -> (r: bool) {
    let n = name.unicode_len();
    if n < 4 {
        return false;
    }
    let dot = name.get_char(n - 4) == '.';
    let is_erl = name.get_char(n - 3) == 'e' && name.get_char(n - 2) == 'r' && name.get_char(
        n - 1,
    ) == 'l';
    let is_hrl = name.get_char(n - 3) == 'h' && name.get_char(n - 2) == 'r' && name.get_char(
        n - 1,
    ) == 'l';
    dot && (is_erl || is_hrl)
}

} // verus!
