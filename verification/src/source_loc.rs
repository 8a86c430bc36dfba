//! Source locations for diagnostics.

use vstd::prelude::*;

verus! {

/// Where in the source a construct was found: unknown, or a position.
///
/// Locations decorate diagnostics only; they never affect the meaning of
/// parsed or typed constructs.
#[derive(Debug, Clone, Copy, PartialEq, Eq, Structural)]
pub enum SourceLoc {
    /// No location information.
    Unknown,
    /// Line and column, both counted from one.
    At { line: usize, column: usize },
}

impl SourceLoc {
    /// An unknown location.
    pub fn none() -> (r: SourceLoc)
        ensures
            r is Unknown,
    {
        SourceLoc::Unknown
    }

    /// A known line/column position.
    pub fn at(line: usize, column: usize) -> (r: SourceLoc)
        ensures
            r == (SourceLoc::At { line, column }),
    {
        SourceLoc::At { line, column }
    }
}

} // verus!
