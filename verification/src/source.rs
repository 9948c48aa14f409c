//! Source positions attached to every syntax node.

use vstd::prelude::*;

verus! {

/// A source location: the line and column where a construct begins.
///
/// Positions are opaque to this crate: they are attached at construction,
/// never computed here, and immutable thereafter. Every node carries one so
/// that diagnostics downstream never lack a location.
#[derive(Clone, Copy, Debug, PartialEq, Eq, Structural)]
pub struct Pos {
    pub line: u64,
    pub column: u64,
}

impl Pos {
    /// Pairs a line with a column.
    pub fn new(line: u64, column: u64) -> (p: Pos)
        ensures
            p.line == line,
            p.column == column,
    {
        Pos { line, column }
    }
}

} // verus!
