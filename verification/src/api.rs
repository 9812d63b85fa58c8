//! Values the REST layer exchanges with its clients, where they carry
//! decisions of their own: a boolean that arrives either as a JSON bool
//! or as an integer.

use vstd::prelude::*;

verus! {

/// A boolean as the REST layer accepts it: `true`/`false`, or an
/// integer where any non-zero value counts as true.
#[derive(Debug, Clone, Copy, PartialEq, Eq, Structural)]
pub enum ApiBool {
    Bool(bool),
    Integer(i8),
}

impl ApiBool {
    /// The boolean this value denotes.
    pub fn to_bool(self) -> (r: bool)
        ensures
            r == match self {
                ApiBool::Bool(b) => b,
                ApiBool::Integer(i) => i != 0,
            },
    {
        match self {
            ApiBool::Bool(b) => b,
            ApiBool::Integer(i) => i != 0,
        }
    }
}

} // verus!
