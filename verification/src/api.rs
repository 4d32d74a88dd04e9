use vstd::prelude::*;

verus! {

/// A move request as the service boundary hands it to the engine:
/// zero-based row and column of the target cell.
#[derive(Debug, Clone, Copy, PartialEq, Eq, Structural)]
pub struct MoveRequest {
    pub row: usize,
    pub col: usize,
}

} // verus!
