//! The transforms of the frame being drawn.

use crate::objects2d::{ONE_BITS, ZERO_BITS};
use vstd::prelude::*;

verus! {

/// The sixteen words of the 4×4 identity matrix, column by column.
pub open spec fn identity_matrix() -> Seq<u32> {
    seq![
        ONE_BITS, ZERO_BITS, ZERO_BITS, ZERO_BITS,
        ZERO_BITS, ONE_BITS, ZERO_BITS, ZERO_BITS,
        ZERO_BITS, ZERO_BITS, ONE_BITS, ZERO_BITS,
        ZERO_BITS, ZERO_BITS, ZERO_BITS, ONE_BITS,
    ]
}

/// The 4×4 identity matrix, column by column.
pub fn identity() -> (matrix: [u32; 16])
    ensures
        matrix@ == identity_matrix(),
{
    let matrix: [u32; 16] = [
        ONE_BITS, ZERO_BITS, ZERO_BITS, ZERO_BITS,
        ZERO_BITS, ONE_BITS, ZERO_BITS, ZERO_BITS,
        ZERO_BITS, ZERO_BITS, ONE_BITS, ZERO_BITS,
        ZERO_BITS, ZERO_BITS, ZERO_BITS, ONE_BITS,
    ];
    assert(matrix@ =~= identity_matrix());
    matrix
}

/// View and projection of one frame, each a 4×4 matrix of sixteen words in
/// column-major order.
#[derive(Clone, Copy, Debug, PartialEq, Eq)]
pub struct LianaState {
    pub view: [u32; 16],
    pub projection: [u32; 16],
}

impl LianaState {
    /// A frame state with both transforms set to the identity.
    pub fn new() -> (state: Self)
        ensures
            state.view@ == identity_matrix(),
            state.projection@ == identity_matrix(),
    {
        LianaState { view: identity(), projection: identity() }
    }
}

} // verus!
