use vstd::prelude::*;

verus! {

/// Status returned by every function of the C interface.
#[derive(Debug, Clone, Copy, PartialEq, Eq, Structural)]
pub enum RTreeError {
    Success,
    NullPointer,
    InvalidDimension,
    NodeNotLeaf,
}

/// The number that stands for each status at the C boundary.
pub open spec fn error_code(e: RTreeError) -> u16 {
    match e {
        RTreeError::Success => 0,
        RTreeError::NullPointer => 1,
        RTreeError::InvalidDimension => 2,
        RTreeError::NodeNotLeaf => 3,
    }
}

impl RTreeError {
    /// The status as the number the C interface returns.
    pub fn code(&self) -> (c: u16)
        ensures
            c == error_code(*self),
    {
        match self {
            RTreeError::Success => 0,
            RTreeError::NullPointer => 1,
            RTreeError::InvalidDimension => 2,
            RTreeError::NodeNotLeaf => 3,
        }
    }
}

/// Distinct statuses have distinct codes, and only `Success` has code 0.
pub proof fn lemma_error_codes_distinct(a: RTreeError, b: RTreeError)
    ensures
        error_code(a) == error_code(b) <==> a == b,
        error_code(a) == 0 <==> a == RTreeError::Success,
{
}

} // verus!
