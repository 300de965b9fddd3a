//! The outcome of one call and the integer that stands for it at the
//! boundary.
use vstd::prelude::*;

verus! {

/// Status code for a call whose greeting was produced.
pub const STATUS_SUCCESS: i32 = 0;

/// Status code for a call whose bytes were not valid UTF-8.
pub const STATUS_INVALID_ENCODING: i32 = -1;

/// How one call ended.
#[derive(Clone, Copy, Debug, PartialEq, Eq, Structural)]
pub enum InvocationResult {
    /// The bytes decoded and the greeting was produced.
    Success,
    /// The bytes were not valid UTF-8 from end to end; nothing was produced.
    InvalidEncoding,
}

impl InvocationResult {
    /// The status code of this outcome, as a mathematical function.
    pub open spec fn code(self) -> int {
        match self {
            InvocationResult::Success => 0,
            InvocationResult::InvalidEncoding => -1,
        }
    }

    /// Collapses the outcome into the one integer the boundary can carry.
    ///
    /// The mapping is total, and the code depends on the variant alone:
    /// zero for success and for nothing else.
    pub fn status_code(self) -> (code: i32)
        ensures
            code == self.code(),
            code == STATUS_SUCCESS <==> self == InvocationResult::Success,
            code == STATUS_INVALID_ENCODING <==> self == InvocationResult::InvalidEncoding,
    {
        match self {
            InvocationResult::Success => STATUS_SUCCESS,
            InvocationResult::InvalidEncoding => STATUS_INVALID_ENCODING,
        }
    }
}

/// The status mapping loses nothing: two outcomes have the same code only
/// if they are the same outcome, and zero stands for success alone.
pub proof fn lemma_status_codes_distinct(a: InvocationResult, b: InvocationResult)
    ensures
        a.code() == b.code() <==> a == b,
        a.code() == 0 <==> a == InvocationResult::Success,
        a.code() == 0 || a.code() == -1,
{
}

} // verus!
