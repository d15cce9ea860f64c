//! The states of a pull request.

use vstd::prelude::*;

verus! {

/// Where a pull request stands.
#[derive(Debug, Clone, Copy, PartialEq, Eq, Structural)]
pub enum Status {
    Open,
    Merged,
    Closed,
}

impl Status {
    /// The sentence that describes each state.
    pub open spec fn description(self) -> Seq<char> {
        match self {
            Status::Open => "Pull request đang mở"@,
            Status::Merged => "Pull request đã được gộp"@,
            Status::Closed => "Pull request đã bị đóng"@,
        }
    }

    /// The sentence that describes this state.
    pub fn describe(&self) -> (r: &'static str)
        ensures
            r@ == self.description(),
    {
        match self {
            Status::Open => "Pull request đang mở",
            Status::Merged => "Pull request đã được gộp",
            Status::Closed => "Pull request đã bị đóng",
        }
    }
}

} // verus!
