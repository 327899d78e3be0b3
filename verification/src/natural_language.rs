//! Constants used by the natural-language layer of the bridge.

use vstd::prelude::*;

verus! {

/// The kinds of natural-language model.
#[derive(Debug, Clone, Copy, PartialEq, Eq, Structural)]
pub enum NLModelType {
    /// A model that tags text at the phrase level or higher.
    Classifier,
    /// A model that tags text at the token level.
    Sequence,
}

impl NLModelType {
    /// The number the native framework uses for this constant.
    pub open spec fn value_spec(self) -> i64 {
        match self {
            Self::Classifier => 0,
            Self::Sequence => 1,
        }
    }

    /// Returns the number the native framework uses for this constant.
    pub fn value(self) -> (r: i64)
        ensures
            r == self.value_spec(),
    {
        match self {
            Self::Classifier => 0,
            Self::Sequence => 1,
        }
    }
}

} // verus!
