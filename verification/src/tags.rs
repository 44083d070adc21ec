//! Data constructors that box native values.

use vstd::prelude::*;
use crate::syntax::Tag;

verus! {

/// The constructors that wrap a native value in a heap node.
#[derive(Clone, Copy, Debug, PartialEq, Eq, Structural)]
pub enum DataConstructor {
    /// The box of a number.
    BoxedNumber,
    /// The box of a string.
    BoxedString,
    /// The box of a symbol.
    BoxedSymbol,
    /// The box of a point in time with its zone.
    BoxedZdt,
}

impl DataConstructor {
    /// The tag that stands for this constructor in syntax trees.
    pub open spec fn spec_tag(self) -> Tag {
        match self {
            DataConstructor::BoxedNumber => 0,
            DataConstructor::BoxedString => 1,
            DataConstructor::BoxedSymbol => 2,
            DataConstructor::BoxedZdt => 3,
        }
    }

    /// The tag that stands for this constructor in syntax trees.
    pub fn tag(self) -> (t: Tag)
        ensures
            t == self.spec_tag(),
    {
        match self {
            DataConstructor::BoxedNumber => 0,
            DataConstructor::BoxedString => 1,
            DataConstructor::BoxedSymbol => 2,
            DataConstructor::BoxedZdt => 3,
        }
    }
}

} // verus!
