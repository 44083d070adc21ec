//! Source-location tags carried by compiled closure templates.

use vstd::prelude::*;

verus! {

/// Identifies a place in the source text. It is carried through for
/// diagnostics only and never affects reduction.
#[derive(Clone, Copy, Debug, PartialEq, Eq, Structural)]
pub struct Smid(pub u32);

impl Smid {
    /// A tag that stands for no real place; distinct numbers give distinct tags.
    pub fn fake(id: u32) -> (smid: Smid)
        ensures
            smid == Smid(id),
    {
        Smid(id)
    }
}

} // verus!
