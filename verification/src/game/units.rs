//! Coordinate carriers: relative offsets, absolute world coordinates, and
//! positions whose axes may be individually unknown.

use vstd::prelude::*;

verus! {

/// A relative position to an object in X and Y.
#[derive(Clone, Copy, Debug, PartialEq, Eq, PartialOrd, Ord)]
pub struct RelPos(pub i32, pub i32);

/// An absolute world position in X and Y.
#[derive(Clone, Copy, Debug, PartialEq, Eq, PartialOrd, Ord)]
pub struct AbsPos(pub i32, pub i32);

/// A position whose X and Y axes are each either known exactly or unknown.
#[derive(Clone, Copy, Debug, PartialEq, Eq, PartialOrd, Ord)]
pub struct OptPos(pub Option<i32>, pub Option<i32>);

impl Default for RelPos {
    /// The zero offset.
    fn default() -> (r: Self)
        ensures
            r.0 == 0 && r.1 == 0,
    {
        RelPos(0, 0)
    }
}

impl Default for AbsPos {
    /// The origin.
    fn default() -> (r: Self)
        ensures
            r.0 == 0 && r.1 == 0,
    {
        AbsPos(0, 0)
    }
}

impl Default for OptPos {
    /// Both axes unknown.
    fn default() -> (r: Self)
        ensures
            r.0 is None && r.1 is None,
    {
        OptPos(None, None)
    }
}

impl OptPos {
    /// The fully-known relative position, if both axes are known.
    pub fn try_conv(&self) -> (r: Option<RelPos>)
        ensures
            match r {
                Some(p) => self.0 == Some(p.0) && self.1 == Some(p.1),
                None => self.0 is None || self.1 is None,
            },
    {
        if let Some(x) = self.0 {
            if let Some(y) = self.1 {
                return Some(RelPos(x, y));
            }
        }
        None
    }
}

} // verus!
