//! The two reference points of a scale calibration, picked by clicking on
//! the floor plan.

use vstd::prelude::*;

verus! {

/// The calibration points picked so far. Each point is a position relative
/// to the plan, carried as the bit patterns of its two coordinates.
#[derive(Debug, Clone, Copy)]
pub struct CalibrationClicks {
    pub a: Option<(u64, u64)>,
    pub b: Option<(u64, u64)>,
}

impl CalibrationClicks {
    /// No point picked yet.
    pub fn new() -> (c: Self)
        ensures
            c.a is None,
            c.b is None,
    {
        CalibrationClicks { a: None, b: None }
    }

    /// A click at `p`. The first click picks point A, the second picks B
    /// and completes the pair, which is returned; a click after a complete
    /// pair starts over with a new A.
    pub fn click(&mut self, p: (u64, u64)) -> (pair: Option<((u64, u64), (u64, u64))>)
        ensures
            old(self).a is None ==> final(self).a == Some(p) && final(self).b is None
                && pair is None,
            old(self).b is None ==> (old(self).a matches Some(a) ==> final(self).a == Some(a)
                && final(self).b == Some(p) && pair == Some((a, p))),
            old(self).a is Some && old(self).b is Some ==> final(self).a == Some(p)
                && final(self).b is None && pair is None,
    {
        match self.a {
            None => {
                self.a = Some(p);
                self.b = None;
                None
            },
            Some(a) => match self.b {
                None => {
                    self.b = Some(p);
                    Some((a, p))
                },
                Some(_) => {
                    self.a = Some(p);
                    self.b = None;
                    None
                },
            },
        }
    }
}

} // verus!
