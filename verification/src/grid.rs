//! Moves on a square grid world, used to try out solvers on a small environment.
use vstd::prelude::*;

verus! {

/// A move to a neighbouring cell of a square grid; `North` decreases the second
/// coordinate and `West` the first.
#[derive(PartialEq, Eq, PartialOrd, Ord, Debug, Copy, Clone, Hash, Structural)]
pub enum GridAction {
    North,
    South,
    East,
    West,
}

impl GridAction {
    /// The cell reached by the move from `coords` on a grid of side `bounds`, if it
    /// stays on the grid.
    pub open spec fn spec_next_coords(self, coords: (usize, usize), bounds: usize) -> Option<(usize, usize)> {
        let (x, y) = coords;
        match self {
            GridAction::North => if y > 0 {
                Some((x, (y - 1) as usize))
            } else {
                None
            },
            GridAction::South => if y + 1 < bounds {
                Some((x, (y + 1) as usize))
            } else {
                None
            },
            GridAction::East => if x + 1 < bounds {
                Some(((x + 1) as usize, y))
            } else {
                None
            },
            GridAction::West => if x > 0 {
                Some(((x - 1) as usize, y))
            } else {
                None
            },
        }
    }

    /// Where the move leads from `coords` on a grid of side `bounds`, or `None` if it
    /// would leave the grid.
    pub fn next_coords(&self, coords: &(usize, usize), bounds: usize) -> (r: Option<(usize, usize)>)
        ensures
            r == self.spec_next_coords(*coords, bounds),
    {
        let (x, y) = *coords;
        match self {
            GridAction::North => if y > 0 {
                Some((x, y - 1))
            } else {
                None
            },
            GridAction::South => if y < bounds && y + 1 < bounds {
                Some((x, y + 1))
            } else {
                None
            },
            GridAction::East => if x < bounds && x + 1 < bounds {
                Some((x + 1, y))
            } else {
                None
            },
            GridAction::West => if x > 0 {
                Some((x - 1, y))
            } else {
                None
            },
        }
    }

    /// `seq![self]` if the move stays on the grid from `coords`, otherwise empty.
    pub open spec fn spec_if_available(self, coords: (usize, usize), bounds: usize) -> Seq<GridAction> {
        if self.spec_next_coords(coords, bounds) is Some {
            seq![self]
        } else {
            seq![]
        }
    }

    /// The moves that stay on the grid from `coords`, in the order North, South, East,
    /// West.
    pub open spec fn spec_available(coords: (usize, usize), bounds: usize) -> Seq<GridAction> {
        GridAction::North.spec_if_available(coords, bounds) + GridAction::South.spec_if_available(
            coords,
            bounds,
        ) + GridAction::East.spec_if_available(coords, bounds) + GridAction::West.spec_if_available(
            coords,
            bounds,
        )
    }

    /// The moves that stay on the grid from `coords`.
    pub fn available_actions(coords: (usize, usize), bounds: usize) -> (r: AvailableActions)
        ensures
            r.spec_remaining() == Self::spec_available(coords, bounds),
    {
        let mut actions: Vec<GridAction> = Vec::new();
        if GridAction::North.next_coords(&coords, bounds).is_some() {
            actions.push(GridAction::North);
        }
        assert(actions@ =~= GridAction::North.spec_if_available(coords, bounds));
        if GridAction::South.next_coords(&coords, bounds).is_some() {
            actions.push(GridAction::South);
        }
        assert(actions@ =~= GridAction::North.spec_if_available(coords, bounds)
            + GridAction::South.spec_if_available(coords, bounds));
        if GridAction::East.next_coords(&coords, bounds).is_some() {
            actions.push(GridAction::East);
        }
        assert(actions@ =~= GridAction::North.spec_if_available(coords, bounds)
            + GridAction::South.spec_if_available(coords, bounds)
            + GridAction::East.spec_if_available(coords, bounds));
        if GridAction::West.next_coords(&coords, bounds).is_some() {
            actions.push(GridAction::West);
        }
        assert(actions@ =~= Self::spec_available(coords, bounds));
        let r = AvailableActions { actions, next: 0 };
        assert(r.spec_remaining() =~= actions@);
        r
    }
}

/// The moves available from a cell, handed out one at a time.
pub struct AvailableActions {
    actions: Vec<GridAction>,
    next: usize,
}

impl AvailableActions {
    /// The moves not handed out yet.
    pub closed spec fn spec_remaining(&self) -> Seq<GridAction> {
        self.actions@.subrange(self.next as int, self.actions@.len() as int)
    }

    #[verifier::type_invariant]
    closed spec fn wf(&self) -> bool {
        self.next <= self.actions@.len()
    }

    /// Hands out the next move, if any is left.
    pub fn next(&mut self) -> (r: Option<GridAction>)
        ensures
            old(self).spec_remaining().len() == 0 ==> r is None && final(self).spec_remaining()
                == old(self).spec_remaining(),
            old(self).spec_remaining().len() > 0 ==> r == Some(old(self).spec_remaining()[0])
                && final(self).spec_remaining() == old(self).spec_remaining().drop_first(),
    {
        proof {
            use_type_invariant(&*self);
        }
        if self.next < self.actions.len() {
            let a = self.actions[self.next];
            self.next = self.next + 1;
            proof {
                assert(self.spec_remaining() =~= old(self).spec_remaining().drop_first());
            }
            Some(a)
        } else {
            None
        }
    }

    /// The moves not handed out yet.
    pub fn to_vec(&self) -> (r: Vec<GridAction>)
        ensures
            r@ == self.spec_remaining(),
    {
        proof {
            use_type_invariant(self);
        }
        let mut out: Vec<GridAction> = Vec::new();
        let mut i = self.next;
        while i < self.actions.len()
            invariant
                self.next <= i <= self.actions@.len(),
                out@ == self.actions@.subrange(self.next as int, i as int),
            decreases self.actions.len() - i,
        {
            out.push(self.actions[i]);
            i = i + 1;
            proof {
                assert(out@ =~= self.actions@.subrange(self.next as int, i as int));
            }
        }
        out
    }
}

} // verus!
