//! Grid position component and utilities

use vstd::prelude::*;

verus! {

/// Position on the grid
#[derive(Copy, Clone, Debug, PartialEq, Eq, Structural, Hash)]
pub struct GridPosition {
    pub x: i32,
    pub y: i32,
}

/// The eight neighbours of `(x, y)`: left, right, below, above, then the four
/// diagonals anticlockwise from bottom-left.
pub open spec fn spec_adjacent(x: int, y: int) -> Seq<(int, int)> {
    seq![
        (x - 1, y),
        (x + 1, y),
        (x, y - 1),
        (x, y + 1),
        (x - 1, y - 1),
        (x + 1, y - 1),
        (x + 1, y + 1),
        (x - 1, y + 1),
    ]
}

/// Positions whose coordinates can move one step in every direction without overflow.
pub open spec fn steppable(p: GridPosition) -> bool {
    i32::MIN < p.x < i32::MAX && i32::MIN < p.y < i32::MAX
}

/// The coordinates of a position as a pair of integers.
pub open spec fn coords(p: GridPosition) -> (int, int) {
    (p.x as int, p.y as int)
}

impl GridPosition {
    pub fn new(x: i32, y: i32) -> (r: Self)
        ensures
            r.x == x,
            r.y == y,
    {
        Self { x, y }
    }

    /// Get all adjacent positions
    pub fn adjacent(&self) -> (r: [GridPosition; 8])
        requires
            steppable(*self),
        ensures
            r@.map_values(|p: GridPosition| coords(p)) == spec_adjacent(self.x as int, self.y as int),
    {
        let r = [
            GridPosition::new(self.x - 1, self.y),
            GridPosition::new(self.x + 1, self.y),
            GridPosition::new(self.x, self.y - 1),
            GridPosition::new(self.x, self.y + 1),
            GridPosition::new(self.x - 1, self.y - 1),
            GridPosition::new(self.x + 1, self.y - 1),
            GridPosition::new(self.x + 1, self.y + 1),
            GridPosition::new(self.x - 1, self.y + 1),
        ];
        assert(r@.map_values(|p: GridPosition| coords(p)) =~= spec_adjacent(
            self.x as int,
            self.y as int,
        ));
        r
    }

    /// Get all adjacent cardinal positions
    pub fn adjacent_cardinal(&self) -> (r: [GridPosition; 4])
        requires
            steppable(*self),
        ensures
            r@.map_values(|p: GridPosition| coords(p)) == spec_adjacent(
                self.x as int,
                self.y as int,
            ).take(4),
    {
        let r = [
            GridPosition::new(self.x - 1, self.y),
            GridPosition::new(self.x + 1, self.y),
            GridPosition::new(self.x, self.y - 1),
            GridPosition::new(self.x, self.y + 1),
        ];
        assert(r@.map_values(|p: GridPosition| coords(p)) =~= spec_adjacent(
            self.x as int,
            self.y as int,
        ).take(4));
        r
    }

    /// Get all adjacent diagonal positions
    pub fn adjacent_diagonal(&self) -> (r: [GridPosition; 4])
        requires
            steppable(*self),
        ensures
            r@.map_values(|p: GridPosition| coords(p)) == spec_adjacent(
                self.x as int,
                self.y as int,
            ).skip(4),
    {
        let r = [
            GridPosition::new(self.x - 1, self.y - 1),
            GridPosition::new(self.x + 1, self.y - 1),
            GridPosition::new(self.x + 1, self.y + 1),
            GridPosition::new(self.x - 1, self.y + 1),
        ];
        assert(r@.map_values(|p: GridPosition| coords(p)) =~= spec_adjacent(
            self.x as int,
            self.y as int,
        ).skip(4));
        r
    }
}

/// The neighbours are the cardinal ones followed by the diagonal ones; each differs
/// from the centre by at most one in each coordinate and none is the centre.
pub proof fn lemma_adjacent_structure(x: int, y: int)
    ensures
        spec_adjacent(x, y) == spec_adjacent(x, y).take(4) + spec_adjacent(x, y).skip(4),
        spec_adjacent(x, y).len() == 8,
        forall|i: int|
            0 <= i < 8 ==> {
                let (ax, ay) = #[trigger] spec_adjacent(x, y)[i];
                &&& -1 <= ax - x <= 1
                &&& -1 <= ay - y <= 1
                &&& (ax, ay) != (x, y)
            },
        spec_adjacent(x, y).no_duplicates(),
{
    assert(spec_adjacent(x, y) =~= spec_adjacent(x, y).take(4) + spec_adjacent(x, y).skip(4));
}

} // verus!
