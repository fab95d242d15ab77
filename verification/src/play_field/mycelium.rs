//! Mycelium connections between mushrooms: the straight grid line between two
//! cells, the path check across the terrain, and the building of all connections.

use vstd::prelude::*;

use crate::mushrooms::definitions::{short_reach, GridOffset, MushroomDefinitions};
use crate::mushrooms::{
    connection_target_position, facing_target, within_reach_limits, Mushroom, MushroomDirection,
};
use crate::play_field::field::{connections_view, ConnectionView, PlayField};
use crate::play_field::position::GridPosition;
use crate::play_field::tiles::{spec_allows_mycelium, spec_mycelium_strength_modifier_percent};

verus! {

/// How far `v` still is from `target` when moving in direction `s` (`1` or `-1`).
pub open spec fn remaining(v: int, target: int, s: int) -> int {
    if s == 1 {
        target - v
    } else {
        v - target
    }
}

/// The state of the line drawing at cell `(x, y)` with error term `err`, heading to
/// `(x1, y1)` with steps `sx`, `sy` over distances `dx`, `dy`, is one the drawing
/// reaches: the error term is the integer distance of the cell from the ideal line.
pub open spec fn line_state_ok(
    x: int,
    y: int,
    err: int,
    x1: int,
    y1: int,
    dx: int,
    dy: int,
    sx: int,
    sy: int,
) -> bool {
    let a = remaining(x, x1, sx);
    let b = remaining(y, y1, sy);
    &&& sx == 1 || sx == -1
    &&& sy == 1 || sy == -1
    &&& 0 <= a <= dx
    &&& 0 <= b <= dy
    &&& err == dx - dy + dy * a - dx * b
    &&& -3 * dy <= 2 * err <= 3 * dx
}

/// One step of the line drawing keeps its state reachable and brings the cell
/// strictly closer to the target.
pub proof fn lemma_line_step(
    x: int,
    y: int,
    err: int,
    x1: int,
    y1: int,
    dx: int,
    dy: int,
    sx: int,
    sy: int,
)
    requires
        line_state_ok(x, y, err, x1, y1, dx, dy, sx, sy),
        !(x == x1 && y == y1),
    ensures
        ({
            let e2 = 2 * err;
            let nx = if e2 > -dy { x + sx } else { x };
            let err1 = if e2 > -dy { err - dy } else { err };
            let ny = if e2 < dx { y + sy } else { y };
            let err2 = if e2 < dx { err1 + dx } else { err1 };
            &&& line_state_ok(nx, ny, err2, x1, y1, dx, dy, sx, sy)
            &&& remaining(nx, x1, sx) + remaining(ny, y1, sy) < remaining(x, x1, sx) + remaining(
                y,
                y1,
                sy,
            )
            &&& (nx == x || nx == x + sx)
            &&& (ny == y || ny == y + sy)
        }),
{
    let a = remaining(x, x1, sx);
    let b = remaining(y, y1, sy);
    let e2 = 2 * err;
    assert(a > 0 || b > 0);
    if a == 0 {
        assert(dy * a == 0) by (nonlinear_arith)
            requires
                a == 0,
        ;
        assert(dx * b >= dx) by (nonlinear_arith)
            requires
                b >= 1,
                dx >= 0,
        ;
        assert(err <= -dy);
        assert(!(e2 > -dy));
    }
    if b == 0 {
        assert(dx * b == 0) by (nonlinear_arith)
            requires
                b == 0,
        ;
        assert(dy * a >= dy) by (nonlinear_arith)
            requires
                a >= 1,
                dy >= 0,
        ;
        assert(err >= dx);
        assert(!(e2 < dx));
    }
    assert(dy * (a - 1) == dy * a - dy) by (nonlinear_arith);
    assert(dx * (b - 1) == dx * b - dx) by (nonlinear_arith);
}

/// The cells from `(x, y)` on to `(x1, y1)` that Bresenham's line algorithm visits.
pub open spec fn line_cells(
    x: int,
    y: int,
    err: int,
    x1: int,
    y1: int,
    dx: int,
    dy: int,
    sx: int,
    sy: int,
) -> Seq<(int, int)>
    decreases (if line_state_ok(x, y, err, x1, y1, dx, dy, sx, sy) {
        remaining(x, x1, sx) + remaining(y, y1, sy)
    } else {
        0
    }),
{
    if !line_state_ok(x, y, err, x1, y1, dx, dy, sx, sy) || (x == x1 && y == y1) {
        seq![(x, y)]
    } else {
        proof {
            lemma_line_step(x, y, err, x1, y1, dx, dy, sx, sy);
        }
        let e2 = 2 * err;
        let nx = if e2 > -dy {
            x + sx
        } else {
            x
        };
        let err1 = if e2 > -dy {
            err - dy
        } else {
            err
        };
        let ny = if e2 < dx {
            y + sy
        } else {
            y
        };
        let err2 = if e2 < dx {
            err1 + dx
        } else {
            err1
        };
        seq![(x, y)] + line_cells(nx, ny, err2, x1, y1, dx, dy, sx, sy)
    }
}

/// The cells of the straight grid line from `(x0, y0)` to `(x1, y1)`, both included.
pub open spec fn spec_bresenham_line(x0: int, y0: int, x1: int, y1: int) -> Seq<(int, int)> {
    let dx = vstd::math::abs(x1 - x0) as int;
    let dy = vstd::math::abs(y1 - y0) as int;
    let sx = if x0 < x1 {
        1int
    } else {
        -1int
    };
    let sy = if y0 < y1 {
        1int
    } else {
        -1int
    };
    line_cells(x0, y0, dx - dy, x1, y1, dx, dy, sx, sy)
}

/// One step of a line: each coordinate stays or moves one cell in its direction,
/// and the cell changes.
pub open spec fn line_step(a: (int, int), b: (int, int), sx: int, sy: int) -> bool {
    &&& (b.0 == a.0 || b.0 == a.0 + sx)
    &&& (b.1 == a.1 || b.1 == a.1 + sy)
    &&& a != b
}

proof fn lemma_line_cells_shape(
    x: int,
    y: int,
    err: int,
    x1: int,
    y1: int,
    dx: int,
    dy: int,
    sx: int,
    sy: int,
)
    requires
        line_state_ok(x, y, err, x1, y1, dx, dy, sx, sy),
    ensures
        ({
            let s = line_cells(x, y, err, x1, y1, dx, dy, sx, sy);
            &&& s.len() >= 1
            &&& s[0] == (x, y)
            &&& s.last() == (x1, y1)
            &&& forall|i: int| 0 < i < s.len() ==> line_step(s[i - 1], #[trigger] s[i], sx, sy)
        }),
    decreases remaining(x, x1, sx) + remaining(y, y1, sy),
{
    if !(x == x1 && y == y1) {
        lemma_line_step(x, y, err, x1, y1, dx, dy, sx, sy);
        let e2 = 2 * err;
        let nx = if e2 > -dy {
            x + sx
        } else {
            x
        };
        let err1 = if e2 > -dy {
            err - dy
        } else {
            err
        };
        let ny = if e2 < dx {
            y + sy
        } else {
            y
        };
        let err2 = if e2 < dx {
            err1 + dx
        } else {
            err1
        };
        lemma_line_cells_shape(nx, ny, err2, x1, y1, dx, dy, sx, sy);
        let tail = line_cells(nx, ny, err2, x1, y1, dx, dy, sx, sy);
        let s = line_cells(x, y, err, x1, y1, dx, dy, sx, sy);
        assert(s == seq![(x, y)] + tail);
        assert forall|i: int| 0 < i < s.len() implies line_step(
            s[i - 1],
            #[trigger] s[i],
            sx,
            sy,
        ) by {
            if i > 1 {
                assert(s[i] == tail[i - 1]);
                assert(s[i - 1] == tail[i - 2]);
            } else {
                assert(s[1] == tail[0]);
                assert((nx, ny) != (x, y));
            }
        }
    }
}

/// The straight grid line from `(x0, y0)` to `(x1, y1)` starts at the first cell and
/// ends at the second, and each cell follows the one before it as a neighbour (a
/// side or a corner) one step closer in the direction of the end.
pub proof fn lemma_bresenham_line_shape(x0: int, y0: int, x1: int, y1: int)
    ensures
        ({
            let s = spec_bresenham_line(x0, y0, x1, y1);
            let sx = if x0 < x1 {
                1int
            } else {
                -1int
            };
            let sy = if y0 < y1 {
                1int
            } else {
                -1int
            };
            &&& s.len() >= 1
            &&& s[0] == (x0, y0)
            &&& s.last() == (x1, y1)
            &&& forall|i: int| 0 < i < s.len() ==> line_step(s[i - 1], #[trigger] s[i], sx, sy)
        }),
{
    let dx = vstd::math::abs(x1 - x0) as int;
    let dy = vstd::math::abs(y1 - y0) as int;
    let sx = if x0 < x1 {
        1int
    } else {
        -1int
    };
    let sy = if y0 < y1 {
        1int
    } else {
        -1int
    };
    assert(remaining(x0, x1, sx) == dx);
    assert(remaining(y0, y1, sy) == dy);
    assert(dy * dx == dx * dy) by (nonlinear_arith);
    assert(line_state_ok(x0, y0, dx - dy, x1, y1, dx, dy, sx, sy));
    lemma_line_cells_shape(x0, y0, dx - dy, x1, y1, dx, dy, sx, sy);
}

/// The next state of the line drawing: the cell after `(x, y)` and its error term.
pub open spec fn line_next(
    x: int,
    y: int,
    err: int,
    dx: int,
    dy: int,
    sx: int,
    sy: int,
) -> (int, int, int) {
    let e2 = 2 * err;
    let nx = if e2 > -dy {
        x + sx
    } else {
        x
    };
    let err1 = if e2 > -dy {
        err - dy
    } else {
        err
    };
    let ny = if e2 < dx {
        y + sy
    } else {
        y
    };
    let err2 = if e2 < dx {
        err1 + dx
    } else {
        err1
    };
    (nx, ny, err2)
}

/// Along a line that runs at least as far across as up or down, every step moves
/// one column, so the line has one cell per column.
proof fn lemma_line_cells_len_wide(
    x: int,
    y: int,
    err: int,
    x1: int,
    y1: int,
    dx: int,
    dy: int,
    sx: int,
    sy: int,
)
    requires
        line_state_ok(x, y, err, x1, y1, dx, dy, sx, sy),
        dy <= dx,
        -dy < 2 * err < 3 * dx - 2 * dy,
    ensures
        line_cells(x, y, err, x1, y1, dx, dy, sx, sy).len() == remaining(x, x1, sx) + 1,
    decreases remaining(x, x1, sx) + remaining(y, y1, sy),
{
    if !(x == x1 && y == y1) {
        lemma_line_step(x, y, err, x1, y1, dx, dy, sx, sy);
        let (nx, ny, err2) = line_next(x, y, err, dx, dy, sx, sy);
        assert(line_cells(x, y, err, x1, y1, dx, dy, sx, sy) == seq![(x, y)] + line_cells(
            nx,
            ny,
            err2,
            x1,
            y1,
            dx,
            dy,
            sx,
            sy,
        ));
        lemma_line_cells_len_wide(nx, ny, err2, x1, y1, dx, dy, sx, sy);
    }
}

/// Along a line that runs further up or down than across, every step moves one
/// row, so the line has one cell per row.
proof fn lemma_line_cells_len_tall(
    x: int,
    y: int,
    err: int,
    x1: int,
    y1: int,
    dx: int,
    dy: int,
    sx: int,
    sy: int,
)
    requires
        line_state_ok(x, y, err, x1, y1, dx, dy, sx, sy),
        dx < dy,
        2 * dx - 3 * dy < 2 * err < dx,
    ensures
        line_cells(x, y, err, x1, y1, dx, dy, sx, sy).len() == remaining(y, y1, sy) + 1,
    decreases remaining(x, x1, sx) + remaining(y, y1, sy),
{
    if !(x == x1 && y == y1) {
        lemma_line_step(x, y, err, x1, y1, dx, dy, sx, sy);
        let (nx, ny, err2) = line_next(x, y, err, dx, dy, sx, sy);
        assert(line_cells(x, y, err, x1, y1, dx, dy, sx, sy) == seq![(x, y)] + line_cells(
            nx,
            ny,
            err2,
            x1,
            y1,
            dx,
            dy,
            sx,
            sy,
        ));
        lemma_line_cells_len_tall(nx, ny, err2, x1, y1, dx, dy, sx, sy);
    }
}

/// The straight grid line from `(x0, y0)` to `(x1, y1)` has one cell more than the
/// larger of the two distances: one cell per column of a wide line, one per row of
/// a tall one.
pub proof fn lemma_bresenham_line_length(x0: int, y0: int, x1: int, y1: int)
    ensures
        spec_bresenham_line(x0, y0, x1, y1).len() == vstd::math::max(
            vstd::math::abs(x1 - x0) as int,
            vstd::math::abs(y1 - y0) as int,
        ) + 1,
{
    let dx = vstd::math::abs(x1 - x0) as int;
    let dy = vstd::math::abs(y1 - y0) as int;
    let sx = if x0 < x1 {
        1int
    } else {
        -1int
    };
    let sy = if y0 < y1 {
        1int
    } else {
        -1int
    };
    assert(remaining(x0, x1, sx) == dx);
    assert(remaining(y0, y1, sy) == dy);
    assert(dy * dx == dx * dy) by (nonlinear_arith);
    assert(line_state_ok(x0, y0, dx - dy, x1, y1, dx, dy, sx, sy));
    if dx == 0 && dy == 0 {
        assert(x0 == x1 && y0 == y1);
    } else if dy <= dx {
        lemma_line_cells_len_wide(x0, y0, dx - dy, x1, y1, dx, dy, sx, sy);
    } else {
        lemma_line_cells_len_tall(x0, y0, dx - dy, x1, y1, dx, dy, sx, sy);
    }
}

/// The distance between two positions is small enough for the line algorithm's
/// error term to fit in an `i32`.
pub open spec fn line_fits(from: GridPosition, to: GridPosition) -> bool {
    &&& 3 * vstd::math::abs(to.x - from.x) <= i32::MAX
    &&& 3 * vstd::math::abs(to.y - from.y) <= i32::MAX
}

/// Bresenham's line algorithm for grid positions
/// https://en.wikipedia.org/wiki/Bresenham%27s_line_algorithm
pub fn bresenham_line(from: GridPosition, to: GridPosition) -> (points: Vec<GridPosition>)
    requires
        line_fits(from, to),
    ensures
        points@.map_values(|p: GridPosition| (p.x as int, p.y as int)) == spec_bresenham_line(
            from.x as int,
            from.y as int,
            to.x as int,
            to.y as int,
        ),
        points@ == line_positions(from, to),
{
    let mut points: Vec<GridPosition> = Vec::new();

    let mut x0 = from.x;
    let mut y0 = from.y;
    let x1 = to.x;
    let y1 = to.y;

    let dx = if x1 >= x0 {
        x1 - x0
    } else {
        x0 - x1
    };
    let dy = if y1 >= y0 {
        y1 - y0
    } else {
        y0 - y1
    };
    let sx: i32 = if x0 < x1 {
        1
    } else {
        -1
    };
    let sy: i32 = if y0 < y1 {
        1
    } else {
        -1
    };
    let mut err = dx - dy;
    let ghost whole = spec_bresenham_line(from.x as int, from.y as int, to.x as int, to.y as int);
    proof {
        assert(remaining(x0 as int, x1 as int, sx as int) == dx);
        assert(remaining(y0 as int, y1 as int, sy as int) == dy);
        assert(dy * dx == dx * dy) by (nonlinear_arith);
    }

    loop
        invariant_except_break
            line_state_ok(
                x0 as int,
                y0 as int,
                err as int,
                x1 as int,
                y1 as int,
                dx as int,
                dy as int,
                sx as int,
                sy as int,
            ),
            points@.map_values(|p: GridPosition| (p.x as int, p.y as int)) + line_cells(
                x0 as int,
                y0 as int,
                err as int,
                x1 as int,
                y1 as int,
                dx as int,
                dy as int,
                sx as int,
                sy as int,
            ) == whole,
        invariant
            x1 == to.x,
            y1 == to.y,
            3 * dx <= i32::MAX,
            3 * dy <= i32::MAX,
            whole == spec_bresenham_line(from.x as int, from.y as int, to.x as int, to.y as int),
            dx >= 0,
            dy >= 0,
        ensures
            points@.map_values(|p: GridPosition| (p.x as int, p.y as int)) == whole,
        decreases remaining(x0 as int, x1 as int, sx as int) + remaining(
            y0 as int,
            y1 as int,
            sy as int,
        ),
    {
        let ghost before = points@;
        points.push(GridPosition::new(x0, y0));
        proof {
            assert(points@.map_values(|p: GridPosition| (p.x as int, p.y as int)) =~= before.map_values(
                |p: GridPosition| (p.x as int, p.y as int),
            ).push((x0 as int, y0 as int)));
        }

        if x0 == x1 && y0 == y1 {
            proof {
                assert(points@.map_values(|p: GridPosition| (p.x as int, p.y as int)) =~= whole);
            }
            break;
        }
        proof {
            lemma_line_step(
                x0 as int,
                y0 as int,
                err as int,
                x1 as int,
                y1 as int,
                dx as int,
                dy as int,
                sx as int,
                sy as int,
            );
        }
        let ghost (gx, gy, gerr) = (x0 as int, y0 as int, err as int);

        let e2 = 2 * err;
        if e2 > -dy {
            err -= dy;
            x0 += sx;
        }
        if e2 < dx {
            err += dx;
            y0 += sy;
        }
        proof {
            let tail = line_cells(
                x0 as int,
                y0 as int,
                err as int,
                x1 as int,
                y1 as int,
                dx as int,
                dy as int,
                sx as int,
                sy as int,
            );
            assert(line_cells(
                gx,
                gy,
                gerr,
                x1 as int,
                y1 as int,
                dx as int,
                dy as int,
                sx as int,
                sy as int,
            ) == seq![(gx, gy)] + tail);
            assert(points@.map_values(|p: GridPosition| (p.x as int, p.y as int)) + tail =~= before.map_values(
                |p: GridPosition| (p.x as int, p.y as int),
            ) + (seq![(gx, gy)] + tail));
        }
    }

    proof {
        assert(points@ =~= line_positions(from, to)) by {
            assert forall|i: int| 0 <= i < points@.len() implies points@[i] == line_positions(
                from,
                to,
            )[i] by {
                assert(points@.map_values(|p: GridPosition| (p.x as int, p.y as int))[i] == (
                points@[i].x as int,
                points@[i].y as int,
                ));
            }
        }
    }
    points
}

/// The position with the given integer coordinates.
pub open spec fn to_position(c: (int, int)) -> GridPosition {
    GridPosition { x: c.0 as i32, y: c.1 as i32 }
}

/// The positions of the straight grid line from `from` to `to`, both included.
pub open spec fn line_positions(from: GridPosition, to: GridPosition) -> Seq<GridPosition> {
    spec_bresenham_line(from.x as int, from.y as int, to.x as int, to.y as int).map_values(
        |c: (int, int)| to_position(c),
    )
}

/// The strength of mycelium, in percent, after it has passed the tiles of `path` that
/// lie on the field, starting from full strength: each tile multiplies it by its
/// strength modifier.
pub open spec fn path_strength_percent(field: PlayField, path: Seq<GridPosition>) -> int
    decreases path.len(),
{
    if path.len() == 0 {
        100
    } else {
        let s = path_strength_percent(field, path.drop_last());
        match field.spec_get_tile(path.last()) {
            Some(t) => s * spec_mycelium_strength_modifier_percent(t) / 100,
            None => s,
        }
    }
}

/// Whether mycelium may grow through every tile of `path` that lies on the field.
pub open spec fn path_passable(field: PlayField, path: Seq<GridPosition>) -> bool {
    forall|i: int|
        0 <= i < path.len() ==> match #[trigger] field.spec_get_tile(path[i]) {
            Some(t) => spec_allows_mycelium(t),
            None => true,
        }
}

/// Whether mycelium can connect along `path`: every tile lets it through and some
/// strength is left at the end.
pub open spec fn path_connects(field: PlayField, path: Seq<GridPosition>) -> bool {
    path_passable(field, path) && path_strength_percent(field, path) > 0
}

/// The strength along a path never exceeds full strength.
proof fn lemma_path_strength_bounds(field: PlayField, path: Seq<GridPosition>)
    ensures
        0 <= path_strength_percent(field, path) <= 100,
    decreases path.len(),
{
    if path.len() > 0 {
        lemma_path_strength_bounds(field, path.drop_last());
        let s = path_strength_percent(field, path.drop_last());
        if let Some(t) = field.spec_get_tile(path.last()) {
            let m = spec_mycelium_strength_modifier_percent(t);
            assert(0 <= s * m / 100 <= 100) by (nonlinear_arith)
                requires
                    0 <= s <= 100,
                    0 <= m <= 100,
            ;
        }
    }
}

/// Find a valid path for mycelium between two positions, with its strength in
/// percent (100 is full strength)
pub fn find_mycelium_path(from: GridPosition, to: GridPosition, play_field: &PlayField) -> (r:
    Option<(Vec<GridPosition>, u32)>)
    requires
        line_fits(from, to),
        play_field.wf(),
    ensures
        match r {
            Some((path, strength)) => {
                &&& path@ == line_positions(from, to)
                &&& path_connects(*play_field, path@)
                &&& strength == vstd::math::min(
                    path_strength_percent(*play_field, path@),
                    100,
                )
            },
            None => !path_connects(*play_field, line_positions(from, to)),
        },
{
    let path = bresenham_line(from, to);

    let mut total_strength: u32 = 100;
    let mut can_connect = true;

    // Check each tile along the path
    let mut i: usize = 0;
    while i < path.len()
        invariant_except_break
            can_connect,
        invariant
            0 <= i <= path.len(),
            play_field.wf(),
            total_strength == path_strength_percent(*play_field, path@.take(i as int)),
            total_strength <= 100,
            can_connect ==> path_passable(*play_field, path@.take(i as int)),
        ensures
            can_connect ==> i == path.len(),
            !can_connect ==> !path_passable(*play_field, path@),
        decreases path.len() - i,
    {
        let pos = path[i];
        proof {
            assert(path@.take(i + 1).drop_last() =~= path@.take(i as int));
            assert(path@.take(i + 1).last() == pos);
        }
        if let Some(tile) = play_field.get_tile(pos) {
            if !tile.allows_mycelium() {
                can_connect = false;
                proof {
                    assert(!match play_field.spec_get_tile(path@[i as int]) {
                        Some(t) => spec_allows_mycelium(t),
                        None => true,
                    });
                }
                break;
            }
            let modifier = tile.mycelium_strength_modifier();
            assert(total_strength * modifier <= 100 * 100) by (nonlinear_arith)
                requires
                    total_strength <= 100,
                    modifier <= 100,
            ;
            total_strength = total_strength * modifier / 100;
        }
        proof {
            lemma_path_strength_bounds(*play_field, path@.take(i + 1));
            assert forall|k: int| 0 <= k < i + 1 implies match #[trigger] play_field.spec_get_tile(
                path@.take(i + 1)[k],
            ) {
                Some(t) => spec_allows_mycelium(t),
                None => true,
            } by {
                if k < i {
                    assert(path@.take(i + 1)[k] == path@.take(i as int)[k]);
                }
            }
        }
        i = i + 1;
    }
    proof {
        if can_connect {
            assert(path@.take(path@.len() as int) =~= path@);
        }
    }

    if can_connect && total_strength > 0 {
        let strength = if total_strength < 100 {
            total_strength
        } else {
            100
        };
        Some((path, strength))
    } else {
        None
    }
}

/// Connection building state to avoid rebuilding every frame
pub struct ConnectionBuilder {
    pub dirty: bool,
}

impl Default for ConnectionBuilder {
    fn default() -> (r: Self)
        ensures
            !r.dirty,
    {
        ConnectionBuilder { dirty: false }
    }
}

impl ConnectionBuilder {
    /// Connections are rebuilt when a mushroom was added, moved or removed, or when
    /// a rebuild was asked for.
    pub fn needs_rebuild(&self, any_new: bool, any_moved: bool, any_removed: bool) -> (r: bool)
        ensures
            r == (any_new || any_moved || any_removed || self.dirty),
    {
        any_new || any_moved || any_removed || self.dirty
    }
}

/// A mushroom on the field as the connection builder sees it: its entity, its cell,
/// its type and, if it has one, its facing.
#[derive(Clone, Copy, Debug)]
pub struct PlacedMushroom {
    pub entity: u64,
    pub position: GridPosition,
    pub mushroom: Mushroom,
    pub direction: Option<MushroomDirection>,
}

/// The cell that connection point `cp` of mushroom `m` points at.
pub open spec fn connection_target(m: PlacedMushroom, cp: GridOffset) -> GridPosition {
    facing_target(m.position, m.direction, cp)
}

/// Whether one of the mushrooms is the entity `e`.
pub open spec fn is_listed(ms: Seq<PlacedMushroom>, e: u64) -> bool {
    exists|j: int| 0 <= j < ms.len() && #[trigger] ms[j].entity == e
}

/// The connection that connection point `cp` of mushroom `m` makes, if any: the cell
/// it points at must hold a listed mushroom and mycelium must get through.
pub open spec fn point_connection(
    field: PlayField,
    ms: Seq<PlacedMushroom>,
    m: PlacedMushroom,
    cp: GridOffset,
) -> Seq<ConnectionView> {
    let target = connection_target(m, cp);
    let path = line_positions(m.position, target);
    match field.spec_get(target) {
        Some(te) => if is_listed(ms, te) && path_connects(field, path) {
            seq![
                ConnectionView {
                    from_pos: m.position,
                    to_pos: target,
                    from_entity: m.entity,
                    to_entity: te,
                    strength_percent: vstd::math::min(path_strength_percent(field, path), 100)
                        as u32,
                    active: false,
                    path,
                },
            ]
        } else {
            Seq::empty()
        },
        None => Seq::empty(),
    }
}

/// The connections that the connection points `cps` of mushroom `m` make, in order.
pub open spec fn mushroom_connections(
    field: PlayField,
    ms: Seq<PlacedMushroom>,
    m: PlacedMushroom,
    cps: Seq<GridOffset>,
) -> Seq<ConnectionView>
    decreases cps.len(),
{
    if cps.len() == 0 {
        Seq::empty()
    } else {
        mushroom_connections(field, ms, m, cps.drop_last()) + point_connection(
            field,
            ms,
            m,
            cps.last(),
        )
    }
}

/// The connections that the first `n` mushrooms make, mushroom by mushroom.
pub open spec fn built_connections(
    field: PlayField,
    ms: Seq<PlacedMushroom>,
    defs: MushroomDefinitions,
    n: int,
) -> Seq<ConnectionView>
    decreases n,
{
    if n <= 0 {
        Seq::empty()
    } else {
        built_connections(field, ms, defs, n - 1) + match defs.spec_get(ms[n - 1].mushroom.0) {
            Some(d) => mushroom_connections(field, ms, ms[n - 1], d.connection_points),
            None => Seq::empty(),
        }
    }
}

/// Two fields with the same entities and tiles.
pub open spec fn same_ground(a: PlayField, b: PlayField) -> bool {
    &&& a.entities == b.entities
    &&& a.tiles == b.tiles
    &&& a.width == b.width
    &&& a.height == b.height
}

proof fn lemma_same_ground_strength(a: PlayField, b: PlayField, path: Seq<GridPosition>)
    requires
        same_ground(a, b),
    ensures
        path_strength_percent(a, path) == path_strength_percent(b, path),
        path_passable(a, path) == path_passable(b, path),
    decreases path.len(),
{
    if path.len() > 0 {
        lemma_same_ground_strength(a, b, path.drop_last());
    }
    assert forall|i: int| 0 <= i < path.len() implies #[trigger] a.spec_get_tile(path[i])
        == b.spec_get_tile(path[i]) by {}
    if path_passable(a, path) {
        assert forall|i: int| 0 <= i < path.len() implies match #[trigger] b.spec_get_tile(path[i]) {
            Some(t) => spec_allows_mycelium(t),
            None => true,
        } by {
            assert(a.spec_get_tile(path[i]) == b.spec_get_tile(path[i]));
        }
    }
    if path_passable(b, path) {
        assert forall|i: int| 0 <= i < path.len() implies match #[trigger] a.spec_get_tile(path[i]) {
            Some(t) => spec_allows_mycelium(t),
            None => true,
        } by {
            assert(a.spec_get_tile(path[i]) == b.spec_get_tile(path[i]));
        }
    }
}

/// Whether some mushroom of the list is the entity `e`
fn contains_entity(mushroom_list: &[PlacedMushroom], e: u64) -> (r: bool)
    ensures
        r == is_listed(mushroom_list@, e),
{
    let mut j: usize = 0;
    while j < mushroom_list.len()
        invariant
            0 <= j <= mushroom_list.len(),
            forall|k: int| 0 <= k < j ==> mushroom_list@[k].entity != e,
        decreases mushroom_list.len() - j,
    {
        if mushroom_list[j].entity == e {
            return true;
        }
        j = j + 1;
    }
    false
}

/// Build mycelium connections in the play field based on mushroom positions and
/// types: the old connections are cleared, then each mushroom in turn connects
/// through each of its connection points, turned by its facing, to the mushroom in
/// the cell the point names, wherever mycelium can grow along the straight line.
pub fn build_playfield_connections(
    play_field: &mut PlayField,
    mushroom_list: &[PlacedMushroom],
    definitions: &MushroomDefinitions,
)
    requires
        old(play_field).wf(),
        forall|i: int|
            0 <= i < mushroom_list@.len() ==> within_reach_limits(
                #[trigger] mushroom_list@[i].position,
            ),
    ensures
        same_ground(*final(play_field), *old(play_field)),
        connections_view(final(play_field).connections@) == built_connections(
            *old(play_field),
            mushroom_list@,
            *definitions,
            mushroom_list@.len() as int,
        ),
{
    let ghost field0 = *play_field;
    // Clear existing connections
    play_field.clear_connections();
    proof {
        assert(connections_view(play_field.connections@) =~= Seq::<ConnectionView>::empty());
    }

    // Build connections for each mushroom based on its connection points
    let mut i: usize = 0;
    while i < mushroom_list.len()
        invariant
            0 <= i <= mushroom_list.len(),
            field0.wf(),
            same_ground(*play_field, field0),
            forall|j: int|
                0 <= j < mushroom_list@.len() ==> within_reach_limits(
                    #[trigger] mushroom_list@[j].position,
                ),
            connections_view(play_field.connections@) == built_connections(
                field0,
                mushroom_list@,
                *definitions,
                i as int,
            ),
        decreases mushroom_list.len() - i,
    {
        let m = mushroom_list[i];
        let ghost before = connections_view(play_field.connections@);
        // Get the mushroom definition
        match definitions.get(m.mushroom.0) {
            None => {},
            Some(definition) => {
                let points = &definition.connection_points;
                let mut k: usize = 0;
                while k < points.len()
                    invariant
                        0 <= k <= points.len(),
                        short_reach(points@),
                        field0.wf(),
                        same_ground(*play_field, field0),
                        within_reach_limits(m.position),
                        m == mushroom_list@[i as int],
                        connections_view(play_field.connections@) == before
                            + mushroom_connections(
                            field0,
                            mushroom_list@,
                            m,
                            points@.take(k as int),
                        ),
                    decreases points.len() - k,
                {
                    let connection_point = points[k];
                    let ghost mid = connections_view(play_field.connections@);
                    proof {
                        assert(points@.take(k + 1).drop_last() =~= points@.take(k as int));
                        assert(points@.take(k + 1).last() == connection_point);
                        assert(-2 <= points@[k as int].x <= 2 && -2 <= points@[k as int].y <= 2);
                    }
                    // Calculate the actual target position, turned by the facing if any
                    let target_pos = connection_target_position(
                        m.position,
                        m.direction,
                        &connection_point,
                    );
                    proof {
                        assert(target_pos == connection_target(m, connection_point));
                        assert(line_fits(m.position, target_pos));
                        lemma_same_ground_strength(
                            *play_field,
                            field0,
                            line_positions(m.position, target_pos),
                        );
                    }
                    // Check if there's a mushroom at the target position
                    if let Some(target_entity) = play_field.get(target_pos) {
                        // Verify it's actually a mushroom
                        if contains_entity(mushroom_list, target_entity) {
                            // Create connection with pathfinding
                            if let Some((path, strength)) = find_mycelium_path(
                                m.position,
                                target_pos,
                                play_field,
                            ) {
                                play_field.add_connection(
                                    m.position,
                                    target_pos,
                                    m.entity,
                                    target_entity,
                                    strength,
                                    path,
                                );
                            }
                        }
                    }
                    proof {
                        assert(connections_view(play_field.connections@) =~= mid + point_connection(
                            field0,
                            mushroom_list@,
                            m,
                            connection_point,
                        ));
                    }
                    k = k + 1;
                }
                proof {
                    assert(points@.take(points@.len() as int) =~= points@);
                }
            },
        }
        proof {
            assert(mushroom_list@[i as int] == m);
        }
        i = i + 1;
    }
}

/// What every connection built for mushroom `m` of the list `ms` satisfies: it
/// runs from `m` to a listed mushroom along a straight grid line that starts in
/// `m`'s cell and ends in the target's, with some strength, at most full.
pub open spec fn sound_connection(ms: Seq<PlacedMushroom>, c: ConnectionView) -> bool {
    &&& c.path.len() >= 1
    &&& c.path[0] == c.from_pos
    &&& c.path.last() == c.to_pos
    &&& 1 <= c.strength_percent <= 100
    &&& !c.active
    &&& is_listed(ms, c.to_entity)
    &&& exists|i: int|
        0 <= i < ms.len() && #[trigger] ms[i].entity == c.from_entity && ms[i].position
            == c.from_pos
}

proof fn lemma_line_positions_ends(from: GridPosition, to: GridPosition)
    ensures
        line_positions(from, to).len() >= 1,
        line_positions(from, to)[0] == from,
        line_positions(from, to).last() == to,
{
    lemma_bresenham_line_shape(from.x as int, from.y as int, to.x as int, to.y as int);
}

proof fn lemma_mushroom_connections_sound(
    field: PlayField,
    ms: Seq<PlacedMushroom>,
    i: int,
    cps: Seq<GridOffset>,
)
    requires
        0 <= i < ms.len(),
    ensures
        forall|k: int|
            0 <= k < mushroom_connections(field, ms, ms[i], cps).len() ==> sound_connection(
                ms,
                #[trigger] mushroom_connections(field, ms, ms[i], cps)[k],
            ),
    decreases cps.len(),
{
    if cps.len() > 0 {
        lemma_mushroom_connections_sound(field, ms, i, cps.drop_last());
        let a = mushroom_connections(field, ms, ms[i], cps.drop_last());
        let b = point_connection(field, ms, ms[i], cps.last());
        let target = connection_target(ms[i], cps.last());
        let path = line_positions(ms[i].position, target);
        lemma_line_positions_ends(ms[i].position, target);
        lemma_path_strength_bounds(field, path);
        assert forall|k: int| 0 <= k < (a + b).len() implies sound_connection(
            ms,
            #[trigger] (a + b)[k],
        ) by {
            if k < a.len() {
                assert((a + b)[k] == a[k]);
            } else {
                assert((a + b)[k] == b[k - a.len()]);
                assert(ms[i].entity == (a + b)[k].from_entity);
            }
        }
    }
}

/// Every connection the builder makes runs from a listed mushroom's cell to a
/// listed mushroom, along a straight grid line from the one cell to the other,
/// inactive, with a strength of at least one and at most a hundred percent.
pub proof fn lemma_built_connections_sound(
    field: PlayField,
    ms: Seq<PlacedMushroom>,
    defs: MushroomDefinitions,
    n: int,
)
    requires
        n <= ms.len(),
    ensures
        forall|k: int|
            0 <= k < built_connections(field, ms, defs, n).len() ==> sound_connection(
                ms,
                #[trigger] built_connections(field, ms, defs, n)[k],
            ),
    decreases n,
{
    if n > 0 {
        lemma_built_connections_sound(field, ms, defs, n - 1);
        let a = built_connections(field, ms, defs, n - 1);
        let b = match defs.spec_get(ms[n - 1].mushroom.0) {
            Some(d) => mushroom_connections(field, ms, ms[n - 1], d.connection_points),
            None => Seq::empty(),
        };
        if let Some(d) = defs.spec_get(ms[n - 1].mushroom.0) {
            lemma_mushroom_connections_sound(field, ms, n - 1, d.connection_points);
        }
        assert forall|k: int| 0 <= k < (a + b).len() implies sound_connection(
            ms,
            #[trigger] (a + b)[k],
        ) by {
            if k < a.len() {
                assert((a + b)[k] == a[k]);
            } else {
                assert((a + b)[k] == b[k - a.len()]);
            }
        }
        assert(built_connections(field, ms, defs, n) == a + b);
    }
}

proof fn lemma_mushroom_connections_ground(
    a: PlayField,
    b: PlayField,
    ms: Seq<PlacedMushroom>,
    m: PlacedMushroom,
    cps: Seq<GridOffset>,
)
    requires
        same_ground(a, b),
    ensures
        mushroom_connections(a, ms, m, cps) == mushroom_connections(b, ms, m, cps),
    decreases cps.len(),
{
    if cps.len() > 0 {
        lemma_mushroom_connections_ground(a, b, ms, m, cps.drop_last());
        let target = connection_target(m, cps.last());
        lemma_same_ground_strength(a, b, line_positions(m.position, target));
        assert(a.spec_get(target) == b.spec_get(target));
        assert(point_connection(a, ms, m, cps.last()) == point_connection(b, ms, m, cps.last()));
    }
}

/// The connections built depend only on the ground: two fields with the same
/// entities and tiles get the same connections, whatever connections they had, so
/// rebuilding a field's connections gives the same ones again.
pub proof fn lemma_connections_depend_on_ground(
    a: PlayField,
    b: PlayField,
    ms: Seq<PlacedMushroom>,
    defs: MushroomDefinitions,
    n: int,
)
    requires
        same_ground(a, b),
    ensures
        built_connections(a, ms, defs, n) == built_connections(b, ms, defs, n),
    decreases n,
{
    if n > 0 {
        lemma_connections_depend_on_ground(a, b, ms, defs, n - 1);
        if let Some(d) = defs.spec_get(ms[n - 1].mushroom.0) {
            lemma_mushroom_connections_ground(a, b, ms, ms[n - 1], d.connection_points);
        }
    }
}

} // verus!
