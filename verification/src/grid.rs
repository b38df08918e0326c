//! Points with integer coordinates and the uniform square grid they snap to.
//!
//! A grid of cell size `cell` has a node at every point whose two coordinates
//! are multiples of `cell`. Snapping moves a point to the node nearest to it,
//! one axis at a time; a coordinate that lies exactly half way between two
//! nodes goes to the one farther from zero.

use vstd::prelude::*;

verus! {

/// A point of the plane, in whole units.
#[derive(Clone, Copy, Debug, PartialEq, Eq, Structural)]
pub struct Point {
    pub x: i64,
    pub y: i64,
}

/// The multiple of `cell` nearest to `v`; of two that are equally near, the
/// one farther from zero.
pub open spec fn snap_coord(v: int, cell: int) -> int
    recommends
        cell > 0,
{
    if v >= 0 {
        ((2 * v + cell) / (2 * cell)) * cell
    } else {
        -(((2 * (-v) + cell) / (2 * cell)) * cell)
    }
}

/// Whether `v` is a multiple of `cell`.
pub open spec fn is_multiple(v: int, cell: int) -> bool {
    v % cell == 0
}

/// Whether `p` is a node of the grid.
pub open spec fn on_grid(p: Point, cell: i64) -> bool {
    is_multiple(p.x as int, cell as int) && is_multiple(p.y as int, cell as int)
}

/// Whether the node nearest to `p` has coordinates that an `i64` can hold.
pub open spec fn snappable(p: Point, cell: i64) -> bool {
    &&& i64::MIN <= snap_coord(p.x as int, cell as int) <= i64::MAX
    &&& i64::MIN <= snap_coord(p.y as int, cell as int) <= i64::MAX
}

/// The node nearest to `p`. Meaningful where `snappable(p, cell)`.
pub open spec fn snapped(p: Point, cell: i64) -> Point
    recommends
        cell > 0,
        snappable(p, cell),
{
    Point {
        x: snap_coord(p.x as int, cell as int) as i64,
        y: snap_coord(p.y as int, cell as int) as i64,
    }
}

/// The quotient that snapping is built on: for `a >= 0`, `(a + cell) / (2 * cell)`
/// times `cell` differs from `a / 2` by at most `cell / 2`.
proof fn lemma_round_bounds(a: int, cell: int)
    requires
        a >= 0,
        cell > 0,
    ensures
        (a + cell) / (2 * cell) >= 0,
        a - cell < 2 * (((a + cell) / (2 * cell)) * cell) <= a + cell,
{
    let q = (a + cell) / (2 * cell);
    vstd::arithmetic::div_mod::lemma_fundamental_div_mod(a + cell, 2 * cell);
    vstd::arithmetic::div_mod::lemma_mod_bound(a + cell, 2 * cell);
    vstd::arithmetic::div_mod::lemma_div_pos_is_pos(a + cell, 2 * cell);
    assert((2 * cell) * q == 2 * (q * cell)) by (nonlinear_arith);
}

/// Snapping gives a multiple of the cell size.
pub proof fn lemma_snap_coord_multiple(v: int, cell: int)
    requires
        cell > 0,
    ensures
        is_multiple(snap_coord(v, cell), cell),
{
    let a = if v >= 0 { 2 * v } else { 2 * (-v) };
    let q = (a + cell) / (2 * cell);
    vstd::arithmetic::div_mod::lemma_mod_multiples_basic(q, cell);
    if v < 0 {
        assert(-(q * cell) == (-q) * cell) by (nonlinear_arith);
        vstd::arithmetic::div_mod::lemma_mod_multiples_basic(-q, cell);
    }
}

/// Snapping moves a coordinate by at most half a cell.
pub proof fn lemma_snap_coord_near(v: int, cell: int)
    requires
        cell > 0,
    ensures
        -cell <= 2 * (snap_coord(v, cell) - v) <= cell,
{
    if v >= 0 {
        lemma_round_bounds(2 * v, cell);
    } else {
        lemma_round_bounds(2 * (-v), cell);
    }
}

/// A multiple of the cell size snaps to itself.
pub proof fn lemma_snap_coord_fixed(v: int, cell: int)
    requires
        cell > 0,
        is_multiple(v, cell),
    ensures
        snap_coord(v, cell) == v,
{
    let s = snap_coord(v, cell);
    lemma_snap_coord_multiple(v, cell);
    lemma_snap_coord_near(v, cell);
    lemma_multiples_apart(s, v, cell);
}

/// Two multiples of `cell` that are less than `cell` apart are equal.
proof fn lemma_multiples_apart(a: int, b: int, cell: int)
    requires
        cell > 0,
        is_multiple(a, cell),
        is_multiple(b, cell),
        -cell < a - b < cell,
    ensures
        a == b,
{
    vstd::arithmetic::div_mod::lemma_fundamental_div_mod(a, cell);
    vstd::arithmetic::div_mod::lemma_fundamental_div_mod(b, cell);
    let qa = a / cell;
    let qb = b / cell;
    assert(a - b == cell * (qa - qb)) by (nonlinear_arith)
        requires
            a == cell * qa,
            b == cell * qb,
    ;
    if qa - qb >= 1 {
        assert(cell * (qa - qb) >= cell) by (nonlinear_arith)
            requires
                cell > 0,
                qa - qb >= 1,
        ;
    } else if qa - qb <= -1 {
        assert(cell * (qa - qb) <= -cell) by (nonlinear_arith)
            requires
                cell > 0,
                qa - qb <= -1,
        ;
    }
}

/// No multiple of the cell size is nearer to `v` than the one it snaps to.
pub proof fn lemma_snap_coord_nearest(v: int, cell: int, m: int)
    requires
        cell > 0,
        is_multiple(m, cell),
    ensures
        distance(v, snap_coord(v, cell)) <= distance(v, m),
{
    let s = snap_coord(v, cell);
    lemma_snap_coord_multiple(v, cell);
    lemma_snap_coord_near(v, cell);
    if distance(v, m) < distance(v, s) {
        // Both lie within half a cell of `v`, so they are less than a cell apart.
        lemma_multiples_apart(s, m, cell);
    }
}

/// A coordinate half way between two multiples goes to the one farther from
/// zero, on either side of zero.
pub proof fn lemma_snap_coord_tie(k: int, cell: int)
    requires
        k >= 0,
        cell > 0,
        cell % 2 == 0,
    ensures
        snap_coord(k * cell + cell / 2, cell) == (k + 1) * cell,
        snap_coord(-(k * cell + cell / 2), cell) == -((k + 1) * cell),
{
    let v = k * cell + cell / 2;
    assert(k * cell >= 0) by (nonlinear_arith)
        requires
            k >= 0,
            cell > 0,
    ;
    assert(2 * v + cell == (k + 1) * (2 * cell)) by (nonlinear_arith)
        requires
            v == k * cell + cell / 2,
            cell % 2 == 0,
    ;
    vstd::arithmetic::div_mod::lemma_div_multiples_vanish(k + 1, 2 * cell);
}

/// How far apart two coordinates are.
pub open spec fn distance(a: int, b: int) -> int {
    if a >= b {
        a - b
    } else {
        b - a
    }
}

/// Snapping twice is snapping once.
pub proof fn lemma_snap_idempotent(p: Point, cell: i64)
    requires
        cell > 0,
        snappable(p, cell),
    ensures
        on_grid(snapped(p, cell), cell),
        snappable(snapped(p, cell), cell),
        snapped(snapped(p, cell), cell) == snapped(p, cell),
{
    let s = snapped(p, cell);
    lemma_snap_coord_multiple(p.x as int, cell as int);
    lemma_snap_coord_multiple(p.y as int, cell as int);
    lemma_snap_coord_fixed(s.x as int, cell as int);
    lemma_snap_coord_fixed(s.y as int, cell as int);
}

/// A number is a multiple of the cell size exactly when its negative is.
proof fn lemma_multiple_of_negative(v: int, cell: int)
    requires
        cell > 0,
    ensures
        is_multiple(v, cell) == is_multiple(-v, cell),
{
    if is_multiple(v, cell) {
        vstd::arithmetic::div_mod::lemma_fundamental_div_mod(v, cell);
        let q = v / cell;
        assert(-v == (-q) * cell) by (nonlinear_arith)
            requires
                v == cell * q,
        ;
        vstd::arithmetic::div_mod::lemma_mod_multiples_basic(-q, cell);
    }
    if is_multiple(-v, cell) {
        vstd::arithmetic::div_mod::lemma_fundamental_div_mod(-v, cell);
        let q = (-v) / cell;
        assert(v == (-q) * cell) by (nonlinear_arith)
            requires
                -v == cell * q,
        ;
        vstd::arithmetic::div_mod::lemma_mod_multiples_basic(-q, cell);
    }
}

/// Whether `v` is a multiple of `cell`.
fn axis_on_grid(v: i64, cell: i64) -> (ok: bool)
    requires
        cell > 0,
    ensures
        ok == is_multiple(v as int, cell as int),
{
    let c: i128 = cell as i128;
    let w: i128 = v as i128;
    if w >= 0 {
        w % c == 0
    } else {
        proof {
            lemma_multiple_of_negative(v as int, cell as int);
        }
        (-w) % c == 0
    }
}

/// Whether `point` is a node of the grid of cell size `cell`.
pub fn is_on_grid(point: Point, cell: i64) -> (ok: bool)
    requires
        cell > 0,
    ensures
        ok == on_grid(point, cell),
{
    axis_on_grid(point.x, cell) && axis_on_grid(point.y, cell)
}

/// One axis of `snap`, computed wide enough that nothing overflows.
fn snap_axis(v: i64, cell: i64) -> (r: i128)
    requires
        cell > 0,
    ensures
        r == snap_coord(v as int, cell as int),
{
    let c: i128 = cell as i128;
    let w: i128 = v as i128;
    if w >= 0 {
        proof {
            lemma_round_bounds(2 * w, c as int);
        }
        let q: i128 = (2 * w + c) / (2 * c);
        q * c
    } else {
        proof {
            lemma_round_bounds(2 * (-w), c as int);
        }
        let q: i128 = (2 * (-w) + c) / (2 * c);
        -(q * c)
    }
}

/// Moves `point` to the nearest node of the grid of cell size `cell`.
///
/// The caller supplies a positive cell size and a point whose node an `i64`
/// can hold; `get_cursor_position` makes that test for a point that comes
/// from outside.
pub fn snap(point: Point, cell: i64) -> (node: Point)
    requires
        cell > 0,
        snappable(point, cell),
    ensures
        node == snapped(point, cell),
        on_grid(node, cell),
        snappable(node, cell),
        snapped(node, cell) == node,
{
    proof {
        lemma_snap_idempotent(point, cell);
    }
    let x: i128 = snap_axis(point.x, cell);
    let y: i128 = snap_axis(point.y, cell);
    Point { x: x as i64, y: y as i64 }
}

/// The cursor that the build tools work with: the projected position, if the
/// projector gave one, moved to its grid node.
///
/// There is no cursor where the projector reported none (no window, the
/// cursor outside the viewport, no hit on the world plane), nor where the
/// node nearest to the position lies beyond what an `i64` can hold.
pub fn get_cursor_position(projected: Option<Point>, cell: i64) -> (cursor: Option<Point>)
    requires
        cell > 0,
    ensures
        cursor == cursor_of(projected, cell),
        cursor is Some ==> on_grid(cursor->0, cell) && cursor_of(cursor, cell) == cursor,
{
    match projected {
        None => None,
        Some(point) => {
            let x: i128 = snap_axis(point.x, cell);
            let y: i128 = snap_axis(point.y, cell);
            let low: i128 = i64::MIN as i128;
            let high: i128 = i64::MAX as i128;
            if low <= x && x <= high && low <= y && y <= high {
                proof {
                    lemma_snap_idempotent(point, cell);
                }
                Some(Point { x: x as i64, y: y as i64 })
            } else {
                None
            }
        },
    }
}

/// What `get_cursor_position` returns.
pub open spec fn cursor_of(projected: Option<Point>, cell: i64) -> Option<Point> {
    match projected {
        Some(point) if snappable(point, cell) => Some(snapped(point, cell)),
        _ => None,
    }
}

} // verus!
