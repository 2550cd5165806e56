//! Pure geometry on integer 2-D points: squared Euclidean distance, its
//! integer square root, and the axis-biased direction classifier.

use vstd::prelude::*;

verus! {

/// An absolute position reported by the device, in device units.
#[derive(Clone, Copy, Debug, PartialEq, Eq, Structural)]
pub struct Position {
    pub x: i32,
    pub y: i32,
}

/// The axis-aligned reading of a swipe.  `Down` means increasing `y`,
/// matching screen coordinates.
#[derive(Clone, Copy, Debug, PartialEq, Eq, Structural)]
pub enum Direction {
    Up,
    Down,
    Left,
    Right,
}

pub fn pos(x: i32, y: i32) -> (p: Position)
    ensures
        p == (Position { x, y }),
{
    Position { x, y }
}

pub open spec fn abs_i(x: int) -> int {
    if x < 0 {
        -x
    } else {
        x
    }
}

/// The squared Euclidean distance between two positions.
pub open spec fn dist2(a: Position, b: Position) -> int {
    (b.x - a.x) * (b.x - a.x) + (b.y - a.y) * (b.y - a.y)
}

/// `r` is the Euclidean distance between the arguments of `dist2 == n`,
/// rounded down to an integer.
pub open spec fn is_isqrt(n: int, r: int) -> bool {
    &&& r >= 0
    &&& r * r <= n
    &&& n < (r + 1) * (r + 1)
}

/// The direction classifier compares `|dx|` against `1.05 * |dy|`: side-to-side
/// travel is mechanically easier on a trackpad than up/down travel, so
/// near-diagonal motion defaults to a horizontal reading.  The bias 1.05 is
/// applied exactly as the ratio 21/20.
pub open spec fn spec_direction(a: Position, b: Position) -> Direction {
    let dx = b.x - a.x;
    let dy = b.y - a.y;
    if 20 * abs_i(dx) > 21 * abs_i(dy) {
        if dx > 0 {
            Direction::Right
        } else {
            Direction::Left
        }
    } else {
        if dy > 0 {
            Direction::Down
        } else {
            Direction::Up
        }
    }
}

/// Returns the squared Euclidean distance between two positions.
pub fn distance_squared(pos1: &Position, pos2: &Position) -> (d2: u128)
    ensures
        d2 == dist2(*pos1, *pos2),
{
    let dx: i64 = pos2.x as i64 - pos1.x as i64;
    let dy: i64 = pos2.y as i64 - pos1.y as i64;
    let dxw: i128 = dx as i128;
    let dyw: i128 = dy as i128;
    assert(0 <= dxw * dxw <= 0x1_0000_0000_0000_0000) by (nonlinear_arith)
        requires
            -0x1_0000_0000 <= dxw <= 0x1_0000_0000,
    ;
    assert(0 <= dyw * dyw <= 0x1_0000_0000_0000_0000) by (nonlinear_arith)
        requires
            -0x1_0000_0000 <= dyw <= 0x1_0000_0000,
    ;
    let d2: i128 = dxw * dxw + dyw * dyw;
    d2 as u128
}

/// Integer square root: the greatest `r` with `r * r <= n`.
pub fn int_sqrt(n: u128) -> (r: u64)
    ensures
        is_isqrt(n as int, r as int),
{
    let mut lo: u128 = 0;
    let mut hi: u128 = 0x1_0000_0000_0000_0000;
    assert(n < hi * hi) by (nonlinear_arith)
        requires
            hi == 0x1_0000_0000_0000_0000,
            n <= u128::MAX,
    ;
    while lo + 1 < hi
        invariant
            lo < hi <= 0x1_0000_0000_0000_0000,
            lo * lo <= n,
            n < hi * hi,
        decreases hi - lo,
    {
        let mid = lo + (hi - lo) / 2;
        assert(lo < mid < hi);
        assert(mid * mid < 0x1_0000_0000_0000_0000_0000_0000_0000_0000) by (nonlinear_arith)
            requires
                0 <= mid < 0x1_0000_0000_0000_0000,
        ;
        if mid * mid <= n {
            lo = mid;
        } else {
            hi = mid;
        }
    }
    assert(hi == lo + 1);
    lo as u64
}

/// Returns the Euclidean distance between two positions, rounded down to an
/// integer number of device units.
pub fn get_distance(pos1: &Position, pos2: &Position) -> (r: u64)
    ensures
        is_isqrt(dist2(*pos1, *pos2), r as int),
{
    let d2 = distance_squared(pos1, pos2);
    int_sqrt(d2)
}

/// Returns the direction of travel from `pos1` to `pos2`, biased toward the
/// horizontal axis as `spec_direction` describes.
pub fn get_direction(pos1: &Position, pos2: &Position) -> (d: Direction)
    ensures
        d == spec_direction(*pos1, *pos2),
{
    let dx: i64 = pos2.x as i64 - pos1.x as i64;
    let dy: i64 = pos2.y as i64 - pos1.y as i64;
    let adx: i64 = if dx < 0 { -dx } else { dx };
    let ady: i64 = if dy < 0 { -dy } else { dy };
    if 20 * adx > 21 * ady {
        if dx > 0 {
            Direction::Right
        } else {
            Direction::Left
        }
    } else {
        if dy > 0 {
            Direction::Down
        } else {
            Direction::Up
        }
    }
}

} // verus!
