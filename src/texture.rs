//! A texture that shows its surface coordinates as colors.
use vstd::prelude::*;
use crate::geometry::{Point, ONE};

verus! {

/// The remainder of `n` by `d`, with the sign of `n`: `n - d * t` where `t`
/// is `n / d` rounded toward zero.
pub open spec fn rem_trunc(n: int, d: int) -> int {
    if n >= 0 {
        n % d
    } else {
        -((-n) % d)
    }
}

/// Maps a surface coordinate `(u, v)` to the red and green channels: the
/// fractional parts of `u` and `v`, with blue zero. Coordinates and
/// channels are fixed-point, `ONE` units per unit.
#[derive(Clone, Copy, Debug, PartialEq, Eq, Structural)]
pub struct UVTexture;

impl UVTexture {
    /// The color at `(u, v)`: `(u mod 1, v mod 1, 0)`, each remainder with
    /// the sign of its coordinate.
    pub fn color(&self, u: i64, v: i64) -> (r: Point)
        ensures
            r.x == rem_trunc(u as int, ONE as int),
            r.y == rem_trunc(v as int, ONE as int),
            r.z == 0,
            -ONE < r.x < ONE,
            -ONE < r.y < ONE,
    {
        Point { x: fraction(u), y: fraction(v), z: 0 }
    }
}

fn fraction(n: i64) -> (r: i64)
    ensures
        r == rem_trunc(n as int, ONE as int),
        -ONE < r < ONE,
{
    if n >= 0 {
        ((n as u64) % (ONE as u64)) as i64
    } else {
        let m: u64 = (-(n + 1)) as u64 + 1;
        assert(m == -n);
        -((m % (ONE as u64)) as i64)
    }
}

} // verus!
