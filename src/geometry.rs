//! Fixed-point points, uniform contractions and general affine maps.
use vstd::prelude::*;

verus! {

/// Number of fixed-point units in one scene unit.
pub const ONE: i64 = 65536;

/// Largest magnitude of a point coordinate that the maps accept.
pub const COORD_BOUND: i64 = 0x8000_0000;

/// Largest denominator of a contraction ratio or of an affine map.
pub const DEN_BOUND: i64 = 0x4000_0000;

/// Largest magnitude of a linear entry of an affine map.
pub const ENTRY_BOUND: i64 = 0x2000_0000;

/// Largest magnitude of a translation entry of an affine map.
pub const SHIFT_BOUND: i64 = 0x2000_0000_0000_0000;

/// A point in space, each coordinate in units of `1 / ONE`.
#[derive(Clone, Copy, Debug, PartialEq, Eq, Structural)]
pub struct Point {
    pub x: i64,
    pub y: i64,
    pub z: i64,
}

/// Division that rounds toward zero, as integer division on the magnitude.
pub open spec fn div_trunc(n: int, den: int) -> int {
    if n >= 0 {
        n / den
    } else {
        -((-n) / den)
    }
}

pub open spec fn coord_in_range(v: int) -> bool {
    -COORD_BOUND <= v <= COORD_BOUND
}

impl Point {
    /// Every coordinate lies within `COORD_BOUND` of the origin.
    pub open spec fn in_range(self) -> bool {
        coord_in_range(self.x as int) && coord_in_range(self.y as int) && coord_in_range(
            self.z as int,
        )
    }

    pub fn new(x: i64, y: i64, z: i64) -> (r: Point)
        ensures
            r == (Point { x, y, z }),
    {
        Point { x, y, z }
    }

    /// Whether every coordinate lies within `COORD_BOUND` of the origin.
    pub fn is_in_range(&self) -> (r: bool)
        ensures
            r == self.in_range(),
    {
        -COORD_BOUND <= self.x && self.x <= COORD_BOUND && -COORD_BOUND <= self.y && self.y
            <= COORD_BOUND && -COORD_BOUND <= self.z && self.z <= COORD_BOUND
    }
}

/// A uniform scaling by `num / den` about `center`.
#[derive(Clone, Copy, Debug, PartialEq, Eq, Structural)]
pub struct Contraction {
    pub center: Point,
    pub num: i64,
    pub den: i64,
}

/// One coordinate of a point moved toward `c` by the ratio `num / den`.
pub open spec fn contract_coord_spec(p: int, c: int, num: int, den: int) -> int {
    c + div_trunc((p - c) * num, den)
}

impl Contraction {
    /// The map is well formed: its center is in range and its ratio lies in
    /// `[0, 1]` with a bounded denominator. Such a map never moves a point
    /// farther from its center.
    pub open spec fn wf(self) -> bool {
        &&& self.center.in_range()
        &&& 0 < self.den <= DEN_BOUND
        &&& 0 <= self.num <= self.den
    }

    /// The ratio lies strictly between zero and one.
    pub open spec fn is_contracting(self) -> bool {
        0 < self.num < self.den
    }

    /// The ratio is one: every point stays where it is.
    pub open spec fn is_identity(self) -> bool {
        self.num == self.den
    }

    pub open spec fn apply_spec(self, p: Point) -> Point {
        Point {
            x: contract_coord_spec(p.x as int, self.center.x as int, self.num as int, self.den as int) as i64,
            y: contract_coord_spec(p.y as int, self.center.y as int, self.num as int, self.den as int) as i64,
            z: contract_coord_spec(p.z as int, self.center.z as int, self.num as int, self.den as int) as i64,
        }
    }

    /// A map whose ratio is `num / den` about `center`.
    pub fn scale_about_point(center: Point, num: i64, den: i64) -> (r: Contraction)
        ensures
            r == (Contraction { center, num, den }),
    {
        Contraction { center, num, den }
    }

    /// Whether the ratio lies strictly between zero and one.
    pub fn check_contracting(&self) -> (r: bool)
        ensures
            r == self.is_contracting(),
    {
        0 < self.num && self.num < self.den
    }

    /// The image of `p`: each coordinate moves toward the center by the
    /// ratio, rounding toward the input coordinate.
    pub fn apply(&self, p: &Point) -> (r: Point)
        requires
            self.wf(),
            p.in_range(),
        ensures
            r == self.apply_spec(*p),
            r.in_range(),
    {
        Point {
            x: contract_coord(p.x, self.center.x, self.num, self.den),
            y: contract_coord(p.y, self.center.y, self.num, self.den),
            z: contract_coord(p.z, self.center.z, self.num, self.den),
        }
    }
}

/// For `0 <= a` and `0 <= num <= den`: `0 <= a * num / den <= a`.
proof fn lemma_scaled_down(a: int, num: int, den: int)
    requires
        0 <= a,
        0 <= num <= den,
        0 < den,
    ensures
        0 <= a * num / den <= a,
        a * num <= a * den,
{
    assert(0 <= a * num <= a * den) by (nonlinear_arith)
        requires
            0 <= a,
            0 <= num <= den,
    ;
    vstd::arithmetic::div_mod::lemma_div_is_ordered(a * num, a * den, den);
    vstd::arithmetic::div_mod::lemma_div_pos_is_pos(a * num, den);
    assert(a * den == den * a) by (nonlinear_arith);
    vstd::arithmetic::div_mod::lemma_div_multiples_vanish(a, den);
}

/// A well-formed contraction keeps a point in range.
pub proof fn lemma_contraction_in_range(m: Contraction, p: Point)
    requires
        m.wf(),
        p.in_range(),
    ensures
        m.apply_spec(p).in_range(),
{
    lemma_contract_coord(p.x as int, m.center.x as int, m.num as int, m.den as int);
    lemma_contract_coord(p.y as int, m.center.y as int, m.num as int, m.den as int);
    lemma_contract_coord(p.z as int, m.center.z as int, m.num as int, m.den as int);
}

proof fn lemma_contract_coord(p: int, c: int, num: int, den: int)
    requires
        coord_in_range(p),
        coord_in_range(c),
        0 < den,
        0 <= num <= den,
    ensures
        p <= c ==> p <= contract_coord_spec(p, c, num, den) <= c,
        c <= p ==> c <= contract_coord_spec(p, c, num, den) <= p,
{
    if p - c >= 0 {
        lemma_scaled_down(p - c, num, den);
    } else {
        lemma_scaled_down(c - p, num, den);
        assert((p - c) * num == -((c - p) * num)) by (nonlinear_arith);
    }
}

/// A map of ratio one fixes every point in range.
pub proof fn lemma_identity_fixes(m: Contraction, p: Point)
    requires
        m.wf(),
        m.is_identity(),
        p.in_range(),
    ensures
        m.apply_spec(p) == p,
{
    lemma_ratio_one(p.x as int, m.center.x as int, m.den as int);
    lemma_ratio_one(p.y as int, m.center.y as int, m.den as int);
    lemma_ratio_one(p.z as int, m.center.z as int, m.den as int);
}

proof fn lemma_ratio_one(p: int, c: int, den: int)
    requires
        0 < den,
    ensures
        contract_coord_spec(p, c, den, den) == p,
{
    let a = if p - c >= 0 { p - c } else { c - p };
    assert(a * den == den * a) by (nonlinear_arith);
    vstd::arithmetic::div_mod::lemma_div_multiples_vanish(a, den);
    assert((p - c) * den == -((c - p) * den)) by (nonlinear_arith);
}

fn contract_coord(p: i64, c: i64, num: i64, den: i64) -> (r: i64)
    requires
        coord_in_range(p as int),
        coord_in_range(c as int),
        0 < den <= DEN_BOUND,
        0 <= num <= den,
    ensures
        r == contract_coord_spec(p as int, c as int, num as int, den as int),
        coord_in_range(r as int),
        p <= c ==> p <= r <= c,
        c <= p ==> c <= r <= p,
{
    let d: i64 = p - c;
    if d >= 0 {
        proof {
            lemma_scaled_down(d as int, num as int, den as int);
            assert(d * num <= 0x1_0000_0000 * 0x4000_0000) by (nonlinear_arith)
                requires
                    0 <= d <= 0x1_0000_0000,
                    0 <= num <= 0x4000_0000,
            ;
        }
        let q: u64 = (d as u64 * num as u64) / den as u64;
        c + q as i64
    } else {
        let m: i64 = -d;
        proof {
            lemma_scaled_down(m as int, num as int, den as int);
            assert(m * num <= 0x1_0000_0000 * 0x4000_0000) by (nonlinear_arith)
                requires
                    0 <= m <= 0x1_0000_0000,
                    0 <= num <= 0x4000_0000,
            ;
            assert((p - c) * num == -(m * num)) by (nonlinear_arith)
                requires
                    m == -(p - c),
            ;
        }
        let q: u64 = (m as u64 * num as u64) / den as u64;
        c - q as i64
    }
}

/// An affine map `p -> (A p + t) / den` with integer entries, dividing
/// toward zero. It carries the model/view transform of a scene.
#[derive(Clone, Copy, Debug, PartialEq, Eq, Structural)]
pub struct Affine {
    pub row_x: Point,
    pub row_y: Point,
    pub row_z: Point,
    pub shift: Point,
    pub den: i64,
}

pub open spec fn entry_in_range(v: int) -> bool {
    -ENTRY_BOUND <= v <= ENTRY_BOUND
}

pub open spec fn shift_in_range(v: int) -> bool {
    -SHIFT_BOUND <= v <= SHIFT_BOUND
}

pub open spec fn row_in_range(r: Point) -> bool {
    entry_in_range(r.x as int) && entry_in_range(r.y as int) && entry_in_range(r.z as int)
}

/// The dot product of a row with a point, plus a translation entry.
pub open spec fn row_dot(r: Point, p: Point, t: int) -> int {
    r.x * p.x + r.y * p.y + r.z * p.z + t
}

impl Affine {
    /// Entries and denominator are bounded so that applying the map to a
    /// point in range cannot overflow.
    pub open spec fn wf(self) -> bool {
        &&& row_in_range(self.row_x)
        &&& row_in_range(self.row_y)
        &&& row_in_range(self.row_z)
        &&& shift_in_range(self.shift.x as int)
        &&& shift_in_range(self.shift.y as int)
        &&& shift_in_range(self.shift.z as int)
        &&& 0 < self.den <= DEN_BOUND
    }

    pub open spec fn apply_spec(self, p: Point) -> Point {
        Point {
            x: div_trunc(row_dot(self.row_x, p, self.shift.x as int), self.den as int) as i64,
            y: div_trunc(row_dot(self.row_y, p, self.shift.y as int), self.den as int) as i64,
            z: div_trunc(row_dot(self.row_z, p, self.shift.z as int), self.den as int) as i64,
        }
    }

    /// The map that leaves every point where it is.
    pub fn identity() -> (r: Affine)
        ensures
            r.wf(),
            forall|p: Point| p.in_range() ==> #[trigger] r.apply_spec(p) == p,
    {
        let r = Affine {
            row_x: Point { x: 1, y: 0, z: 0 },
            row_y: Point { x: 0, y: 1, z: 0 },
            row_z: Point { x: 0, y: 0, z: 1 },
            shift: Point { x: 0, y: 0, z: 0 },
            den: 1,
        };
        assert forall|p: Point| p.in_range() implies #[trigger] r.apply_spec(p) == p by {
            assert(div_trunc(p.x as int, 1) == p.x);
            assert(div_trunc(p.y as int, 1) == p.y);
            assert(div_trunc(p.z as int, 1) == p.z);
        }
        r
    }

    /// Whether the entries and the denominator are within their bounds.
    pub fn check_wf(&self) -> (r: bool)
        ensures
            r == self.wf(),
    {
        check_row(&self.row_x) && check_row(&self.row_y) && check_row(&self.row_z)
            && -SHIFT_BOUND <= self.shift.x && self.shift.x <= SHIFT_BOUND && -SHIFT_BOUND
            <= self.shift.y && self.shift.y <= SHIFT_BOUND && -SHIFT_BOUND <= self.shift.z
            && self.shift.z <= SHIFT_BOUND && 0 < self.den && self.den <= DEN_BOUND
    }

    /// The image of `p` under the map.
    pub fn apply(&self, p: &Point) -> (r: Point)
        requires
            self.wf(),
            p.in_range(),
        ensures
            r == self.apply_spec(*p),
    {
        Point {
            x: apply_row(&self.row_x, p, self.shift.x, self.den),
            y: apply_row(&self.row_y, p, self.shift.y, self.den),
            z: apply_row(&self.row_z, p, self.shift.z, self.den),
        }
    }
}

fn check_row(r: &Point) -> (b: bool)
    ensures
        b == row_in_range(*r),
{
    -ENTRY_BOUND <= r.x && r.x <= ENTRY_BOUND && -ENTRY_BOUND <= r.y && r.y <= ENTRY_BOUND
        && -ENTRY_BOUND <= r.z && r.z <= ENTRY_BOUND
}

proof fn lemma_product_bound(a: int, b: int)
    requires
        entry_in_range(a),
        coord_in_range(b),
    ensures
        -0x1000_0000_0000_0000 <= a * b <= 0x1000_0000_0000_0000,
{
    assert(-0x1000_0000_0000_0000 <= a * b <= 0x1000_0000_0000_0000) by (nonlinear_arith)
        requires
            -0x2000_0000 <= a <= 0x2000_0000,
            -0x8000_0000 <= b <= 0x8000_0000,
    ;
}

fn apply_row(r: &Point, p: &Point, t: i64, den: i64) -> (v: i64)
    requires
        row_in_range(*r),
        p.in_range(),
        shift_in_range(t as int),
        0 < den <= DEN_BOUND,
    ensures
        v == div_trunc(row_dot(*r, *p, t as int), den as int),
{
    proof {
        lemma_product_bound(r.x as int, p.x as int);
        lemma_product_bound(r.y as int, p.y as int);
        lemma_product_bound(r.z as int, p.z as int);
    }
    let n: i64 = r.x * p.x + r.y * p.y + r.z * p.z + t;
    if n >= 0 {
        (n as u64 / den as u64) as i64
    } else {
        let m: i64 = -n;
        proof {
            vstd::arithmetic::div_mod::lemma_div_pos_is_pos(m as int, den as int);
            vstd::arithmetic::div_mod::lemma_div_is_ordered_by_denominator(m as int, 1, den as int);
        }
        -((m as u64 / den as u64) as i64)
    }
}

} // verus!
