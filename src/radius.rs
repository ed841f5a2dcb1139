//! Exact radii of the form `scaled / 2^halvings`.
use vstd::prelude::*;

verus! {

/// `b` raised to the power `e`.
pub open spec fn power(b: int, e: nat) -> int
    decreases e,
{
    if e == 0 {
        1
    } else {
        b * power(b, (e - 1) as nat)
    }
}

/// A length `scaled / 2^halvings`, in fixed-point units. Halving a radius
/// adds one to `halvings`, so no depth ever rounds a radius down to zero.
#[derive(Clone, Copy, Debug, PartialEq, Eq, Structural)]
pub struct Radius {
    pub scaled: u64,
    pub halvings: usize,
}

impl Radius {
    /// The radius is strictly greater than zero.
    pub open spec fn is_positive(self) -> bool {
        self.scaled > 0
    }

    /// `self` is strictly shorter than `other`, compared as exact fractions.
    pub open spec fn shorter_than(self, other: Radius) -> bool {
        self.scaled * power(2, other.halvings as nat) < other.scaled * power(
            2,
            self.halvings as nat,
        )
    }
}

/// The radius law `radius(d) = base / 2^d`; a sphere emitted at depth `d`
/// gets `radius(d) * multiplier`.
#[derive(Clone, Copy, Debug, PartialEq, Eq, Structural)]
pub struct RadiusLaw {
    pub base: u64,
    pub multiplier: u64,
}

impl RadiusLaw {
    /// Both factors are positive and the sphere radius numerator fits a `u64`.
    pub open spec fn wf(self) -> bool {
        &&& self.base > 0
        &&& self.multiplier > 0
        &&& self.base * self.multiplier <= u64::MAX
    }

    /// `radius(d)`.
    pub open spec fn radius_spec(self, d: nat) -> Radius {
        Radius { scaled: self.base, halvings: d as usize }
    }

    /// The radius of a sphere emitted at depth `d`: `radius(d) * multiplier`.
    pub open spec fn sphere_radius_spec(self, d: nat) -> Radius {
        Radius { scaled: (self.base * self.multiplier) as u64, halvings: d as usize }
    }

    pub fn new(base: u64, multiplier: u64) -> (r: RadiusLaw)
        ensures
            r == (RadiusLaw { base, multiplier }),
    {
        RadiusLaw { base, multiplier }
    }

    /// Whether both factors are positive and their product fits a `u64`.
    pub fn check_wf(&self) -> (r: bool)
        ensures
            r == self.wf(),
    {
        self.base > 0 && self.multiplier > 0 && self.base.checked_mul(self.multiplier).is_some()
    }

    /// `radius(depth)`.
    pub fn radius(&self, depth: usize) -> (r: Radius)
        ensures
            r == self.radius_spec(depth as nat),
    {
        Radius { scaled: self.base, halvings: depth }
    }

    /// The radius of a sphere emitted at `depth`.
    pub fn sphere_radius(&self, depth: usize) -> (r: Radius)
        requires
            self.wf(),
        ensures
            r == self.sphere_radius_spec(depth as nat),
    {
        Radius { scaled: self.base * self.multiplier, halvings: depth }
    }
}

proof fn lemma_power2_positive(e: nat)
    ensures
        power(2, e) > 0,
    decreases e,
{
    if e > 0 {
        lemma_power2_positive((e - 1) as nat);
    }
}

/// The radius law shrinks strictly at every depth and stays positive:
/// `radius(d + 1) < radius(d)` and `radius(d) > 0`, and the same holds of
/// the sphere radii.
pub proof fn lemma_radius_decreasing(law: RadiusLaw, d: usize)
    requires
        law.wf(),
        d < usize::MAX,
    ensures
        law.radius_spec(d as nat).is_positive(),
        law.radius_spec((d + 1) as nat).shorter_than(law.radius_spec(d as nat)),
        law.sphere_radius_spec(d as nat).is_positive(),
        law.sphere_radius_spec((d + 1) as nat).shorter_than(law.sphere_radius_spec(d as nat)),
{
    lemma_power2_positive(d as nat);
    let p = power(2, d as nat);
    assert(power(2, (d + 1) as nat) == 2 * p);
    let b = law.base as int;
    let s = law.base * law.multiplier;
    assert(s > 0) by (nonlinear_arith)
        requires
            law.base > 0,
            law.multiplier > 0,
            s == law.base * law.multiplier,
    ;
    assert(b * p < b * (2 * p)) by (nonlinear_arith)
        requires
            b > 0,
            p > 0,
    ;
    assert(s * p < s * (2 * p)) by (nonlinear_arith)
        requires
            s > 0,
            p > 0,
    ;
}

} // verus!
