//! The iterated-function-system expander.
use vstd::prelude::*;
use crate::geometry::{Affine, Contraction, Point};
use crate::radius::{power, Radius, RadiusLaw};

verus! {

/// A sphere to be rendered: its center, its radius and the index of its
/// material in the scene's material table.
#[derive(Clone, Copy, Debug, PartialEq, Eq, Structural)]
pub struct Primitive {
    pub center: Point,
    pub radius: Radius,
    pub material: usize,
}

pub open spec fn all_in_range(pts: Seq<Point>) -> bool {
    forall|i: int| 0 <= i < pts.len() ==> (#[trigger] pts[i]).in_range()
}

pub open spec fn all_wf(maps: Seq<Contraction>) -> bool {
    forall|i: int| 0 <= i < maps.len() ==> (#[trigger] maps[i]).wf()
}

/// The image of every point of `pts` under `m`, in order.
pub open spec fn image_of(m: Contraction, pts: Seq<Point>) -> Seq<Point> {
    pts.map_values(|p: Point| m.apply_spec(p))
}

/// The next generation: for each map in order, the images of all points of
/// `pts` in order, concatenated.
pub open spec fn step(maps: Seq<Contraction>, pts: Seq<Point>) -> Seq<Point>
    decreases maps.len(),
{
    if maps.len() == 0 {
        Seq::empty()
    } else {
        step(maps.drop_last(), pts) + image_of(maps.last(), pts)
    }
}

/// The point set at depth `d`: the seed, grown `d` times by `step`.
pub open spec fn generation(seed: Seq<Point>, maps: Seq<Contraction>, d: nat) -> Seq<Point>
    decreases d,
{
    if d == 0 {
        seed
    } else {
        step(maps, generation(seed, maps, (d - 1) as nat))
    }
}

/// The sphere emitted for point `p` at depth `d`.
pub open spec fn sphere_spec(
    p: Point,
    d: nat,
    law: RadiusLaw,
    model_view: Affine,
    material: usize,
) -> Primitive {
    Primitive { center: model_view.apply_spec(p), radius: law.sphere_radius_spec(d), material }
}

/// The spheres of one emission pass over `pts` at depth `d`.
pub open spec fn emit(
    pts: Seq<Point>,
    d: nat,
    law: RadiusLaw,
    model_view: Affine,
    material: usize,
) -> Seq<Primitive> {
    pts.map_values(|p: Point| sphere_spec(p, d, law, model_view, material))
}

/// Everything emitted by `depth` passes: pass `d` emits one sphere per point
/// of generation `d`, passes in order of depth.
pub open spec fn emitted(
    seed: Seq<Point>,
    maps: Seq<Contraction>,
    depth: nat,
    law: RadiusLaw,
    model_view: Affine,
    material: usize,
) -> Seq<Primitive>
    decreases depth,
{
    if depth == 0 {
        Seq::empty()
    } else {
        let d = (depth - 1) as nat;
        emitted(seed, maps, d, law, model_view, material) + emit(
            generation(seed, maps, d),
            d,
            law,
            model_view,
            material,
        )
    }
}

/// The inputs that the expander works on without overflow.
pub open spec fn inputs_wf(
    seed: Seq<Point>,
    maps: Seq<Contraction>,
    law: RadiusLaw,
    model_view: Affine,
) -> bool {
    &&& all_in_range(seed)
    &&& all_wf(maps)
    &&& law.wf()
    &&& model_view.wf()
}

/// Point `i` of the image under map `j` sits at `j * |pts| + i` of the next
/// generation.
pub proof fn lemma_step_index(maps: Seq<Contraction>, pts: Seq<Point>)
    ensures
        step(maps, pts).len() == maps.len() * pts.len(),
        forall|j: int, i: int|
            0 <= j < maps.len() && 0 <= i < pts.len() ==> #[trigger] step(maps, pts)[j
                * pts.len() + i] == #[trigger] maps[j].apply_spec(pts[i]),
    decreases maps.len(),
{
    if maps.len() > 0 {
        let init = maps.drop_last();
        lemma_step_index(init, pts);
        let n = pts.len() as int;
        assert(maps.len() * n == init.len() * n + n) by (nonlinear_arith)
            requires
                maps.len() == init.len() + 1,
        ;
        assert forall|j: int, i: int|
            0 <= j < maps.len() && 0 <= i < pts.len() implies #[trigger] step(maps, pts)[j * n
            + i] == #[trigger] maps[j].apply_spec(pts[i]) by {
            if j < init.len() {
                vstd::arithmetic::mul::lemma_mul_inequality(j + 1, init.len() as int, n);
                assert((j + 1) * n == j * n + n) by (nonlinear_arith);
                assert(init[j] == maps[j]);
            } else {
                assert(j * n == init.len() * n);
            }
        }
    }
}

proof fn lemma_step_in_range(maps: Seq<Contraction>, pts: Seq<Point>)
    requires
        all_wf(maps),
        all_in_range(pts),
    ensures
        all_in_range(step(maps, pts)),
    decreases maps.len(),
{
    if maps.len() > 0 {
        let init = maps.drop_last();
        assert(all_wf(init)) by {
            assert forall|i: int| 0 <= i < init.len() implies (#[trigger] init[i]).wf() by {
                assert(init[i] == maps[i]);
            }
        }
        lemma_step_in_range(init, pts);
        let m = maps.last();
        assert(m == maps[maps.len() - 1]);
        assert forall|i: int| 0 <= i < pts.len() implies (#[trigger] image_of(m, pts)[i]).in_range() by {
            crate::geometry::lemma_contraction_in_range(m, pts[i]);
        }
    }
}

proof fn lemma_generation_in_range(seed: Seq<Point>, maps: Seq<Contraction>, d: nat)
    requires
        all_wf(maps),
        all_in_range(seed),
    ensures
        all_in_range(generation(seed, maps, d)),
    decreases d,
{
    if d > 0 {
        lemma_generation_in_range(seed, maps, (d - 1) as nat);
        lemma_step_in_range(maps, generation(seed, maps, (d - 1) as nat));
    }
}

/// Two runs of `expand` on the same inputs give the same sequence: same
/// order, same centers, same radii.
pub proof fn lemma_runs_agree(
    seed: Seq<Point>,
    maps: Seq<Contraction>,
    max_depth: nat,
    law: RadiusLaw,
    model_view: Affine,
    material: usize,
    first: Seq<Primitive>,
    second: Seq<Primitive>,
)
    requires
        first == emitted(seed, maps, max_depth, law, model_view, material),
        second == emitted(seed, maps, max_depth, law, model_view, material),
    ensures
        first == second,
        forall|i: int|
            0 <= i < first.len() ==> first[i].center == second[i].center && first[i].radius
                == second[i].radius,
{
}

/// `s * (1 + k + ... + k^(n - 1))`: the number of spheres that `n` passes
/// emit from a seed of size `s` with `k` maps.
pub open spec fn total_count(s: int, k: int, n: nat) -> int
    decreases n,
{
    if n == 0 {
        0
    } else {
        total_count(s, k, (n - 1) as nat) + s * power(k, (n - 1) as nat)
    }
}

/// Growth law: generation `d` holds `s * k^d` points, so pass `d` emits
/// `s * k^d` spheres, and `n` passes emit `total_count(s, k, n)` spheres in
/// all, with `(k - 1) * total == s * (k^n - 1)`.
pub proof fn lemma_growth(
    seed: Seq<Point>,
    maps: Seq<Contraction>,
    n: nat,
    law: RadiusLaw,
    model_view: Affine,
    material: usize,
)
    ensures
        generation(seed, maps, n).len() == seed.len() * power(maps.len() as int, n),
        emit(generation(seed, maps, n), n, law, model_view, material).len() == seed.len()
            * power(maps.len() as int, n),
        emitted(seed, maps, n, law, model_view, material).len() == total_count(
            seed.len() as int,
            maps.len() as int,
            n,
        ),
        (maps.len() - 1) * total_count(seed.len() as int, maps.len() as int, n) == seed.len() * (
        power(maps.len() as int, n) - 1),
    decreases n,
{
    let s = seed.len() as int;
    let k = maps.len() as int;
    if n > 0 {
        let d = (n - 1) as nat;
        lemma_growth(seed, maps, d, law, model_view, material);
        let g = generation(seed, maps, d);
        lemma_step_index(maps, g);
        let p = power(k, d);
        let t = total_count(s, k, d);
        assert(k * (s * p) == s * (k * p)) by (nonlinear_arith);
        assert((k - 1) * (t + s * p) == (k - 1) * t + (k - 1) * (s * p)) by (nonlinear_arith);
        assert((k - 1) * (s * p) == s * (k * p) - s * p) by (nonlinear_arith);
        assert(s * (k * p - 1) == s * (k * p) - s) by (nonlinear_arith);
        assert(s * (p - 1) == s * p - s) by (nonlinear_arith);
    }
}

/// Zero passes emit nothing; one pass emits exactly one sphere per seed
/// point, centered at its image under `model_view`, all with the depth-0
/// sphere radius, and no map is applied.
pub proof fn lemma_single_pass(
    seed: Seq<Point>,
    maps: Seq<Contraction>,
    law: RadiusLaw,
    model_view: Affine,
    material: usize,
)
    ensures
        emitted(seed, maps, 0, law, model_view, material) == Seq::<Primitive>::empty(),
        emitted(seed, maps, 1, law, model_view, material).len() == seed.len(),
        forall|i: int|
            0 <= i < seed.len() ==> #[trigger] emitted(seed, maps, 1, law, model_view, material)[i]
                == (Primitive {
                center: model_view.apply_spec(seed[i]),
                radius: law.sphere_radius_spec(0),
                material,
            }),
{
    assert(generation(seed, maps, 0) == seed);
    assert(emitted(seed, maps, 0, law, model_view, material) == Seq::<Primitive>::empty());
    assert(emitted(seed, maps, 1, law, model_view, material) =~= emit(
        seed,
        0,
        law,
        model_view,
        material,
    ));
}

/// A map of ratio one reproduces its input: when map `j` is the identity,
/// block `j` of the next generation is `pts` unchanged.
pub proof fn lemma_identity_map(maps: Seq<Contraction>, pts: Seq<Point>, j: int)
    requires
        0 <= j < maps.len(),
        maps[j].wf(),
        maps[j].is_identity(),
        all_in_range(pts),
    ensures
        step(maps, pts).subrange(j * pts.len(), (j + 1) * pts.len()) == pts,
{
    lemma_step_index(maps, pts);
    let n = pts.len() as int;
    vstd::arithmetic::mul::lemma_mul_inequality(j + 1, maps.len() as int, n);
    assert((j + 1) * n == j * n + n) by (nonlinear_arith);
    assert(0 <= j * n) by (nonlinear_arith)
        requires
            0 <= j,
            0 <= n,
    ;
    assert forall|i: int| 0 <= i < n implies #[trigger] step(maps, pts).subrange(
        j * n,
        (j + 1) * n,
    )[i] == pts[i] by {
        crate::geometry::lemma_identity_fixes(maps[j], pts[i]);
        assert(step(maps, pts)[j * n + i] == maps[j].apply_spec(pts[i]));
    }
    assert(step(maps, pts).subrange(j * n, (j + 1) * n) =~= pts);
}

/// The next generation of `pts`: for each map in order, the images of all
/// points in order.
pub fn next_generation(maps: &Vec<Contraction>, pts: &Vec<Point>) -> (r: Vec<Point>)
    requires
        all_wf(maps@),
        all_in_range(pts@),
    ensures
        r@ == step(maps@, pts@),
        all_in_range(r@),
{
    let mut next: Vec<Point> = Vec::new();
    let mut j: usize = 0;
    while j < maps.len()
        invariant
            j <= maps.len(),
            all_wf(maps@),
            all_in_range(pts@),
            next@ == step(maps@.take(j as int), pts@),
        decreases maps.len() - j,
    {
        let m = maps[j];
        assert(m.wf());
        let mut i: usize = 0;
        while i < pts.len()
            invariant
                i <= pts.len(),
                j < maps.len(),
                m == maps@[j as int],
                m.wf(),
                all_in_range(pts@),
                next@ == step(maps@.take(j as int), pts@) + image_of(m, pts@.take(i as int)),
            decreases pts.len() - i,
        {
            let q = m.apply(&pts[i]);
            proof {
                assert(image_of(m, pts@.take(i + 1)) == image_of(m, pts@.take(i as int)).push(q));
            }
            next.push(q);
            i += 1;
        }
        proof {
            assert(maps@.take(j + 1).drop_last() == maps@.take(j as int));
            assert(maps@.take(j + 1).last() == m);
            assert(pts@.take(i as int) == pts@);
        }
        j += 1;
    }
    proof {
        assert(maps@.take(j as int) == maps@);
        lemma_step_in_range(maps@, pts@);
    }
    next
}

/// Grows `seed` through `maps` and emits spheres: for each depth `d` from
/// `0` to `max_depth - 1`, one sphere per point of generation `d`, centered
/// at its image under `model_view`, with the sphere radius of depth `d`
/// and the given material. Generation `d + 1` is `step` of generation `d`.
pub fn expand(
    seed: &Vec<Point>,
    maps: &Vec<Contraction>,
    max_depth: usize,
    law: &RadiusLaw,
    model_view: &Affine,
    material: usize,
) -> (r: Vec<Primitive>)
    requires
        inputs_wf(seed@, maps@, *law, *model_view),
    ensures
        r@ == emitted(seed@, maps@, max_depth as nat, *law, *model_view, material),
        r@.len() == total_count(seed@.len() as int, maps@.len() as int, max_depth as nat),
{
    proof {
        lemma_growth(seed@, maps@, max_depth as nat, *law, *model_view, material);
    }
    let mut pts: Vec<Point> = Vec::new();
    let mut i: usize = 0;
    while i < seed.len()
        invariant
            i <= seed.len(),
            pts@ == seed@.take(i as int),
        decreases seed.len() - i,
    {
        pts.push(seed[i]);
        proof {
            assert(seed@.take(i + 1) == seed@.take(i as int).push(seed@[i as int]));
        }
        i += 1;
    }
    proof {
        assert(seed@.take(i as int) == seed@);
    }
    let mut out: Vec<Primitive> = Vec::new();
    let mut d: usize = 0;
    while d < max_depth
        invariant
            d <= max_depth,
            inputs_wf(seed@, maps@, *law, *model_view),
            d < max_depth ==> pts@ == generation(seed@, maps@, d as nat),
            all_in_range(pts@),
            out@ == emitted(seed@, maps@, d as nat, *law, *model_view, material),
        decreases max_depth - d,
    {
        let radius = law.sphere_radius(d);
        let ghost before = out@;
        let mut i: usize = 0;
        while i < pts.len()
            invariant
                i <= pts.len(),
                model_view.wf(),
                all_in_range(pts@),
                radius == law.sphere_radius_spec(d as nat),
                out@ == before + emit(pts@.take(i as int), d as nat, *law, *model_view, material),
            decreases pts.len() - i,
        {
            let s = Primitive { center: model_view.apply(&pts[i]), radius, material };
            proof {
                assert(emit(pts@.take(i + 1), d as nat, *law, *model_view, material) == emit(
                    pts@.take(i as int),
                    d as nat,
                    *law,
                    *model_view,
                    material,
                ).push(s));
            }
            out.push(s);
            i += 1;
        }
        proof {
            assert(pts@.take(i as int) == pts@);
        }
        if d + 1 < max_depth {
            pts = next_generation(maps, &pts);
        }
        d += 1;
    }
    out
}

} // verus!
