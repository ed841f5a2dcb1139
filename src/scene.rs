//! The Sierpinski-tetrahedron scene: camera, light and the fractal spheres.
use vstd::prelude::*;
use crate::expand::{emitted, expand, lemma_growth, total_count, Primitive};
use crate::geometry::{Affine, Contraction, Point, ONE};
use crate::radius::{power, RadiusLaw};

verus! {

/// Number of emission passes of the scene.
pub const SCENE_DEPTH: usize = 5;

/// Index of the shiny material that every sphere of the scene uses.
pub const SHINY_MATERIAL: usize = 0;

/// A pinhole camera: where it stands, what it looks at, which way is up,
/// its field of view (fixed-point degrees) and the image size.
#[derive(Clone, Copy, Debug, PartialEq, Eq, Structural)]
pub struct Camera {
    pub position: Point,
    pub look_at: Point,
    pub up: Point,
    pub fov: i64,
    pub image_width: u32,
    pub image_height: u32,
}

/// A spherical area light.
#[derive(Clone, Copy, Debug, PartialEq, Eq, Structural)]
pub struct SphereLight {
    pub position: Point,
    pub color: Point,
    pub radius: i64,
}

/// What a render pass needs: the lights, the primitives to aggregate and
/// the background color.
#[derive(Clone, Debug)]
pub struct Scene {
    pub lights: Vec<SphereLight>,
    pub primitives: Vec<Primitive>,
    pub background: Point,
}

/// The camera four units in front of the origin, looking at it, `y` up.
pub open spec fn camera_spec(image_width: u32, image_height: u32, fov: i64) -> Camera {
    Camera {
        position: Point { x: 0, y: 0, z: (-4 * ONE) as i64 },
        look_at: Point { x: 0, y: 0, z: 0 },
        up: Point { x: 0, y: ONE, z: 0 },
        fov,
        image_width,
        image_height,
    }
}

/// The seed: the centroid of the unit tetrahedron.
pub open spec fn seed_spec() -> Seq<Point> {
    seq![Point { x: 32768, y: 18919, z: 13377 }]
}

/// Halving maps about the four corners of the unit tetrahedron.
pub open spec fn maps_spec() -> Seq<Contraction> {
    seq![
        Contraction { center: Point { x: 0, y: 0, z: 0 }, num: 1, den: 2 },
        Contraction { center: Point { x: ONE, y: 0, z: 0 }, num: 1, den: 2 },
        Contraction { center: Point { x: 32768, y: 56756, z: 0 }, num: 1, den: 2 },
        Contraction { center: Point { x: 32768, y: 18919, z: 53510 }, num: 1, den: 2 },
    ]
}

/// `radius(d) = (1 / sqrt 24) / 2^d`, spheres twice that.
pub open spec fn law_spec() -> RadiusLaw {
    RadiusLaw { base: 13377, multiplier: 2 }
}

/// `p -> R (2 p - 1)`, with `R` the rotation by 180 degrees about `z`, then
/// 22.5 degrees and 180 degrees about `x`, over the denominator `2^20`.
pub open spec fn model_view_spec() -> Affine {
    Affine {
        row_x: Point { x: (-2097152) as i64, y: 0, z: 0 },
        row_y: Point { x: 0, y: 1937516, z: (-802545) as i64 },
        row_z: Point { x: 0, y: (-802545) as i64, z: (-1937516) as i64 },
        shift: Point { x: 68719476736, y: (-37190712813) as i64, z: 89786323269 },
        den: 1048576,
    }
}

/// The light above and to the left of the camera.
pub open spec fn light_spec() -> SphereLight {
    SphereLight {
        position: Point { x: (-ONE) as i64, y: ONE, z: (-2 * ONE) as i64 },
        color: Point { x: ONE, y: ONE, z: ONE },
        radius: ONE,
    }
}

/// Scene parameters for the Sierpinski tetrahedron.
#[derive(Clone, Copy, Debug, PartialEq, Eq, Structural)]
pub struct SierpinskiConfig;

/// The camera of the scene.
pub fn get_camera(image_width: u32, image_height: u32, fov: i64) -> (r: Camera)
    ensures
        r == camera_spec(image_width, image_height, fov),
{
    Camera {
        position: Point { x: 0, y: 0, z: -4 * ONE },
        look_at: Point { x: 0, y: 0, z: 0 },
        up: Point { x: 0, y: ONE, z: 0 },
        fov,
        image_width,
        image_height,
    }
}

/// The scene: one light, a black background, and the spheres that
/// `SCENE_DEPTH` passes emit from the tetrahedron seed and maps, all with
/// the shiny material; `1 + 4 + 16 + 64 + 256` of them.
pub fn get_scene() -> (r: Scene)
    ensures
        r.lights@ == seq![light_spec()],
        r.background == (Point { x: 0, y: 0, z: 0 }),
        r.primitives@ == emitted(
            seed_spec(),
            maps_spec(),
            SCENE_DEPTH as nat,
            law_spec(),
            model_view_spec(),
            SHINY_MATERIAL,
        ),
        r.primitives@.len() == 341,
{
    let seed: Vec<Point> = vec![Point { x: 32768, y: 18919, z: 13377 }];
    let maps: Vec<Contraction> = vec![
        Contraction::scale_about_point(Point { x: 0, y: 0, z: 0 }, 1, 2),
        Contraction::scale_about_point(Point { x: ONE, y: 0, z: 0 }, 1, 2),
        Contraction::scale_about_point(Point { x: 32768, y: 56756, z: 0 }, 1, 2),
        Contraction::scale_about_point(Point { x: 32768, y: 18919, z: 53510 }, 1, 2),
    ];
    let law = RadiusLaw::new(13377, 2);
    let model_view = Affine {
        row_x: Point { x: -2097152, y: 0, z: 0 },
        row_y: Point { x: 0, y: 1937516, z: -802545 },
        row_z: Point { x: 0, y: -802545, z: -1937516 },
        shift: Point { x: 68719476736, y: -37190712813, z: 89786323269 },
        den: 1048576,
    };
    proof {
        assert(seed@ == seed_spec());
        assert(maps@ == maps_spec());
        assert(maps@[0].wf() && maps@[1].wf() && maps@[2].wf() && maps@[3].wf());
        lemma_growth(seed@, maps@, 5, law, model_view, SHINY_MATERIAL);
        assert(power(4, 0) == 1);
        assert(power(4, 1) == 4);
        assert(power(4, 2) == 16);
        assert(power(4, 3) == 64);
        assert(power(4, 4) == 256);
        assert(total_count(1, 4, 0) == 0);
        assert(total_count(1, 4, 1) == 1);
        assert(total_count(1, 4, 2) == 5);
        assert(total_count(1, 4, 3) == 21);
        assert(total_count(1, 4, 4) == 85);
        assert(total_count(1, 4, 5) == 341);
    }
    let primitives = expand(&seed, &maps, SCENE_DEPTH, &law, &model_view, SHINY_MATERIAL);
    let light = SphereLight {
        position: Point { x: -ONE, y: ONE, z: -2 * ONE },
        color: Point { x: ONE, y: ONE, z: ONE },
        radius: ONE,
    };
    let lights: Vec<SphereLight> = vec![light];
    Scene { lights, primitives, background: Point { x: 0, y: 0, z: 0 } }
}

impl SierpinskiConfig {
    /// The camera of the scene.
    pub fn get_camera(&self, image_width: u32, image_height: u32, fov: i64) -> (r: Camera)
        ensures
            r == camera_spec(image_width, image_height, fov),
    {
        get_camera(image_width, image_height, fov)
    }

    /// The scene, as `get_scene` builds it.
    pub fn get_scene(&self) -> (r: Scene)
        ensures
            r.lights@ == seq![light_spec()],
            r.background == (Point { x: 0, y: 0, z: 0 }),
            r.primitives@ == emitted(
                seed_spec(),
                maps_spec(),
                SCENE_DEPTH as nat,
                law_spec(),
                model_view_spec(),
                SHINY_MATERIAL,
            ),
    {
        get_scene()
    }
}

} // verus!
