use sierpinski::geometry::{Affine, Point, ONE};
use sierpinski::radius::Radius;
use sierpinski::scene::{get_camera, get_scene, SierpinskiConfig, SHINY_MATERIAL};
use sierpinski::texture::UVTexture;

#[test]
fn scene_holds_five_depths_of_spheres() {
    let scene = SierpinskiConfig.get_scene();
    assert_eq!(scene.primitives.len(), 341);
    assert_eq!(scene.lights.len(), 1);
    assert_eq!(scene.lights[0].position, Point::new(-ONE, ONE, -2 * ONE));
    assert_eq!(scene.background, Point::new(0, 0, 0));
    let first = scene.primitives[0];
    assert_eq!(first.center, Point::new(0, -10748, 46429));
    assert_eq!(first.radius, Radius { scaled: 26754, halvings: 0 });
    assert_eq!(first.material, SHINY_MATERIAL);
    assert_eq!(scene.primitives[340].radius.halvings, 4);
    assert_eq!(get_scene().primitives, scene.primitives);
}

#[test]
fn camera_looks_at_origin() {
    let c = get_camera(640, 480, 45 * ONE);
    assert_eq!(c.position, Point::new(0, 0, -4 * ONE));
    assert_eq!(c.look_at, Point::new(0, 0, 0));
    assert_eq!(c.up, Point::new(0, ONE, 0));
    assert_eq!((c.fov, c.image_width, c.image_height), (45 * ONE, 640, 480));
    assert_eq!(SierpinskiConfig.get_camera(640, 480, 45 * ONE), c);
}

#[test]
fn affine_map_divides_toward_zero() {
    let m = Affine {
        row_x: Point::new(1, 1, 0),
        row_y: Point::new(0, -3, 0),
        row_z: Point::new(0, 0, 0),
        shift: Point::new(0, 0, 7),
        den: 2,
    };
    assert_eq!(m.apply(&Point::new(3, 1, 9)), Point::new(2, -1, 3));
    assert!(m.check_wf());
    assert_eq!(Affine::identity().apply(&Point::new(-5, 6, 7)), Point::new(-5, 6, 7));
}

#[test]
fn uv_texture_takes_fractional_parts() {
    let t = UVTexture;
    assert_eq!(t.color(ONE + ONE / 4, -ONE / 2), Point::new(ONE / 4, -ONE / 2, 0));
    assert_eq!(t.color(3 * ONE, 0), Point::new(0, 0, 0));
    assert_eq!(t.color(i64::MIN, -ONE - 1), Point::new(0, -1, 0));
}
