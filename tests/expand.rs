use sierpinski::expand::{expand, next_generation, Primitive};
use sierpinski::geometry::{Affine, Contraction, Point, ONE};
use sierpinski::radius::{Radius, RadiusLaw};
use sierpinski::validate::{try_expand, ConfigError};

fn corner_maps() -> Vec<Contraction> {
    vec![
        Contraction::scale_about_point(Point::new(0, 0, 0), 1, 2),
        Contraction::scale_about_point(Point::new(ONE, 0, 0), 1, 2),
        Contraction::scale_about_point(Point::new(32768, 56756, 0), 1, 2),
        Contraction::scale_about_point(Point::new(32768, 18919, 53510), 1, 2),
    ]
}

fn law() -> RadiusLaw {
    RadiusLaw::new(13377, 2)
}

fn fraction_less(a: Radius, b: Radius) -> bool {
    (a.scaled as u128) << b.halvings < (b.scaled as u128) << a.halvings
}

#[test]
fn two_depths_from_one_seed() {
    let seed = vec![Point::new(32768, 18914, 13376)];
    let prims = expand(&seed, &corner_maps(), 2, &law(), &Affine::identity(), 7);
    assert_eq!(prims.len(), 5);
    assert_eq!(
        prims[0],
        Primitive {
            center: Point::new(32768, 18914, 13376),
            radius: Radius { scaled: 26754, halvings: 0 },
            material: 7
        }
    );
    let expected = [
        Point::new(16384, 9457, 6688),
        Point::new(49152, 9457, 6688),
        Point::new(32768, 37835, 6688),
        Point::new(32768, 18917, 33443),
    ];
    for (i, c) in expected.iter().enumerate() {
        assert_eq!(prims[i + 1].center, *c);
        assert_eq!(prims[i + 1].radius, Radius { scaled: 26754, halvings: 1 });
        assert_eq!(prims[i + 1].material, 7);
    }
}

#[test]
fn runs_are_identical() {
    let seed = vec![Point::new(100, -200, 300), Point::new(-5000, 7000, 11)];
    let a = expand(&seed, &corner_maps(), 4, &law(), &Affine::identity(), 0);
    let b = expand(&seed, &corner_maps(), 4, &law(), &Affine::identity(), 0);
    assert_eq!(a, b);
}

#[test]
fn growth_per_depth() {
    let seed = vec![Point::new(1, 2, 3), Point::new(4, 5, 6)];
    let maps = vec![
        Contraction::scale_about_point(Point::new(0, 0, 0), 1, 3),
        Contraction::scale_about_point(Point::new(ONE, 0, 0), 1, 3),
        Contraction::scale_about_point(Point::new(0, ONE, 0), 1, 3),
    ];
    let prims = expand(&seed, &maps, 3, &law(), &Affine::identity(), 0);
    assert_eq!(prims.len(), 2 * (1 + 3 + 9));
    for d in 0..3usize {
        let at_depth = prims.iter().filter(|p| p.radius.halvings == d).count();
        assert_eq!(at_depth, 2 * 3usize.pow(d as u32));
    }
    let five = expand(&vec![Point::new(0, 0, 0)], &corner_maps(), 5, &law(), &Affine::identity(), 0);
    assert_eq!(five.len(), 341);
}

#[test]
fn emission_order_follows_maps_then_points() {
    let seed = vec![Point::new(0, 0, 0), Point::new(8, 8, 8)];
    let maps = vec![
        Contraction::scale_about_point(Point::new(0, 0, 0), 1, 2),
        Contraction::scale_about_point(Point::new(16, 0, 0), 1, 2),
    ];
    let next = next_generation(&maps, &seed);
    assert_eq!(
        next,
        vec![Point::new(0, 0, 0), Point::new(4, 4, 4), Point::new(8, 0, 0), Point::new(12, 4, 4)]
    );
}

#[test]
fn radius_shrinks_and_stays_positive() {
    let l = law();
    for d in 0..60usize {
        let now = l.radius(d);
        let next = l.radius(d + 1);
        assert!(now.scaled > 0);
        assert!(fraction_less(next, now));
        assert!(fraction_less(l.sphere_radius(d + 1), l.sphere_radius(d)));
    }
    assert_eq!(l.sphere_radius(3), Radius { scaled: 26754, halvings: 3 });
}

#[test]
fn zero_and_one_pass() {
    let seed = vec![Point::new(1, 1, 1), Point::new(2, 2, 2), Point::new(3, 3, 3)];
    assert!(expand(&seed, &corner_maps(), 0, &law(), &Affine::identity(), 0).is_empty());
    let one = expand(&seed, &corner_maps(), 1, &law(), &Affine::identity(), 0);
    assert_eq!(one.len(), 3);
    for (p, s) in one.iter().zip(seed.iter()) {
        assert_eq!(p.center, *s);
        assert_eq!(p.radius, Radius { scaled: 26754, halvings: 0 });
    }
}

#[test]
fn identity_map_keeps_points() {
    let seed = vec![Point::new(10, -20, 30), Point::new(-7, 8, 9)];
    let maps = vec![
        Contraction::scale_about_point(Point::new(0, 0, 0), 1, 2),
        Contraction::scale_about_point(Point::new(500, 500, 500), 3, 3),
    ];
    let next = next_generation(&maps, &seed);
    assert_eq!(next[2..4].to_vec(), seed);
    let r = try_expand(&seed, &maps, 2, 10, &law(), &Affine::identity(), 0);
    assert_eq!(r, Err(ConfigError::NonContracting(1)));
}

#[test]
fn contraction_rounds_toward_input_point() {
    let m = Contraction::scale_about_point(Point::new(0, 0, 0), 1, 2);
    assert_eq!(m.apply(&Point::new(-3, 3, -1)), Point::new(-1, 1, 0));
    let m = Contraction::scale_about_point(Point::new(10, 10, 10), 2, 3);
    assert_eq!(m.apply(&Point::new(0, 20, 10)), Point::new(4, 16, 10));
}

#[test]
fn checked_expand_matches_expand() {
    let seed = vec![Point::new(32768, 18914, 13376)];
    let r = try_expand(&seed, &corner_maps(), 3, 3, &law(), &Affine::identity(), 2);
    assert_eq!(r, Ok(expand(&seed, &corner_maps(), 3, &law(), &Affine::identity(), 2)));
}

#[test]
fn checked_expand_errors() {
    let seed = vec![Point::new(0, 0, 0)];
    let id = Affine::identity();
    let maps = corner_maps();
    assert_eq!(try_expand(&vec![], &maps, 1, 5, &law(), &id, 0), Err(ConfigError::EmptySeed));
    assert_eq!(try_expand(&seed, &vec![], 1, 5, &law(), &id, 0), Err(ConfigError::NoMaps));
    let far = vec![Point::new(0, 0, 0), Point::new(0, 0x8000_0001, 0)];
    assert_eq!(
        try_expand(&far, &maps, 1, 5, &law(), &id, 0),
        Err(ConfigError::PointOutOfRange(1))
    );
    let mut bad = corner_maps();
    bad[2] = Contraction::scale_about_point(Point::new(0, 0, 0), 3, 2);
    assert_eq!(try_expand(&seed, &bad, 1, 5, &law(), &id, 0), Err(ConfigError::InvalidMap(2)));
    bad[2] = Contraction::scale_about_point(Point::new(0, 0, 0), 1, 0);
    assert_eq!(try_expand(&seed, &bad, 1, 5, &law(), &id, 0), Err(ConfigError::InvalidMap(2)));
    bad[2] = Contraction::scale_about_point(Point::new(0, 0, 0), 0, 2);
    assert_eq!(
        try_expand(&seed, &bad, 1, 5, &law(), &id, 0),
        Err(ConfigError::NonContracting(2))
    );
    assert_eq!(
        try_expand(&seed, &maps, 6, 5, &law(), &id, 0),
        Err(ConfigError::DepthAboveCeiling)
    );
    assert_eq!(
        try_expand(&seed, &maps, 1, 5, &RadiusLaw::new(0, 2), &id, 0),
        Err(ConfigError::InvalidRadius)
    );
    assert_eq!(
        try_expand(&seed, &maps, 1, 5, &RadiusLaw::new(u64::MAX, 2), &id, 0),
        Err(ConfigError::InvalidRadius)
    );
    let mut mv = Affine::identity();
    mv.den = 0;
    assert_eq!(
        try_expand(&seed, &maps, 1, 5, &law(), &mv, 0),
        Err(ConfigError::InvalidModelView)
    );
}
