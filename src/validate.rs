//! Checked entry point: rejects configurations the expander must not run on.
use vstd::prelude::*;
use crate::expand::{all_in_range, emitted, expand, Primitive};
use crate::geometry::{Affine, Contraction, Point};
use crate::radius::RadiusLaw;

verus! {

/// Why a configuration was rejected.
#[derive(Clone, Copy, Debug, PartialEq, Eq, Structural)]
pub enum ConfigError {
    /// The seed holds no point.
    EmptySeed,
    /// The family holds no map.
    NoMaps,
    /// The seed point at this index has a coordinate out of range.
    PointOutOfRange(usize),
    /// The map at this index has a center out of range, a denominator out
    /// of range, or a ratio outside `[0, 1]`.
    InvalidMap(usize),
    /// The map at this index is well formed but its ratio is `0` or `1`.
    NonContracting(usize),
    /// The depth is above the caller's ceiling.
    DepthAboveCeiling,
    /// A radius factor is zero, or the sphere radius overflows.
    InvalidRadius,
    /// The model/view map has an entry or denominator out of range.
    InvalidModelView,
}

/// A map that the checked expander accepts.
pub open spec fn map_valid(m: Contraction) -> bool {
    m.wf() && m.is_contracting()
}

pub open spec fn all_valid(maps: Seq<Contraction>) -> bool {
    forall|i: int| 0 <= i < maps.len() ==> map_valid(#[trigger] maps[i])
}

/// Every check passes.
pub open spec fn config_ok(
    seed: Seq<Point>,
    maps: Seq<Contraction>,
    max_depth: usize,
    ceiling: usize,
    law: RadiusLaw,
    model_view: Affine,
) -> bool {
    &&& seed.len() > 0
    &&& maps.len() > 0
    &&& all_in_range(seed)
    &&& all_valid(maps)
    &&& max_depth <= ceiling
    &&& law.wf()
    &&& model_view.wf()
}

/// The error that the checks report first, in the order: seed, maps, each
/// seed point, each map, depth, radius law, model/view map.
pub open spec fn error_holds(
    e: ConfigError,
    seed: Seq<Point>,
    maps: Seq<Contraction>,
    max_depth: usize,
    ceiling: usize,
    law: RadiusLaw,
    model_view: Affine,
) -> bool {
    match e {
        ConfigError::EmptySeed => seed.len() == 0,
        ConfigError::NoMaps => seed.len() > 0 && maps.len() == 0,
        ConfigError::PointOutOfRange(i) => {
            &&& seed.len() > 0
            &&& maps.len() > 0
            &&& i < seed.len()
            &&& !seed[i as int].in_range()
            &&& all_in_range(seed.take(i as int))
        },
        ConfigError::InvalidMap(j) => {
            &&& seed.len() > 0
            &&& all_in_range(seed)
            &&& j < maps.len()
            &&& !maps[j as int].wf()
            &&& all_valid(maps.take(j as int))
        },
        ConfigError::NonContracting(j) => {
            &&& seed.len() > 0
            &&& all_in_range(seed)
            &&& j < maps.len()
            &&& maps[j as int].wf()
            &&& !maps[j as int].is_contracting()
            &&& all_valid(maps.take(j as int))
        },
        ConfigError::DepthAboveCeiling => {
            &&& seed.len() > 0
            &&& maps.len() > 0
            &&& all_in_range(seed)
            &&& all_valid(maps)
            &&& max_depth > ceiling
        },
        ConfigError::InvalidRadius => {
            &&& seed.len() > 0
            &&& maps.len() > 0
            &&& all_in_range(seed)
            &&& all_valid(maps)
            &&& max_depth <= ceiling
            &&& !law.wf()
        },
        ConfigError::InvalidModelView => {
            &&& seed.len() > 0
            &&& maps.len() > 0
            &&& all_in_range(seed)
            &&& all_valid(maps)
            &&& max_depth <= ceiling
            &&& law.wf()
            &&& !model_view.wf()
        },
    }
}

/// Checks the configuration and expands it: seed and family non-empty,
/// every point in range, every map well formed and strictly contracting,
/// `max_depth <= ceiling`, a positive radius law that does not overflow and
/// a well-formed model/view map. On success the result is exactly what
/// `expand` emits; otherwise the first failing check is reported.
pub fn try_expand(
    seed: &Vec<Point>,
    maps: &Vec<Contraction>,
    max_depth: usize,
    ceiling: usize,
    law: &RadiusLaw,
    model_view: &Affine,
    material: usize,
) -> (r: Result<Vec<Primitive>, ConfigError>)
    ensures
        r is Ok <==> config_ok(seed@, maps@, max_depth, ceiling, *law, *model_view),
        match r {
            Ok(v) => v@ == emitted(seed@, maps@, max_depth as nat, *law, *model_view, material),
            Err(e) => error_holds(e, seed@, maps@, max_depth, ceiling, *law, *model_view),
        },
{
    if seed.len() == 0 {
        return Err(ConfigError::EmptySeed);
    }
    if maps.len() == 0 {
        return Err(ConfigError::NoMaps);
    }
    let mut i: usize = 0;
    while i < seed.len()
        invariant
            i <= seed.len(),
            seed.len() > 0,
            maps.len() > 0,
            all_in_range(seed@.take(i as int)),
        decreases seed.len() - i,
    {
        if !seed[i].is_in_range() {
            return Err(ConfigError::PointOutOfRange(i));
        }
        proof {
            assert forall|k: int| 0 <= k < i + 1 implies (#[trigger] seed@.take(i + 1)[k]).in_range() by {
                if k < i {
                    assert(seed@.take(i + 1)[k] == seed@.take(i as int)[k]);
                }
            }
        }
        i += 1;
    }
    proof {
        assert(seed@.take(i as int) == seed@);
    }
    let mut j: usize = 0;
    while j < maps.len()
        invariant
            j <= maps.len(),
            seed.len() > 0,
            maps.len() > 0,
            all_in_range(seed@),
            all_valid(maps@.take(j as int)),
        decreases maps.len() - j,
    {
        let m = maps[j];
        if !(m.center.is_in_range() && 0 < m.den && m.den <= crate::geometry::DEN_BOUND && 0
            <= m.num && m.num <= m.den) {
            return Err(ConfigError::InvalidMap(j));
        }
        if !m.check_contracting() {
            return Err(ConfigError::NonContracting(j));
        }
        proof {
            assert forall|k: int| 0 <= k < j + 1 implies map_valid(#[trigger] maps@.take(j + 1)[k]) by {
                if k < j {
                    assert(maps@.take(j + 1)[k] == maps@.take(j as int)[k]);
                }
            }
        }
        j += 1;
    }
    proof {
        assert(maps@.take(j as int) == maps@);
    }
    if max_depth > ceiling {
        return Err(ConfigError::DepthAboveCeiling);
    }
    if !law.check_wf() {
        return Err(ConfigError::InvalidRadius);
    }
    if !model_view.check_wf() {
        return Err(ConfigError::InvalidModelView);
    }
    Ok(expand(seed, maps, max_depth, law, model_view, material))
}

} // verus!
