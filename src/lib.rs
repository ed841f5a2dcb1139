//! Procedural fractal geometry: an iterated function system that grows a
//! seed point set through a family of uniform contractions and emits one
//! sphere per point and depth level, with a radius that halves at each level.
//!
//! Coordinates are fixed-point integers (`geometry::ONE` units per scene
//! unit), so every step of the expansion is exact and proved.
pub mod geometry;
pub mod radius;
pub mod expand;
pub mod validate;
pub mod scene;
pub mod texture;
pub mod export;
