//! Isosurface extraction from sampled scalar fields by marching cubes.
//!
//! The library holds the combinatorial core of the algorithm: the topology
//! tables, the classification of a cube by the signs of its corners, the
//! per-slab vertex deduplication cache and the sweep that turns the signs of
//! a grid into an index buffer and a list of edge crossings to place.

pub mod tables;
pub mod index_cache;
pub mod visits;
pub mod marching_cubes;
