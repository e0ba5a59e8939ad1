//! Utilities: random number generators, shape rasterisation and an object pool.
pub mod rand;
pub mod shape;
pub mod objpool;
