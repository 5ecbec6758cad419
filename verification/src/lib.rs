//! Voxel terrain for a text terminal.
//!
//! The crate holds the integer logic of a small voxel renderer: the lattice
//! hashing behind gradient noise, the rule that turns a height grid into
//! columns of blocks, the builder that turns blocks into an indexed triangle
//! mesh, and the compositor that turns a rendered RGBA frame into a stream of
//! terminal escape sequences. Everything here is exact integer arithmetic;
//! floating-point blending, the GPU and the terminal itself live with the
//! program that links this library.

pub mod world_gen;

pub mod geometry;
pub mod compositor;
pub mod perlin;
pub mod input;
