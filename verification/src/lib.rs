//! The decision core of a ray tracer for scenes of cubes, spheres, cylinders
//! and cones: which surface a ray strikes first, which lights reach a point,
//! when a reflected ray is followed, and where each pixel lands in the image.
//!
//! Numbers cross this library's boundary as IEEE 754 bit patterns (see
//! [`scalar`]). The caller does the arithmetic and hands in what it measured;
//! the library compares, selects and assembles, and states exactly what it
//! returns.
//!
//! - [`scalar`], [`vector`]: numbers, vectors and matrices as bit patterns.
//! - [`primitive`], [`shape`], [`intersection`]: the canonical shapes, their
//!   instances in the world, and the nearest strike of a ray.
//! - [`lights`]: shadows, spot falloff, shading, colours and texels.
//! - [`raytracer`]: the depth of reflection, the places of the pixels, the
//!   image.
//! - [`scene`], [`tree`]: materials, the four primitives, the rules of a
//!   scene description, and the flattening of the scene graph.
//! - [`raster`]: raster images.

use vstd::prelude::*;

pub mod intersection;
pub mod lights;
pub mod primitive;
pub mod raster;
pub mod raytracer;
pub mod scalar;
pub mod scene;
pub mod shape;
pub mod tree;
pub mod vector;

verus! {

/// What to render, and how.
#[derive(Debug)]
pub struct Config {
    /// The width of the output image, in pixels.
    pub width: u32,
    /// The height of the output image, in pixels.
    pub height: u32,
    /// Where the scene description is found.
    pub scene: String,
    /// Where the output image goes.
    pub output: String,
    /// The directory that the scene's texture images are relative to.
    pub textures: String,
    /// Whether shapes cast shadows.
    pub enable_shadows: bool,
    /// Whether reflective surfaces mirror the scene.
    pub enable_reflections: bool,
    /// Whether textures are laid over surfaces.
    pub enable_texture: bool,
    /// Whether pixels are rendered in parallel.
    pub enable_parallelism: bool,
    /// The number of samples per pixel.
    pub samples: u8,
}

} // verus!
