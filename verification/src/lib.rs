//! The verified core of a renderer that draws a parametric surface defined by
//! a script.
//!
//! A script names a rectangle of parameters and a resolution, and defines a
//! function that gives a vertex for each pair of parameters. The host samples
//! that function on a regular grid, joins the samples into triangles, and
//! draws the resulting mesh beside a reference quad under an orbiting camera.
//!
//! This crate holds the part of the host that can be stated and proved without
//! a graphics device and without arithmetic on scalars:
//!
//! - [`config`]: the resolution of the grid, its limit, and how it is read
//!   from the scope that a script has run in;
//! - [`tessellate`]: the vertex list and the triangle index list of the grid;
//! - [`script`]: what the host accepts from the two functions of a script;
//! - [`surface`]: the surface on display and how a rebuild replaces it;
//! - [`camera`]: the camera's two matrices and the size of the viewport;
//! - [`render`]: the fixed pipeline states and the commands of a frame;
//! - [`controls`]: what the application does in answer to its window;
//! - [`scope`]: the integer variables of a script scope.
//!
//! The crate is generic in the scalar, vertex, matrix and mesh types: the host
//! picks the representations that its graphics backend expects.
//!
//! Everything is proved but the two functions of [`scope`] that call into
//! `rhai`, whose contracts are taken on trust.

pub mod camera;
pub mod config;
pub mod controls;
pub mod render;
pub mod scope;
pub mod script;
pub mod surface;
pub mod tessellate;

pub use camera::{Camera, Viewport};
pub use config::{ConfigError, SurfaceConfig};
pub use script::{ScriptError, Vertex};
pub use surface::{BuildError, Surface};
