//! The camera's two matrices and the size of the area that it draws to.
//!
//! The camera keeps a projection matrix, which depends on the aspect ratio of
//! the viewport alone, and a view matrix, which depends on the orbit of the
//! viewer alone. The matrices themselves are computed by the host; this module
//! keeps them apart.

use vstd::prelude::*;

verus! {

/// The size of the drawing area in pixels.
#[derive(Debug, Clone, Copy, PartialEq, Eq, Structural)]
pub struct Viewport {
    pub width: u32,
    pub height: u32,
}

impl Viewport {
    /// A viewport of the given size.
    pub fn new(width: u32, height: u32) -> (viewport: Self)
        ensures
            viewport.width == width,
            viewport.height == height,
    {
        Viewport { width, height }
    }

    /// Takes a new size, unless it has no area: a size of zero width or zero
    /// height is ignored. Returns whether the size was taken.
    pub fn resize(&mut self, width: u32, height: u32) -> (resized: bool)
        ensures
            resized == (width != 0 && height != 0),
            resized ==> *final(self) == (Viewport { width, height }),
            !resized ==> *final(self) == *old(self),
    {
        if width == 0 || height == 0 {
            return false;
        }
        self.width = width;
        self.height = height;
        true
    }
}

/// The projection matrix and the view matrix of the camera, of a matrix type
/// `M` that the host chooses.
#[derive(Debug)]
pub struct Camera<M> {
    projection: M,
    view: M,
}

impl<M> Camera<M> {
    /// The projection matrix.
    pub closed spec fn spec_projection(self) -> M {
        self.projection
    }

    /// The view matrix.
    pub closed spec fn spec_view(self) -> M {
        self.view
    }

    /// A camera with the given matrices.
    pub fn new(projection: M, view: M) -> (camera: Self)
        ensures
            camera.spec_projection() == projection,
            camera.spec_view() == view,
    {
        Camera { projection, view }
    }

    /// The projection matrix.
    pub fn projection(&self) -> (projection: &M)
        ensures
            *projection == self.spec_projection(),
    {
        &self.projection
    }

    /// The view matrix.
    pub fn view(&self) -> (view: &M)
        ensures
            *view == self.spec_view(),
    {
        &self.view
    }

    /// Replaces the projection matrix, after the viewport has changed its
    /// aspect ratio. The view matrix stays as it is.
    pub fn resize(&mut self, projection: M)
        ensures
            final(self).spec_projection() == projection,
            final(self).spec_view() == old(self).spec_view(),
    {
        self.projection = projection;
    }

    /// Replaces the view matrix, after the viewer has moved along its orbit.
    /// The projection matrix stays as it is.
    pub fn set_transform(&mut self, view: M)
        ensures
            final(self).spec_view() == view,
            final(self).spec_projection() == old(self).spec_projection(),
    {
        self.view = view;
    }
}

} // verus!
