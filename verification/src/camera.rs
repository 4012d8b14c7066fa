//! The viewer and the projection.
//!
//! Angles, distances and coordinates are 32-bit floats, kept here in their
//! bits: the library stores and hands on what the matrices are computed
//! from, and computes none of them.

use vstd::prelude::*;

pub mod controller;

verus! {

/// Bits of the 32-bit float 0.0.
pub const F_ZERO: u32 = 0;

/// Bits of the 32-bit float 0.5.
pub const F_HALF: u32 = 0x3F00_0000;

/// Bits of the 32-bit float 1.0.
pub const F_ONE: u32 = 0x3F80_0000;

/// Columns of the matrix that takes clip space with depth from -1 to 1 to
/// clip space with depth from 0 to 1: it leaves x, y and w alone and maps z
/// to half of z plus half of w.
pub open spec fn depth_correction() -> Seq<Seq<u32>> {
    seq![
        seq![F_ONE, F_ZERO, F_ZERO, F_ZERO],
        seq![F_ZERO, F_ONE, F_ZERO, F_ZERO],
        seq![F_ZERO, F_ZERO, F_HALF, F_ZERO],
        seq![F_ZERO, F_ZERO, F_HALF, F_ONE],
    ]
}

/// The depth correction, column after column, to be multiplied from the
/// left onto a perspective matrix.
pub fn opengl_to_wgpu_matrix() -> (columns: [[u32; 4]; 4])
    ensures
        columns@.len() == 4,
        forall|c: int| 0 <= c < 4 ==> (#[trigger] columns@[c])@ == depth_correction()[c],
{
    [
        [F_ONE, F_ZERO, F_ZERO, F_ZERO],
        [F_ZERO, F_ONE, F_ZERO, F_ZERO],
        [F_ZERO, F_ZERO, F_HALF, F_ZERO],
        [F_ZERO, F_ZERO, F_HALF, F_ONE],
    ]
}

/// Where the viewer stands and where it looks: a position, a yaw about the
/// vertical axis and a pitch above the horizon, both in radians. There is no
/// roll.
#[derive(Clone, Copy, Debug, PartialEq, Eq)]
pub struct Camera {
    pub position: [u32; 3],
    pub yaw: u32,
    pub pitch: u32,
}

impl Camera {
    pub fn new(position: [u32; 3], yaw: u32, pitch: u32) -> (camera: Self)
        ensures
            camera == (Camera { position, yaw, pitch }),
    {
        Camera { position, yaw, pitch }
    }
}

/// What the perspective matrix is computed from. The aspect ratio is kept as
/// the two sides of the surface, width over height.
#[derive(Clone, Copy, Debug, PartialEq, Eq, Structural)]
pub struct Projection {
    width: u32,
    height: u32,
    fovy: u32,
    znear: u32,
    zfar: u32,
}

impl Projection {
    /// Numerator of the aspect ratio.
    pub closed spec fn spec_aspect_width(&self) -> u32 {
        self.width
    }

    /// Denominator of the aspect ratio.
    pub closed spec fn spec_aspect_height(&self) -> u32 {
        self.height
    }

    pub closed spec fn spec_fovy(&self) -> u32 {
        self.fovy
    }

    pub closed spec fn spec_znear(&self) -> u32 {
        self.znear
    }

    pub closed spec fn spec_zfar(&self) -> u32 {
        self.zfar
    }

    /// The aspect ratio is `width` over `height`, as a fraction: the two
    /// cross products agree. It speaks of no ratio while the denominator is
    /// zero.
    pub open spec fn aspect_is(&self, width: u32, height: u32) -> bool {
        &&& self.aspect_height() != 0
        &&& height != 0
        &&& self.aspect_width() * height == width * self.aspect_height()
    }

    /// A projection for a surface of `width` by `height` pixels, with the
    /// vertical field of view `fovy` in radians and the two clip planes.
    pub fn new(width: u32, height: u32, fovy: u32, znear: u32, zfar: u32) -> (projection: Self)
        ensures
            projection.aspect_width() == width,
            projection.aspect_height() == height,
            projection.fovy() == fovy,
            projection.znear() == znear,
            projection.zfar() == zfar,
    {
        Projection { width, height, fovy, znear, zfar }
    }

    /// Takes the aspect ratio of a surface of `width` by `height` pixels.
    /// Field of view and clip planes stay.
    pub fn resize(&mut self, width: u32, height: u32)
        ensures
            final(self).aspect_width() == width,
            final(self).aspect_height() == height,
            height != 0 ==> final(self).aspect_is(width, height),
            final(self).fovy() == old(self).fovy(),
            final(self).znear() == old(self).znear(),
            final(self).zfar() == old(self).zfar(),
    {
        self.width = width;
        self.height = height;
    }

    /// Two projections with the same aspect ratio, field of view and clip
    /// planes are the same projection.
    pub proof fn lemma_same(&self, other: &Projection)
        requires
            self.aspect_width() == other.aspect_width(),
            self.aspect_height() == other.aspect_height(),
            self.fovy() == other.fovy(),
            self.znear() == other.znear(),
            self.zfar() == other.zfar(),
        ensures
            self == other,
    {
    }

    #[verifier::when_used_as_spec(spec_aspect_width)]
    pub fn aspect_width(&self) -> (width: u32)
        ensures
            width == self.aspect_width(),
    {
        self.width
    }

    #[verifier::when_used_as_spec(spec_aspect_height)]
    pub fn aspect_height(&self) -> (height: u32)
        ensures
            height == self.aspect_height(),
    {
        self.height
    }

    #[verifier::when_used_as_spec(spec_fovy)]
    pub fn fovy(&self) -> (fovy: u32)
        ensures
            fovy == self.fovy(),
    {
        self.fovy
    }

    #[verifier::when_used_as_spec(spec_znear)]
    pub fn znear(&self) -> (znear: u32)
        ensures
            znear == self.znear(),
    {
        self.znear
    }

    #[verifier::when_used_as_spec(spec_zfar)]
    pub fn zfar(&self) -> (zfar: u32)
        ensures
            zfar == self.zfar(),
    {
        self.zfar
    }
}

} // verus!
