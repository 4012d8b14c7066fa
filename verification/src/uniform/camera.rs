//! The block of camera parameters: where the viewer is and how the world
//! maps to the screen.

use vstd::prelude::*;
use crate::camera::{F_ONE, F_ZERO};
use crate::uniform::Uniform;

verus! {

/// The 4 x 4 identity matrix, as bits of 32-bit floats.
pub open spec fn identity() -> Seq<Seq<u32>> {
    seq![
        seq![F_ONE, F_ZERO, F_ZERO, F_ZERO],
        seq![F_ZERO, F_ONE, F_ZERO, F_ZERO],
        seq![F_ZERO, F_ZERO, F_ONE, F_ZERO],
        seq![F_ZERO, F_ZERO, F_ZERO, F_ONE],
    ]
}

/// The rows or columns of a matrix as sequences.
pub open spec fn matrix_view(m: [[u32; 4]; 4]) -> Seq<Seq<u32>> {
    Seq::new(4, |i: int| m@[i]@)
}

/// Camera parameters of the shaders. In the buffer the block takes 80 bytes:
/// the viewer's position as a homogeneous vector, then the matrix from world
/// to clip space, column after column. Every word holds the bits of a 32-bit
/// float.
#[derive(Clone, Copy, Debug, PartialEq, Eq)]
pub struct CameraUniform {
    pub view_position: [u32; 4],
    pub view_proj: [[u32; 4]; 4],
}

impl CameraUniform {
    /// A viewer at the zero vector and the identity matrix.
    pub fn new() -> (uniform: Self)
        ensures
            uniform.view_position@ == seq![F_ZERO, F_ZERO, F_ZERO, F_ZERO],
            matrix_view(uniform.view_proj) == identity(),
    {
        let uniform = CameraUniform {
            view_position: [F_ZERO, F_ZERO, F_ZERO, F_ZERO],
            view_proj: [
                [F_ONE, F_ZERO, F_ZERO, F_ZERO],
                [F_ZERO, F_ONE, F_ZERO, F_ZERO],
                [F_ZERO, F_ZERO, F_ONE, F_ZERO],
                [F_ZERO, F_ZERO, F_ZERO, F_ONE],
            ],
        };
        assert(matrix_view(uniform.view_proj) =~~= identity());
        uniform
    }

    /// Takes over the viewer's position, made homogeneous with a last
    /// coordinate of one, and the matrix from world to clip space.
    pub fn update_view_proj(&mut self, position: [u32; 3], view_proj: [[u32; 4]; 4])
        ensures
            final(self).view_position@ == seq![position@[0], position@[1], position@[2], F_ONE],
            final(self).view_proj == view_proj,
    {
        self.view_position = [position[0], position[1], position[2], F_ONE];
        self.view_proj = view_proj;
    }
}

impl Uniform for CameraUniform {
    open spec fn word_count() -> nat {
        20
    }

    open spec fn layout(&self) -> Seq<u32> {
        self.view_position@ + self.view_proj@[0]@ + self.view_proj@[1]@ + self.view_proj@[2]@
            + self.view_proj@[3]@
    }

    open spec fn buffer_label(&self) -> &'static str {
        "Camera Buffer"
    }

    open spec fn bind_group_label(&self) -> &'static str {
        "Camera Bind Group"
    }

    proof fn lemma_layout(&self) {
    }

    fn get_buffer_label(&self) -> (label: &'static str) {
        "Camera Buffer"
    }

    fn get_bind_group_label(&self) -> (label: &'static str) {
        "Camera Bind Group"
    }

    fn words(&self) -> (words: Vec<u32>) {
        let mut words: Vec<u32> = Vec::new();
        let mut i: usize = 0;
        while i < 4
            invariant
                i <= 4,
                words@ == self.view_position@.take(i as int),
            decreases 4 - i,
        {
            words.push(self.view_position[i]);
            i += 1;
            assert(words@ =~= self.view_position@.take(i as int));
        }
        assert(self.view_position@.take(4) =~= self.view_position@);
        let mut c: usize = 0;
        while c < 4
            invariant
                c <= 4,
                words@.len() == 4 + 4 * c,
                words@.take(4) == self.view_position@,
                forall|k: int, j: int|
                    0 <= k < c && 0 <= j < 4 ==> words@[4 + 4 * k + j] == self.view_proj@[k]@[j],
            decreases 4 - c,
        {
            let column = self.view_proj[c];
            let ghost before = words@;
            words.push(column[0]);
            words.push(column[1]);
            words.push(column[2]);
            words.push(column[3]);
            assert(words@.take(4) =~= before.take(4));
            c += 1;
        }
        assert(words@ =~= self.layout());
        words
    }
}

} // verus!
