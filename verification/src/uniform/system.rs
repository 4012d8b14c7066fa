//! The block of frame-wide parameters: elapsed time and resolution.

use vstd::prelude::*;
use crate::bytes::{lemma_image_index, memory_image, word_image, ByteOrder};
use crate::surface::PhysicalSize;
use crate::uniform::Uniform;

verus! {

/// Frame-wide shader parameters. In the buffer the block takes 32 bytes: the
/// time, three words of padding, the resolution, two words of padding.
#[derive(Clone, Copy, Debug, PartialEq, Eq)]
pub struct SystemUniform {
    /// Seconds since the start, as the bits of a 32-bit float.
    pub time: u32,
    /// Width and height of the surface in pixels.
    pub resolution: [u32; 2],
}

impl SystemUniform {
    pub fn new(resolution: PhysicalSize, time: u32) -> (uniform: Self)
        ensures
            uniform.time == time,
            uniform.resolution@ == seq![resolution.width, resolution.height],
    {
        SystemUniform { time, resolution: [resolution.width, resolution.height] }
    }

    /// Brings the block up to the given resolution and time.
    pub fn update_system(&mut self, resolution: PhysicalSize, time: u32)
        ensures
            final(self).time == time,
            final(self).resolution@ == seq![resolution.width, resolution.height],
    {
        self.time = time;
        self.resolution = [resolution.width, resolution.height];
    }
}

/// Of the 32 bytes of the block, the first four are the time, bytes 16 to 19
/// the width and bytes 20 to 23 the height, each in the byte order of the
/// image; all other bytes are zero.
pub proof fn lemma_system_bytes(uniform: SystemUniform, order: ByteOrder)
    ensures
        memory_image(order, uniform.layout()).len() == 32,
        memory_image(order, uniform.layout()).subrange(0, 4) == word_image(order, uniform.time),
        memory_image(order, uniform.layout()).subrange(16, 20) == word_image(
            order,
            uniform.resolution@[0],
        ),
        memory_image(order, uniform.layout()).subrange(20, 24) == word_image(
            order,
            uniform.resolution@[1],
        ),
        forall|i: int|
            4 <= i < 16 || 24 <= i < 32 ==> #[trigger] memory_image(order, uniform.layout())[i]
                == 0,
{
    let words = uniform.layout();
    let bytes = memory_image(order, words);
    assert(bytes.subrange(0, 4) =~= word_image(order, uniform.time)) by {
        assert forall|k: int| 0 <= k < 4 implies bytes[k] == word_image(
            order,
            uniform.time,
        )[k] by {
            lemma_image_index(order, words, 0, k);
        }
    }
    assert(bytes.subrange(16, 20) =~= word_image(order, uniform.resolution@[0])) by {
        assert forall|k: int| 0 <= k < 4 implies bytes[16 + k] == word_image(
            order,
            uniform.resolution@[0],
        )[k] by {
            lemma_image_index(order, words, 4, k);
        }
    }
    assert(bytes.subrange(20, 24) =~= word_image(order, uniform.resolution@[1])) by {
        assert forall|k: int| 0 <= k < 4 implies bytes[20 + k] == word_image(
            order,
            uniform.resolution@[1],
        )[k] by {
            lemma_image_index(order, words, 5, k);
        }
    }
    assert forall|i: int| 4 <= i < 16 || 24 <= i < 32 implies #[trigger] bytes[i] == 0 by {
        lemma_image_index(order, words, i / 4, i % 4);
        assert(words[i / 4] == 0);
    }
}

impl Uniform for SystemUniform {
    open spec fn word_count() -> nat {
        8
    }

    open spec fn layout(&self) -> Seq<u32> {
        seq![self.time, 0, 0, 0, self.resolution@[0], self.resolution@[1], 0, 0]
    }

    open spec fn buffer_label(&self) -> &'static str {
        "System Buffer"
    }

    open spec fn bind_group_label(&self) -> &'static str {
        "System Bind Group"
    }

    proof fn lemma_layout(&self) {
    }

    fn get_buffer_label(&self) -> (label: &'static str) {
        "System Buffer"
    }

    fn get_bind_group_label(&self) -> (label: &'static str) {
        "System Bind Group"
    }

    fn words(&self) -> (words: Vec<u32>) {
        let words: Vec<u32> = vec![
            self.time,
            0,
            0,
            0,
            self.resolution[0],
            self.resolution[1],
            0,
            0,
        ];
        assert(words@ =~= self.layout());
        words
    }
}

} // verus!
