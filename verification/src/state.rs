//! The drawing surface: its size, its depth buffer, and the layout of the
//! buffer through which its texels are read back.

use vstd::prelude::*;
use vstd::arithmetic::div_mod::{lemma_fundamental_div_mod_converse, lemma_mod_multiples_basic};
use crate::factories::texture::{DepthTextureFactory, TextureBundle};
use crate::pipelines::ceil_multiple;

verus! {

/// Bytes of one texel of the surface: four 8-bit channels.
pub const SURFACE_BYTES_PER_PIXEL: u32 = 4;

/// Width and height of a surface, in pixels.
#[derive(Copy, Clone, Debug, PartialEq, Eq, Structural)]
pub struct Size {
    pub width: u32,
    pub height: u32,
}

impl Size {
    /// A size of `width` by `height` pixels.
    pub fn new(width: u32, height: u32) -> (size: Self)
        ensures
            size.width == width,
            size.height == height,
    {
        Self { width, height }
    }

    /// Whether a surface of this size has no pixel.
    pub fn is_empty(&self) -> (empty: bool)
        ensures
            empty == (self.width == 0 || self.height == 0),
    {
        self.width == 0 || self.height == 0
    }
}

/// What the renderer knows of the surface it draws to.
#[derive(Copy, Clone, Debug, PartialEq, Eq, Structural)]
pub struct State {
    /// The size that the surface is configured with.
    pub surface_size: Size,
    /// The depth buffer, where the surface has one.
    pub depth_texture: Option<TextureBundle>,
    /// Samples per pixel.
    pub sample_count: u32,
}

impl State {
    /// The state after a request to resize to `new_size`: a request for an
    /// empty surface changes nothing; any other is taken over, and a
    /// depth buffer that exists is replaced by one of the new size.
    pub open spec fn spec_resize(self, new_size: Size) -> State {
        if new_size.width > 0 && new_size.height > 0 {
            State {
                surface_size: new_size,
                depth_texture: if self.depth_texture is Some {
                    Some(DepthTextureFactory::spec_new(new_size, self.sample_count))
                } else {
                    None
                },
                sample_count: self.sample_count,
            }
        } else {
            self
        }
    }

    /// The state of a surface of `window_size` pixels with `sample_count`
    /// samples per pixel and a depth buffer.
    pub fn new(sample_count: u32, window_size: Size) -> (state: Self)
        ensures
            state.surface_size == window_size,
            state.sample_count == sample_count,
            state.depth_texture == Some(DepthTextureFactory::spec_new(window_size, sample_count)),
    {
        State {
            surface_size: window_size,
            depth_texture: Some(DepthTextureFactory::new(window_size, sample_count)),
            sample_count,
        }
    }

    /// Takes a request to resize to `new_size`, and says whether the
    /// surface has to be configured anew.
    pub fn resize(&mut self, new_size: Size) -> (changed: bool)
        ensures
            *final(self) == old(self).spec_resize(new_size),
            changed == (new_size.width > 0 && new_size.height > 0),
    {
        if new_size.width > 0 && new_size.height > 0 {
            self.surface_size = new_size;
            if self.depth_texture.is_some() {
                self.depth_texture = Some(DepthTextureFactory::new(new_size, self.sample_count));
            }
            true
        } else {
            false
        }
    }

    /// Samples per pixel.
    pub fn get_sample_count(&self) -> (count: u32)
        ensures
            count == self.sample_count,
    {
        self.sample_count
    }
}

/// Layout of the buffer that receives the texels of a surface: rows of
/// `unpadded_bytes_per_row` bytes, each at a multiple of
/// `padded_bytes_per_row` bytes.
#[derive(Copy, Clone, Debug, PartialEq, Eq, Structural)]
pub struct ReadbackLayout {
    pub unpadded_bytes_per_row: u32,
    pub padded_bytes_per_row: u32,
    pub rows: u32,
    pub buffer_size: u64,
}

impl ReadbackLayout {
    /// Bytes of a row of `width` texels.
    pub open spec fn spec_unpadded(width: u32) -> nat {
        (width * SURFACE_BYTES_PER_PIXEL) as nat
    }

    /// Bytes from the start of one row to the start of the next: the
    /// bytes of a row, rounded up to a multiple of 256.
    pub open spec fn spec_padded(width: u32) -> nat {
        ceil_multiple(Self::spec_unpadded(width), 256)
    }

    /// The layout for a surface of `width` by `height` texels, where the
    /// distance between rows fits in 32 bits.
    pub open spec fn spec_new(width: u32, height: u32) -> Option<ReadbackLayout> {
        if Self::spec_padded(width) <= u32::MAX {
            Some(
                ReadbackLayout {
                    unpadded_bytes_per_row: Self::spec_unpadded(width) as u32,
                    padded_bytes_per_row: Self::spec_padded(width) as u32,
                    rows: height,
                    buffer_size: (Self::spec_padded(width) * height) as u64,
                },
            )
        } else {
            None
        }
    }

    /// Rows do not overlap, and the buffer holds them all.
    pub open spec fn wf(self) -> bool {
        &&& self.unpadded_bytes_per_row <= self.padded_bytes_per_row
        &&& self.buffer_size == self.padded_bytes_per_row * self.rows
    }

    /// The texels of the rows, without the padding between them: byte
    /// `c` of row `r` is byte `r * padded_bytes_per_row + c` of `data`.
    pub open spec fn spec_strip(self, data: Seq<u8>) -> Seq<u8> {
        Seq::new(
            (self.rows * self.unpadded_bytes_per_row) as nat,
            |i: int|
                data[(i / (self.unpadded_bytes_per_row as int)) * self.padded_bytes_per_row + i % (
                self.unpadded_bytes_per_row as int)],
        )
    }

    /// The layout for a surface of `width` by `height` texels; `None`
    /// where the distance between rows does not fit in 32 bits.
    pub fn new(width: u32, height: u32) -> (layout: Option<ReadbackLayout>)
        ensures
            layout == Self::spec_new(width, height),
            layout is Some ==> layout->0.wf(),
    {
        assert(width * SURFACE_BYTES_PER_PIXEL == 4 * width) by (nonlinear_arith)
            requires
                SURFACE_BYTES_PER_PIXEL == 4,
        ;
        let unpadded: u64 = (width as u64) * (SURFACE_BYTES_PER_PIXEL as u64);
        let align: u64 = copy_bytes_per_row_alignment() as u64;
        let bumped: u64 = unpadded + align - 1;
        let padded: u64 = bumped & !(align - 1);
        assert(padded == (bumped / 256) * 256) by (bit_vector)
            requires
                padded == bumped & !255u64,
        ;
        if padded > u32::MAX as u64 {
            return None;
        }
        assert(padded * height <= 0xffff_ffff * 0xffff_ffff) by (nonlinear_arith)
            requires
                padded <= 0xffff_ffff,
                height <= 0xffff_ffff,
        ;
        Some(
            ReadbackLayout {
                unpadded_bytes_per_row: unpadded as u32,
                padded_bytes_per_row: padded as u32,
                rows: height,
                buffer_size: padded * (height as u64),
            },
        )
    }

    /// The texels of the rows in `data`, without the padding between
    /// them; `None` where `data` is shorter than the buffer that the
    /// layout describes.
    pub fn strip_row_padding(&self, data: &[u8]) -> (texels: Option<Vec<u8>>)
        requires
            self.wf(),
        ensures
            texels is Some <==> data@.len() >= self.buffer_size,
            texels is Some ==> texels->0@ == self.spec_strip(data@),
    {
        if (data.len() as u64) < self.buffer_size {
            return None;
        }
        let unpadded: usize = self.unpadded_bytes_per_row as usize;
        let padded: usize = self.padded_bytes_per_row as usize;
        let rows: usize = self.rows as usize;
        let length: usize = data.len();
        let mut texels: Vec<u8> = Vec::new();
        let mut row: usize = 0;
        while row < rows
            invariant
                self.wf(),
                data@.len() == length,
                unpadded == self.unpadded_bytes_per_row,
                padded == self.padded_bytes_per_row,
                rows == self.rows,
                data@.len() >= self.buffer_size,
                row <= rows,
                texels@.len() == row * unpadded,
                forall|i: int|
                    0 <= i < row * unpadded ==> texels@[i] == data@[(i / (unpadded as int))
                        * padded + i % (unpadded as int)],
            decreases rows - row,
        {
            let ghost size = self.buffer_size as int;
            assert(row * padded + padded <= size && row * unpadded + unpadded == (row + 1)
                * unpadded) by (nonlinear_arith)
                requires
                    0 <= row < rows,
                    0 <= padded,
                    size == padded * rows,
            ;
            let start: usize = row * padded;
            let mut column: usize = 0;
            while column < unpadded
                invariant
                    self.wf(),
                    data@.len() == length,
                    unpadded == self.unpadded_bytes_per_row,
                    padded == self.padded_bytes_per_row,
                    data@.len() >= self.buffer_size,
                    start == row * padded,
                    start + padded <= data@.len(),
                    column <= unpadded <= padded,
                    texels@.len() == row * unpadded + column,
                    forall|i: int|
                        0 <= i < row * unpadded + column ==> texels@[i] == data@[(i / (
                        unpadded as int)) * padded + i % (unpadded as int)],
                decreases unpadded - column,
            {
                proof {
                    lemma_fundamental_div_mod_converse(
                        row * unpadded + column,
                        unpadded as int,
                        row as int,
                        column as int,
                    );
                }
                texels.push(data[start + column]);
                column = column + 1;
            }
            row = row + 1;
        }
        Some(texels)
    }
}

/// The padding of rows is what it has to be: the distance between rows is
/// a multiple of 256, holds a row, and is less than 256 bytes longer.
pub proof fn lemma_padded_row(width: u32)
    ensures
        ReadbackLayout::spec_padded(width) % 256 == 0,
        ReadbackLayout::spec_unpadded(width) <= ReadbackLayout::spec_padded(width)
            < ReadbackLayout::spec_unpadded(width) + 256,
{
    crate::pipelines::lemma_ceil_multiple_is_least(ReadbackLayout::spec_unpadded(width), 256);
}

/// Reads `wgpu::COPY_BYTES_PER_ROW_ALIGNMENT`, the multiple that the
/// distance between rows of a buffer must be when a texture is copied
/// into it. The contract claims that it is 256.
#[verifier::external_body]
fn copy_bytes_per_row_alignment() -> (alignment: u32)
    ensures
        alignment == 256,
{
    wgpu::COPY_BYTES_PER_ROW_ALIGNMENT
}

} // verus!
