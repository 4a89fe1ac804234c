//! The immediate-mode draw layer: shapes are recorded as ranges of
//! vertices during a frame and drawn in one go. Its vertex buffer is
//! replaced by a larger one when a frame's vertices no longer fit, and
//! never shrinks.

use vstd::prelude::*;
use vstd::arithmetic::power2::is_pow2;
use crate::factories::render_pipeline::PrimitiveTopology;

verus! {

/// Bytes of the vertex buffer before it has grown.
pub const INITIAL_VERTEX_BUFFER_BYTES: u64 = 1024;

/// Bytes of one vertex: a position, a texture coordinate, a colour and
/// padding, twelve 32-bit floats in all.
pub const VERTEX_BYTES: u64 = 48;

/// Whether `power` is the smallest power of two that is not below `n`.
pub open spec fn least_power_of_two_at_least(power: int, n: int) -> bool {
    &&& is_pow2(power)
    &&& power >= n
    &&& forall|other: int| #[trigger] is_pow2(other) && other >= n ==> power <= other
}

/// What `ensure_capacity` did.
#[derive(Copy, Clone, Debug, PartialEq, Eq, Structural)]
pub enum Growth {
    /// The buffer was large enough and stays.
    Kept,
    /// The buffer has to be replaced by one of the new capacity.
    Reallocated,
    /// No buffer can hold that many bytes.
    TooLarge,
}

/// A GPU buffer of which only the capacity matters here.
#[derive(Copy, Clone, Debug, PartialEq, Eq, Structural)]
pub struct GrowableBuffer {
    pub capacity: u64,
}

impl GrowableBuffer {
    /// The vertex buffer of a fresh draw layer.
    pub fn new() -> (buffer: Self)
        ensures
            buffer.capacity == INITIAL_VERTEX_BUFFER_BYTES,
    {
        GrowableBuffer { capacity: INITIAL_VERTEX_BUFFER_BYTES }
    }

    /// Bytes that `vertex_count` vertices occupy; `None` where they do not
    /// fit in 64 bits.
    pub fn required_bytes(vertex_count: u64) -> (bytes: Option<u64>)
        ensures
            bytes is Some <==> vertex_count * VERTEX_BYTES <= u64::MAX,
            bytes is Some ==> bytes->0 == vertex_count * VERTEX_BYTES,
    {
        vertex_count.checked_mul(VERTEX_BYTES)
    }

    /// Makes room for `bytes` bytes. A buffer that holds them stays as it
    /// is; otherwise the capacity becomes the smallest power of two that
    /// holds them, and the buffer has to be created anew. Where no power
    /// of two in 64 bits holds them, nothing changes.
    pub fn ensure_capacity(&mut self, bytes: u64) -> (growth: Growth)
        ensures
            growth is Kept <==> bytes <= old(self).capacity,
            growth is TooLarge <==> bytes > old(self).capacity && bytes > 0x8000_0000_0000_0000,
            growth !is Reallocated ==> *final(self) == *old(self),
            growth is Reallocated ==> least_power_of_two_at_least(
                final(self).capacity as int,
                bytes as int,
            ),
            growth !is TooLarge ==> final(self).capacity >= bytes,
            final(self).capacity >= old(self).capacity,
    {
        if bytes <= self.capacity {
            return Growth::Kept;
        }
        match checked_next_power_of_two(bytes) {
            None => Growth::TooLarge,
            Some(capacity) => {
                self.capacity = capacity;
                Growth::Reallocated
            },
        }
    }
}

/// Number of transforms that a frame can hold, the identity at index 0
/// included.
pub const MAX_TRANSFORMS: usize = 1024;

/// The range of vertices of one shape, and what it is drawn with.
#[derive(Copy, Clone, Debug, PartialEq, Eq, Structural)]
pub struct DrawCommand {
    pub start_vertex: usize,
    pub end_vertex: usize,
    /// The texture of the shape; `None` stands for plain white.
    pub texture_id: Option<u64>,
    pub transform_id: usize,
    /// 0 for triangle lists, 1 for triangle strips.
    pub pipeline_index: usize,
}

/// One call on the render pass.
#[derive(Copy, Clone, Debug, PartialEq, Eq, Structural)]
pub enum DrawOp {
    SetPipeline(usize),
    /// Binds the uniforms of the pipeline, the model uniform at `offset`.
    SetUniforms { pipeline_index: usize, offset: u64 },
    /// Binds the texture, or the white texture of the pipeline.
    SetTexture { pipeline_index: usize, texture_id: Option<u64> },
    Draw { start: u32, end: u32 },
}

/// The shapes of one frame. The vertices themselves are kept by the
/// caller; the context counts them.
#[derive(Clone, Debug)]
pub struct DrawContext {
    pub commands: Vec<DrawCommand>,
    pub vertex_count: usize,
    /// The textures for which a bind group exists.
    pub textures: Vec<u64>,
    pub last_draw_command: DrawCommand,
    pub last_transform_index: usize,
    pub vertex_buffer: GrowableBuffer,
}

/// The command before any shape: no vertices, no texture, the identity.
pub open spec fn spec_blank_command() -> DrawCommand {
    DrawCommand {
        start_vertex: 0,
        end_vertex: 0,
        texture_id: None,
        transform_id: 0,
        pipeline_index: 0,
    }
}

/// The calls that draw `cmd` after a shape drawn with pipeline
/// `previous`: the pipeline is set where it differs from the one in use,
/// then the uniforms with the offset of the shape's transform, then the
/// texture, then the draw.
pub open spec fn command_ops(previous: Option<usize>, cmd: DrawCommand, alignment: u32) -> Seq<
    DrawOp,
> {
    let body = seq![
        DrawOp::SetUniforms {
            pipeline_index: cmd.pipeline_index,
            offset: (cmd.transform_id * alignment) as u64,
        },
        DrawOp::SetTexture { pipeline_index: cmd.pipeline_index, texture_id: cmd.texture_id },
        DrawOp::Draw { start: cmd.start_vertex as u32, end: cmd.end_vertex as u32 },
    ];
    if previous == Some(cmd.pipeline_index) {
        body
    } else {
        seq![DrawOp::SetPipeline(cmd.pipeline_index)] + body
    }
}

/// The pipeline in use after the commands `commands`.
pub open spec fn pipeline_after(commands: Seq<DrawCommand>) -> Option<usize> {
    if commands.len() == 0 {
        None
    } else {
        Some(commands.last().pipeline_index)
    }
}

/// The calls that draw `commands`, in order.
pub open spec fn spec_draw(commands: Seq<DrawCommand>, alignment: u32) -> Seq<DrawOp>
    decreases commands.len(),
{
    if commands.len() == 0 {
        Seq::empty()
    } else {
        spec_draw(commands.drop_last(), alignment) + command_ops(
            pipeline_after(commands.drop_last()),
            commands.last(),
            alignment,
        )
    }
}

impl DrawCommand {
    /// The range lies within `vertex_count` vertices, the transform within
    /// `transforms` transforms, and the pipeline is one of the two.
    pub open spec fn wf(self, vertex_count: usize, transforms: usize) -> bool {
        &&& self.start_vertex <= vertex_count
        &&& self.end_vertex <= vertex_count
        &&& self.transform_id <= transforms
        &&& self.pipeline_index < 2
    }
}

impl DrawContext {
    /// Every command recorded, and the one being recorded, lies within
    /// the vertices and transforms of the frame, and the frame's vertices
    /// can be numbered with 32 bits.
    pub open spec fn wf(&self) -> bool {
        &&& self.vertex_count <= u32::MAX
        &&& self.last_transform_index < MAX_TRANSFORMS
        &&& self.last_draw_command.wf(self.vertex_count, self.last_transform_index)
        &&& forall|i: int|
            0 <= i < self.commands@.len() ==> (#[trigger] self.commands@[i]).wf(
                self.vertex_count,
                self.last_transform_index,
            )
    }

    /// A draw layer without shapes or textures.
    pub fn new() -> (context: Self)
        ensures
            context.wf(),
            context.commands@.len() == 0,
            context.vertex_count == 0,
            context.textures@.len() == 0,
            context.last_draw_command == spec_blank_command(),
            context.last_transform_index == 0,
            context.vertex_buffer.capacity == INITIAL_VERTEX_BUFFER_BYTES,
    {
        DrawContext {
            commands: Vec::new(),
            vertex_count: 0,
            textures: Vec::new(),
            last_draw_command: DrawCommand {
                start_vertex: 0,
                end_vertex: 0,
                texture_id: None,
                transform_id: 0,
                pipeline_index: 0,
            },
            last_transform_index: 0,
            vertex_buffer: GrowableBuffer::new(),
        }
    }

    /// Begins a frame: the shapes, vertices and transforms of the frame
    /// before are forgotten; textures and the vertex buffer stay.
    pub fn start(&mut self)
        ensures
            final(self).wf(),
            final(self).commands@.len() == 0,
            final(self).vertex_count == 0,
            final(self).last_draw_command == spec_blank_command(),
            final(self).last_transform_index == 0,
            final(self).textures == old(self).textures,
            final(self).vertex_buffer == old(self).vertex_buffer,
    {
        self.commands = Vec::new();
        self.vertex_count = 0;
        self.last_transform_index = 0;
        self.last_draw_command = DrawCommand {
            start_vertex: 0,
            end_vertex: 0,
            texture_id: None,
            pipeline_index: 0,
            transform_id: 0,
        };
    }

    /// Ends a frame: makes room in the vertex buffer for the frame's
    /// vertices.
    pub fn end(&mut self) -> (growth: Growth)
        requires
            old(self).wf(),
        ensures
            final(self).wf(),
            growth is Kept <==> old(self).vertex_count * VERTEX_BYTES <= old(
                self,
            ).vertex_buffer.capacity,
            growth !is TooLarge,
            growth is Kept ==> final(self).vertex_buffer == old(self).vertex_buffer,
            growth is Reallocated ==> least_power_of_two_at_least(
                final(self).vertex_buffer.capacity as int,
                old(self).vertex_count * VERTEX_BYTES,
            ),
            final(self).commands == old(self).commands,
            final(self).vertex_count == old(self).vertex_count,
            final(self).textures == old(self).textures,
            final(self).last_draw_command == old(self).last_draw_command,
            final(self).last_transform_index == old(self).last_transform_index,
    {
        let data_size: u64 = (self.vertex_count as u64) * VERTEX_BYTES;
        self.vertex_buffer.ensure_capacity(data_size)
    }

    /// Begins a shape at the next vertex. The first shape of a frame
    /// begins where the command being recorded says.
    pub fn begin_shape(&mut self)
        requires
            old(self).wf(),
        ensures
            final(self).wf(),
            *final(self) == (DrawContext {
                last_draw_command: DrawCommand {
                    start_vertex: if old(self).vertex_count != 0 {
                        old(self).vertex_count
                    } else {
                        old(self).last_draw_command.start_vertex
                    },
                    ..old(self).last_draw_command
                },
                ..*old(self)
            }),
    {
        if self.vertex_count != 0 {
            self.last_draw_command.start_vertex = self.vertex_count;
        }
    }

    /// Ends a shape behind the last vertex and records it.
    pub fn end_shape(&mut self)
        requires
            old(self).wf(),
        ensures
            final(self).wf(),
            final(self).last_draw_command == (DrawCommand {
                end_vertex: old(self).vertex_count,
                ..old(self).last_draw_command
            }),
            final(self).commands@ == old(self).commands@.push(final(self).last_draw_command),
            final(self).vertex_count == old(self).vertex_count,
            final(self).textures == old(self).textures,
            final(self).last_transform_index == old(self).last_transform_index,
            final(self).vertex_buffer == old(self).vertex_buffer,
    {
        self.last_draw_command.end_vertex = self.vertex_count;
        self.commands.push(self.last_draw_command);
    }

    /// Counts `count` more vertices.
    pub fn push_vertices(&mut self, count: usize)
        requires
            old(self).wf(),
            old(self).vertex_count + count <= u32::MAX,
        ensures
            final(self).wf(),
            *final(self) == (DrawContext {
                vertex_count: (old(self).vertex_count + count) as usize,
                ..*old(self)
            }),
    {
        self.vertex_count = self.vertex_count + count;
    }

    /// Counts one more vertex.
    pub fn push_vertex(&mut self)
        requires
            old(self).wf(),
            old(self).vertex_count < u32::MAX,
        ensures
            final(self).wf(),
            *final(self) == (DrawContext {
                vertex_count: (old(self).vertex_count + 1) as usize,
                ..*old(self)
            }),
    {
        self.push_vertices(1);
    }

    /// Draws the shapes that follow with the texture `id`, and says
    /// whether a bind group has to be made for it: that is so the first
    /// time the texture is seen.
    pub fn push_texture(&mut self, id: u64) -> (fresh: bool)
        requires
            old(self).wf(),
        ensures
            final(self).wf(),
            fresh == !old(self).textures@.contains(id),
            final(self).textures@ == (if fresh {
                old(self).textures@.push(id)
            } else {
                old(self).textures@
            }),
            final(self).last_draw_command == (DrawCommand {
                texture_id: Some(id),
                ..old(self).last_draw_command
            }),
            final(self).commands == old(self).commands,
            final(self).vertex_count == old(self).vertex_count,
            final(self).last_transform_index == old(self).last_transform_index,
            final(self).vertex_buffer == old(self).vertex_buffer,
    {
        let mut known: bool = false;
        let mut index: usize = 0;
        while index < self.textures.len()
            invariant
                index <= self.textures@.len(),
                known == self.textures@.take(index as int).contains(id),
            decreases self.textures@.len() - index,
        {
            proof {
                let before = self.textures@.take(index as int);
                let after = self.textures@.take(index + 1);
                assert(after == before.push(self.textures@[index as int]));
                assert(after.contains(id) <==> before.contains(id) || self.textures@[index as int]
                    == id) by {
                    if before.contains(id) {
                        let k = choose|k: int| 0 <= k < before.len() && before[k] == id;
                        assert(after[k] == id);
                    }
                    if self.textures@[index as int] == id {
                        assert(after[index as int] == id);
                    }
                }
            }
            if self.textures[index] == id {
                known = true;
            }
            index = index + 1;
        }
        assert(self.textures@.take(self.textures@.len() as int) == self.textures@);
        if !known {
            self.textures.push(id);
        }
        self.last_draw_command.texture_id = Some(id);
        !known
    }

    /// Draws the shapes that follow in plain white.
    pub fn pop_texture(&mut self)
        requires
            old(self).wf(),
        ensures
            final(self).wf(),
            *final(self) == (DrawContext {
                last_draw_command: DrawCommand { texture_id: None, ..old(self).last_draw_command },
                ..*old(self)
            }),
    {
        self.last_draw_command.texture_id = None;
    }

    /// Draws the shapes that follow with a new transform, and says at
    /// which index its matrix is to be stored; `None`, and nothing
    /// changes, where the frame's transforms are used up.
    pub fn set_transform(&mut self) -> (index: Option<usize>)
        requires
            old(self).wf(),
        ensures
            final(self).wf(),
            index is Some <==> old(self).last_transform_index + 1 < MAX_TRANSFORMS,
            index is None ==> *final(self) == *old(self),
            index is Some ==> index->0 == old(self).last_transform_index + 1 && *final(self) == (
            DrawContext {
                last_transform_index: index->0,
                last_draw_command: DrawCommand {
                    transform_id: index->0,
                    ..old(self).last_draw_command
                },
                ..*old(self)
            }),
    {
        if self.last_transform_index + 1 >= MAX_TRANSFORMS {
            return None;
        }
        self.last_transform_index = self.last_transform_index + 1;
        self.last_draw_command.transform_id = self.last_transform_index;
        Some(self.last_transform_index)
    }

    /// Draws the shapes that follow without a transform.
    pub fn clear_transform(&mut self)
        requires
            old(self).wf(),
        ensures
            final(self).wf(),
            *final(self) == (DrawContext {
                last_draw_command: DrawCommand { transform_id: 0, ..old(self).last_draw_command },
                ..*old(self)
            }),
    {
        self.last_draw_command.transform_id = 0;
    }

    /// Draws the shapes that follow as triangle lists or as triangle
    /// strips.
    pub fn set_draw_mode(&mut self, primitive: PrimitiveTopology)
        requires
            old(self).wf(),
            primitive is TriangleList || primitive is TriangleStrip,
        ensures
            final(self).wf(),
            *final(self) == (DrawContext {
                last_draw_command: DrawCommand {
                    pipeline_index: if primitive is TriangleList {
                        0
                    } else {
                        1
                    },
                    ..old(self).last_draw_command
                },
                ..*old(self)
            }),
    {
        match primitive {
            PrimitiveTopology::TriangleList => self.last_draw_command.pipeline_index = 0,
            PrimitiveTopology::TriangleStrip => self.last_draw_command.pipeline_index = 1,
            _ => {},
        }
    }

    /// Records a shape of `vertex_count` vertices that is drawn with the
    /// pipeline `pipeline_index`.
    pub fn push_shape(&mut self, vertex_count: usize, pipeline_index: usize)
        requires
            old(self).wf(),
            old(self).vertex_count + vertex_count <= u32::MAX,
            pipeline_index < 2,
        ensures
            final(self).wf(),
            final(self).vertex_count == old(self).vertex_count + vertex_count,
            final(self).last_draw_command == (DrawCommand {
                start_vertex: if old(self).vertex_count != 0 {
                    old(self).vertex_count
                } else {
                    old(self).last_draw_command.start_vertex
                },
                end_vertex: final(self).vertex_count,
                pipeline_index,
                ..old(self).last_draw_command
            }),
            final(self).commands@ == old(self).commands@.push(final(self).last_draw_command),
            final(self).textures == old(self).textures,
            final(self).last_transform_index == old(self).last_transform_index,
            final(self).vertex_buffer == old(self).vertex_buffer,
    {
        self.begin_shape();
        self.last_draw_command.pipeline_index = pipeline_index;
        self.push_vertices(vertex_count);
        self.end_shape();
    }

    /// Records a rectangle: two triangles, six vertices, as a triangle
    /// list.
    pub fn push_rect(&mut self)
        requires
            old(self).wf(),
            old(self).vertex_count + 6 <= u32::MAX,
        ensures
            final(self).wf(),
            final(self).vertex_count == old(self).vertex_count + 6,
            final(self).commands@.len() == old(self).commands@.len() + 1,
            final(self).commands@.last() == final(self).last_draw_command,
            final(self).commands@.drop_last() == old(self).commands@,
            final(self).last_draw_command.end_vertex == final(self).vertex_count,
            final(self).last_draw_command.pipeline_index == 0,
    {
        self.push_shape(6, 0);
    }

    /// Records a filled circle of `segments` triangles, three vertices
    /// each, as a triangle list.
    pub fn push_circle(&mut self, segments: usize)
        requires
            old(self).wf(),
            old(self).vertex_count + 3 * segments <= u32::MAX,
        ensures
            final(self).wf(),
            final(self).vertex_count == old(self).vertex_count + 3 * segments,
            final(self).commands@.len() == old(self).commands@.len() + 1,
            final(self).commands@.last() == final(self).last_draw_command,
            final(self).commands@.drop_last() == old(self).commands@,
            final(self).last_draw_command.end_vertex == final(self).vertex_count,
            final(self).last_draw_command.pipeline_index == 0,
    {
        self.push_shape(3 * segments, 0);
    }

    /// Records a line through `point_count` points: six vertices for
    /// every segment, as a triangle strip. Fewer than two points make no
    /// line, and nothing is recorded.
    pub fn push_line(&mut self, point_count: usize)
        requires
            old(self).wf(),
            point_count >= 2 ==> old(self).vertex_count + 6 * (point_count - 1) <= u32::MAX,
        ensures
            final(self).wf(),
            point_count < 2 ==> *final(self) == *old(self),
            point_count >= 2 ==> final(self).vertex_count == old(self).vertex_count + 6 * (
            point_count - 1),
            point_count >= 2 ==> final(self).commands@.len() == old(self).commands@.len() + 1,
            point_count >= 2 ==> final(self).commands@.last() == final(self).last_draw_command,
            point_count >= 2 ==> final(self).commands@.drop_last() == old(self).commands@,
            point_count >= 2 ==> final(self).last_draw_command.end_vertex
                == final(self).vertex_count,
            point_count >= 2 ==> final(self).last_draw_command.pipeline_index == 1,
    {
        if point_count < 2 {
            return ;
        }
        self.push_shape(6 * (point_count - 1), 1);
    }

    /// Records the outline of a circle: a line through seventeen points,
    /// the last on the first.
    pub fn push_circle_stroke(&mut self)
        requires
            old(self).wf(),
            old(self).vertex_count + 96 <= u32::MAX,
        ensures
            final(self).wf(),
            final(self).vertex_count == old(self).vertex_count + 96,
            final(self).commands@.len() == old(self).commands@.len() + 1,
            final(self).last_draw_command.pipeline_index == 1,
    {
        self.last_draw_command.pipeline_index = 0;
        self.push_line(17);
    }

    /// The calls that draw the frame's shapes, on a device whose uniform
    /// offsets are multiples of `uniform_alignment`.
    pub fn draw(&self, uniform_alignment: u32) -> (ops: Vec<DrawOp>)
        requires
            self.wf(),
        ensures
            ops@ == spec_draw(self.commands@, uniform_alignment),
    {
        let mut ops: Vec<DrawOp> = Vec::new();
        let mut prev_pipeline: Option<usize> = None;
        let mut index: usize = 0;
        while index < self.commands.len()
            invariant
                self.wf(),
                index <= self.commands@.len(),
                prev_pipeline == pipeline_after(self.commands@.take(index as int)),
                ops@ == spec_draw(self.commands@.take(index as int), uniform_alignment),
            decreases self.commands@.len() - index,
        {
            let cmd = self.commands[index];
            proof {
                let next = self.commands@.take(index + 1);
                assert(next.drop_last() == self.commands@.take(index as int));
                assert(next.last() == cmd);
                assert(cmd.wf(self.vertex_count, self.last_transform_index));
                assert(cmd.transform_id * uniform_alignment <= 1024 * 0xffff_ffff)
                    by (nonlinear_arith)
                    requires
                        cmd.transform_id <= 1024,
                        uniform_alignment <= 0xffff_ffff,
                ;
            }
            let switch: bool = match prev_pipeline {
                Some(prev_index) => cmd.pipeline_index != prev_index,
                None => true,
            };
            if switch {
                ops.push(DrawOp::SetPipeline(cmd.pipeline_index));
            }
            let offset: u64 = (cmd.transform_id as u64) * (uniform_alignment as u64);
            ops.push(DrawOp::SetUniforms { pipeline_index: cmd.pipeline_index, offset });
            ops.push(
                DrawOp::SetTexture { pipeline_index: cmd.pipeline_index, texture_id: cmd.texture_id },
            );
            ops.push(DrawOp::Draw { start: cmd.start_vertex as u32, end: cmd.end_vertex as u32 });
            prev_pipeline = Some(cmd.pipeline_index);
            index = index + 1;
        }
        assert(self.commands@.take(self.commands@.len() as int) == self.commands@);
        ops
    }
}

/// Calls `u64::checked_next_power_of_two`. The contract claims what the
/// documentation of that function says: the result is the smallest power
/// of two greater than or equal to `n`, and it is `None` exactly where
/// that power does not fit in 64 bits, which is from `2^63 + 1` on.
#[verifier::external_body]
fn checked_next_power_of_two(n: u64) -> (power: Option<u64>)
    ensures
        power is Some <==> n <= 0x8000_0000_0000_0000,
        power is Some ==> least_power_of_two_at_least(power->0 as int, n as int),
{
    n.checked_next_power_of_two()
}

} // verus!
