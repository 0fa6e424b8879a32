//! The per-frame state of the draw pipeline: the atlas, the capacity of the
//! instance buffer, and the number of instances to draw.

use vstd::prelude::*;
use crate::cache::{Cache, Region, TextureLayout, TextureWrite};

verus! {

/// Number of vertices of the triangle strip that forms one glyph quad.
pub const VERTICES_PER_INSTANCE: u32 = 4;

/// What has to happen to the instance buffer so that it holds a frame's
/// instance records.
#[derive(Debug, Clone, Copy, PartialEq, Eq, Structural)]
pub enum BufferUpdate {
    /// Allocate a new buffer of exactly `len` records and fill it.
    Recreate { len: usize },
    /// Write `len` records into the existing buffer, starting at `offset`.
    Write { offset: u64, len: usize },
}

/// A clip rectangle together with the size of the output it refers to.
#[derive(Debug, Clone, Copy, PartialEq, Eq, Structural)]
pub struct ScissorRegion {
    /// x coordinate of the top-left corner.
    pub x: u32,
    /// y coordinate of the top-left corner.
    pub y: u32,
    /// Width of the clip rectangle.
    pub width: u32,
    /// Height of the clip rectangle.
    pub height: u32,
    /// Width of the output.
    pub out_width: u32,
    /// Height of the output.
    pub out_height: u32,
}

/// A clip rectangle that lies inside the output.
#[derive(Debug, Clone, Copy, PartialEq, Eq, Structural)]
pub struct ScissorRect {
    pub x: u32,
    pub y: u32,
    pub width: u32,
    pub height: u32,
}

/// One instanced draw: `vertices` vertices per instance, `instances`
/// instances, clipped to `scissor` where one is set.
#[derive(Debug, Clone, Copy, PartialEq, Eq, Structural)]
pub struct DrawCommand {
    pub vertices: u32,
    pub instances: u32,
    pub scissor: Option<ScissorRect>,
}

/// The smaller of two lengths.
pub open spec fn shorter(a: int, b: int) -> int {
    if a <= b {
        a
    } else {
        b
    }
}

impl ScissorRegion {
    /// The top-left corner lies inside the output, so that some part of the
    /// output can lie inside the region.
    pub open spec fn contained(&self) -> bool {
        self.x < self.out_width && self.y < self.out_height
    }

    /// The part of the region that lies inside the output.
    pub open spec fn visible(&self) -> ScissorRect
        recommends
            self.contained(),
    {
        ScissorRect {
            x: self.x,
            y: self.y,
            width: shorter(self.width as int, self.out_width - self.x) as u32,
            height: shorter(self.height as int, self.out_height - self.y) as u32,
        }
    }

    /// The rectangle to clip to, if any: a region that starts outside the
    /// output is not applied.
    pub open spec fn applied(&self) -> Option<ScissorRect> {
        if self.contained() {
            Some(self.visible())
        } else {
            None
        }
    }

    /// Checks if the region is contained in the output bounds at all.
    pub fn is_contained(&self) -> (b: bool)
        ensures
            b == self.contained(),
    {
        self.x < self.out_width && self.y < self.out_height
    }

    /// The width and height of the region that fit into the output.
    pub fn available_bounds(&self) -> (bounds: (u32, u32))
        requires
            self.contained(),
        ensures
            bounds.0 == shorter(self.width as int, self.out_width - self.x),
            bounds.1 == shorter(self.height as int, self.out_height - self.y),
            self.x + bounds.0 <= self.out_width,
            self.y + bounds.1 <= self.out_height,
    {
        let room_x: u32 = self.out_width - self.x;
        let room_y: u32 = self.out_height - self.y;
        let width: u32 = if self.width <= room_x {
            self.width
        } else {
            room_x
        };
        let height: u32 = if self.height <= room_y {
            self.height
        } else {
            room_y
        };
        (width, height)
    }

    /// The rectangle to clip to: the part of the region inside the output,
    /// or nothing when the region starts outside of it.
    pub fn scissor_rect(&self) -> (rect: Option<ScissorRect>)
        ensures
            rect == self.applied(),
            rect matches Some(r) ==> r.x + r.width <= self.out_width && r.y + r.height
                <= self.out_height,
    {
        if self.is_contained() {
            let bounds = self.available_bounds();
            Some(ScissorRect { x: self.x, y: self.y, width: bounds.0, height: bounds.1 })
        } else {
            None
        }
    }
}

/// The capacity of the instance buffer after a frame of `count` instances:
/// it grows to `count` when that exceeds it, and never shrinks.
pub open spec fn grown_capacity(capacity: nat, count: nat) -> nat {
    if count > capacity {
        count
    } else {
        capacity
    }
}

/// The capacity of the instance buffer after a run of frames, given the
/// instance count of each.
pub open spec fn capacity_after(initial: nat, counts: Seq<nat>) -> nat
    decreases counts.len(),
{
    if counts.len() == 0 {
        initial
    } else {
        grown_capacity(capacity_after(initial, counts.drop_last()), counts.last())
    }
}

/// The largest instance count among the frames, or zero for no frame.
pub open spec fn largest(counts: Seq<nat>) -> nat
    decreases counts.len(),
{
    if counts.len() == 0 {
        0
    } else {
        grown_capacity(largest(counts.drop_last()), counts.last())
    }
}

/// After any run of frames the capacity is the larger of the initial
/// capacity and the largest instance count seen.
pub proof fn lemma_capacity_is_largest(initial: nat, counts: Seq<nat>)
    ensures
        capacity_after(initial, counts) == grown_capacity(initial, largest(counts)),
    decreases counts.len(),
{
    if counts.len() > 0 {
        lemma_capacity_is_largest(initial, counts.drop_last());
    }
}

/// The capacity after any run of frames is at least the initial capacity.
pub proof fn lemma_capacity_at_least_initial(initial: nat, counts: Seq<nat>)
    ensures
        initial <= capacity_after(initial, counts),
    decreases counts.len(),
{
    if counts.len() > 0 {
        lemma_capacity_at_least_initial(initial, counts.drop_last());
    }
}

/// The capacity never decreases: after `j` frames it is at least what it
/// was after the first `i <= j` of them.
pub proof fn lemma_capacity_never_decreases(initial: nat, counts: Seq<nat>, i: int, j: int)
    requires
        0 <= i <= j <= counts.len(),
    ensures
        capacity_after(initial, counts.take(i)) <= capacity_after(initial, counts.take(j)),
    decreases j,
{
    if i < j {
        lemma_capacity_never_decreases(initial, counts, i, j - 1);
        assert(counts.take(j).drop_last() =~= counts.take(j - 1));
    }
}

/// After `i` frames the capacity is at least the instance count of each of
/// those frames.
pub proof fn lemma_capacity_covers_every_frame(initial: nat, counts: Seq<nat>, i: int, k: int)
    requires
        0 <= k < i <= counts.len(),
    ensures
        capacity_after(initial, counts.take(i)) >= counts[k],
    decreases i,
{
    assert(counts.take(i).drop_last() =~= counts.take(i - 1));
    assert(counts.take(i).last() == counts[i - 1]);
    if k < i - 1 {
        lemma_capacity_covers_every_frame(initial, counts, i - 1, k);
    }
}

/// Responsible for drawing text.
#[derive(Debug)]
pub struct Pipeline {
    cache: Cache,
    vertex_buffer_max_len: usize,
    vertex_count: u32,
}

impl Pipeline {
    /// Dimensions of the atlas texture.
    pub closed spec fn atlas(&self) -> (u32, u32) {
        self.cache.dimensions()
    }

    /// Number of instance records the instance buffer has room for.
    pub closed spec fn capacity(&self) -> nat {
        self.vertex_buffer_max_len as nat
    }

    /// Number of instances the next draw call renders.
    pub closed spec fn instances(&self) -> u32 {
        self.vertex_count
    }

    /// A pipeline with an atlas of the given dimensions, an empty instance
    /// buffer and nothing to draw.
    pub fn new(tex_dimensions: (u32, u32)) -> (pipeline: Pipeline)
        ensures
            pipeline.atlas() == tex_dimensions,
            pipeline.capacity() == 0,
            pipeline.instances() == 0,
    {
        Pipeline { cache: Cache::new(tex_dimensions), vertex_buffer_max_len: 0, vertex_count: 0 }
    }

    /// Dimensions of the atlas texture.
    pub fn texture_dimensions(&self) -> (d: (u32, u32))
        ensures
            d == self.atlas(),
    {
        self.cache.texture_dimensions()
    }

    /// Number of instance records the instance buffer has room for.
    pub fn vertex_buffer_len(&self) -> (len: usize)
        ensures
            len == self.capacity(),
    {
        self.vertex_buffer_max_len
    }

    /// Number of instances the next draw call renders.
    pub fn vertex_count(&self) -> (count: u32)
        ensures
            count == self.instances(),
    {
        self.vertex_count
    }

    /// The draw call for the current frame: one triangle-strip quad per
    /// instance, clipped to the part of `region` inside the output. With
    /// nothing to draw there is no draw call.
    pub fn draw(&self, region: Option<ScissorRegion>) -> (command: Option<DrawCommand>)
        ensures
            self.instances() == 0 ==> command.is_none(),
            self.instances() != 0 ==> command == Some(
                DrawCommand {
                    vertices: VERTICES_PER_INSTANCE,
                    instances: self.instances(),
                    scissor: match region {
                        Some(r) => r.applied(),
                        None => None,
                    },
                },
            ),
    {
        if self.vertex_count != 0 {
            let scissor = match region {
                Some(r) => r.scissor_rect(),
                None => None,
            };
            Some(
                DrawCommand {
                    vertices: VERTICES_PER_INSTANCE,
                    instances: self.vertex_count,
                    scissor,
                },
            )
        } else {
            None
        }
    }

    /// Takes in a frame of `vertices` instance records. The buffer is
    /// reallocated at exactly that length when it is too short, and written
    /// in place from the start otherwise; its capacity never shrinks. The
    /// instance count of the next draw is `vertices`, cut to 32 bits.
    pub fn update_vertex_buffer(&mut self, vertices: usize) -> (update: BufferUpdate)
        ensures
            final(self).atlas() == old(self).atlas(),
            final(self).capacity() == grown_capacity(old(self).capacity(), vertices as nat),
            final(self).instances() == vertices as u32,
            vertices <= u32::MAX ==> final(self).instances() == vertices,
            update == if vertices > old(self).capacity() {
                BufferUpdate::Recreate { len: vertices }
            } else {
                BufferUpdate::Write { offset: 0, len: vertices }
            },
    {
        self.vertex_count = #[verifier::truncate]
        (vertices as u32);
        if vertices > self.vertex_buffer_max_len {
            self.vertex_buffer_max_len = vertices;
            return BufferUpdate::Recreate { len: vertices };
        }
        BufferUpdate::Write { offset: 0, len: vertices }
    }

    /// Lays out the upload of a glyph bitmap into the rectangle `size` of
    /// the atlas.
    pub fn update_texture(&self, size: Region) -> (write: TextureWrite)
        requires
            size.within(self.atlas()),
        ensures
            write == Cache::write_of(size),
            write.x + write.width <= self.atlas().0,
            write.y + write.height <= self.atlas().1,
    {
        self.cache.update_texture(size)
    }

    /// Replaces the atlas by a fresh one of the given dimensions. The
    /// instance buffer is left as it is.
    pub fn resize_texture(&mut self, tex_dimensions: (u32, u32)) -> (layout: TextureLayout)
        ensures
            final(self).atlas() == tex_dimensions,
            final(self).capacity() == old(self).capacity(),
            final(self).instances() == old(self).instances(),
            layout == Cache::layout_of(tex_dimensions),
    {
        self.cache.recreate_texture(tex_dimensions)
    }
}

} // verus!
