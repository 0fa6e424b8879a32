//! The decisions of one "process queued text" pass: what to do with the
//! outcome of glyph processing, and how the atlas grows when it overflows.

use vstd::prelude::*;
use crate::cache::{Cache, Region, TextureLayout, TextureWrite};
use crate::error::BrushError;
use crate::pipeline::{grown_capacity, BufferUpdate, DrawCommand, Pipeline, ScissorRegion};

verus! {

/// What glyph processing reported for the queued text.
#[derive(Debug, Clone, Copy, PartialEq, Eq)]
pub enum Processed {
    /// New or changed instance data, `vertices` records of it.
    Draw { vertices: usize },
    /// Nothing changed since the last pass; the last frame's instances
    /// are drawn again.
    ReDraw,
    /// The atlas is too small for the queued glyphs; a larger size is
    /// suggested.
    TextureTooSmall { suggested: (u32, u32) },
}

/// What the caller has to do after one round of glyph processing.
#[derive(Debug, Clone, Copy, PartialEq, Eq, Structural)]
pub enum Step {
    /// Bring the instance buffer up to date, then the pass is over.
    Upload(BufferUpdate),
    /// Touch nothing; the pass is over.
    Keep,
    /// Recreate the atlas texture as described, tell the glyph cache its
    /// new size, and process the queued text again.
    Grow(TextureLayout),
    /// Give up: the atlas cannot grow any further.
    Fail(BrushError),
}

/// `side`, cut down to `limit`.
pub open spec fn clamped(side: u32, limit: u32) -> u32 {
    if side > limit {
        limit
    } else {
        side
    }
}

/// The atlas has reached the device limit on both axes.
pub open spec fn at_limit(current: (u32, u32), limit: u32) -> bool {
    current.0 >= limit && current.1 >= limit
}

/// The size the atlas takes after an overflow: the suggestion with each
/// side cut down to the device limit. An atlas that is at the limit on both
/// axes cannot grow, and the limit is reported instead.
pub open spec fn regrown(current: (u32, u32), suggested: (u32, u32), limit: u32) -> Result<
    (u32, u32),
    BrushError,
> {
    if at_limit(current, limit) {
        Err(BrushError::TooBigCacheTexture(limit))
    } else {
        Ok((clamped(suggested.0, limit), clamped(suggested.1, limit)))
    }
}

/// The room left between an atlas and the device limit, summed over both
/// axes. Zero for an atlas at or beyond the limit.
pub open spec fn headroom(current: (u32, u32), limit: u32) -> nat {
    ((limit - clamped(current.0, limit)) + (limit - clamped(current.1, limit))) as nat
}

/// A suggestion that is larger than the current atlas on both axes, as one
/// that doubles each nonzero side is.
pub open spec fn enlarges(current: (u32, u32), suggested: (u32, u32)) -> bool {
    suggested.0 > current.0 && suggested.1 > current.1
}

/// Decides the size of the atlas after an overflow.
pub fn resized_dimensions(current: (u32, u32), suggested: (u32, u32), limit: u32) -> (r: Result<
    (u32, u32),
    BrushError,
>)
    ensures
        r == regrown(current, suggested, limit),
{
    if current.0 >= limit && current.1 >= limit {
        return Err(BrushError::TooBigCacheTexture(limit));
    }
    let width: u32 = if suggested.0 > limit {
        limit
    } else {
        suggested.0
    };
    let height: u32 = if suggested.1 > limit {
        limit
    } else {
        suggested.1
    };
    Ok((width, height))
}

/// Growth never leaves the device limit: both sides of the new atlas are at
/// most the limit, whatever was suggested.
pub proof fn lemma_growth_respects_limit(current: (u32, u32), suggested: (u32, u32), limit: u32)
    ensures
        regrown(current, suggested, limit) matches Ok(next) ==> next.0 <= limit && next.1
            <= limit,
{
}

/// Growth is strict: for an atlas within the device limit and a suggestion
/// that enlarges it, the new atlas is no smaller on either axis and larger
/// on at least one, and the room left below the limit shrinks.
pub proof fn lemma_growth_is_strict(current: (u32, u32), suggested: (u32, u32), limit: u32)
    requires
        current.0 <= limit,
        current.1 <= limit,
        enlarges(current, suggested),
    ensures
        regrown(current, suggested, limit) matches Ok(next) ==> {
            &&& next.0 >= current.0
            &&& next.1 >= current.1
            &&& (next.0 > current.0 || next.1 > current.1)
            &&& headroom(next, limit) < headroom(current, limit)
        },
{
}

/// Failure is final and happens exactly at the limit: the decision fails if
/// and only if no room is left, and it depends on nothing else.
pub proof fn lemma_failure_iff_no_headroom(current: (u32, u32), suggested: (u32, u32), limit: u32)
    ensures
        regrown(current, suggested, limit).is_err() <==> headroom(current, limit) == 0,
        regrown(current, suggested, limit) matches Err(e) ==> e == BrushError::TooBigCacheTexture(
            limit,
        ),
{
}

/// Twice `side`, or the largest representable side where that overflows.
pub open spec fn doubled_side(side: u32) -> u32 {
    if 2 * side > u32::MAX {
        u32::MAX
    } else {
        (2 * side) as u32
    }
}

/// A suggestion that doubles both sides of the atlas.
pub open spec fn doubled(current: (u32, u32)) -> (u32, u32) {
    (doubled_side(current.0), doubled_side(current.1))
}

/// The number of times an atlas grows before the pass fails, when every
/// round of processing overflows and suggests doubling both sides. The
/// count is well defined: each growth uses up headroom.
pub open spec fn growths_until_failure(current: (u32, u32), limit: u32) -> nat
    recommends
        0 < current.0 <= limit,
        0 < current.1 <= limit,
    decreases headroom(current, limit),
{
    if 0 < current.0 <= limit && 0 < current.1 <= limit {
        match regrown(current, doubled(current), limit) {
            Ok(next) => 1 + growths_until_failure(next, limit),
            Err(_) => 0,
        }
    } else {
        0
    }
}

/// A glyph set that never fits ends the pass after finitely many growths:
/// no more of them than there is headroom.
pub proof fn lemma_growth_terminates(current: (u32, u32), limit: u32)
    requires
        0 < current.0 <= limit,
        0 < current.1 <= limit,
    ensures
        growths_until_failure(current, limit) <= headroom(current, limit),
    decreases headroom(current, limit),
{
    match regrown(current, doubled(current), limit) {
        Ok(next) => {
            assert(headroom(next, limit) < headroom(current, limit));
            lemma_growth_terminates(next, limit);
        },
        Err(_) => {},
    }
}

/// Wrapper over the draw pipeline. In charge of deciding how queued text
/// reaches the screen.
#[derive(Debug)]
pub struct TextBrush {
    pipeline: Pipeline,
}

impl TextBrush {
    /// Dimensions of the atlas texture.
    pub closed spec fn atlas(&self) -> (u32, u32) {
        self.pipeline.atlas()
    }

    /// Number of instance records the instance buffer has room for.
    pub closed spec fn capacity(&self) -> nat {
        self.pipeline.capacity()
    }

    /// Number of instances the next draw call renders.
    pub closed spec fn instances(&self) -> u32 {
        self.pipeline.instances()
    }

    /// A brush with an atlas of the given dimensions and nothing to draw.
    pub fn new(tex_dimensions: (u32, u32)) -> (brush: TextBrush)
        ensures
            brush.atlas() == tex_dimensions,
            brush.capacity() == 0,
            brush.instances() == 0,
    {
        TextBrush { pipeline: Pipeline::new(tex_dimensions) }
    }

    /// Dimensions of the atlas texture.
    pub fn texture_dimensions(&self) -> (d: (u32, u32))
        ensures
            d == self.atlas(),
    {
        self.pipeline.texture_dimensions()
    }

    /// Number of instance records the instance buffer has room for.
    pub fn vertex_buffer_len(&self) -> (len: usize)
        ensures
            len == self.capacity(),
    {
        self.pipeline.vertex_buffer_len()
    }

    /// Number of instances the next draw call renders.
    pub fn vertex_count(&self) -> (count: u32)
        ensures
            count == self.instances(),
    {
        self.pipeline.vertex_count()
    }

    /// Takes in the outcome of one round of glyph processing and says what
    /// to do next. `max_image_dimension` is the device's limit on the side
    /// of a 2D texture.
    ///
    /// New instance data goes to the instance buffer. An unchanged frame
    /// leaves the brush exactly as it was. An overflow grows the atlas as
    /// [`regrown`] says and asks for another round, or fails at the limit
    /// and leaves the brush as it was.
    pub fn queue(&mut self, processed: Processed, max_image_dimension: u32) -> (step: Step)
        ensures
            match processed {
                Processed::Draw { vertices } => {
                    &&& final(self).atlas() == old(self).atlas()
                    &&& final(self).capacity() == grown_capacity(
                        old(self).capacity(),
                        vertices as nat,
                    )
                    &&& final(self).instances() == vertices as u32
                    &&& vertices <= u32::MAX ==> final(self).instances() == vertices
                    &&& step == Step::Upload(
                        if vertices > old(self).capacity() {
                            BufferUpdate::Recreate { len: vertices }
                        } else {
                            BufferUpdate::Write { offset: 0, len: vertices }
                        },
                    )
                },
                Processed::ReDraw => {
                    &&& *final(self) == *old(self)
                    &&& step == Step::Keep
                },
                Processed::TextureTooSmall { suggested } => match regrown(
                    old(self).atlas(),
                    suggested,
                    max_image_dimension,
                ) {
                    Ok(next) => {
                        &&& final(self).atlas() == next
                        &&& final(self).capacity() == old(self).capacity()
                        &&& final(self).instances() == old(self).instances()
                        &&& step == Step::Grow(Cache::layout_of(next))
                    },
                    Err(e) => {
                        &&& *final(self) == *old(self)
                        &&& step == Step::Fail(e)
                    },
                },
            },
    {
        match processed {
            Processed::Draw { vertices } => {
                let update = self.pipeline.update_vertex_buffer(vertices);
                Step::Upload(update)
            },
            Processed::ReDraw => Step::Keep,
            Processed::TextureTooSmall { suggested } => {
                let current = self.pipeline.texture_dimensions();
                match resized_dimensions(current, suggested, max_image_dimension) {
                    Ok(next) => {
                        let layout = self.pipeline.resize_texture(next);
                        Step::Grow(layout)
                    },
                    Err(e) => Step::Fail(e),
                }
            },
        }
    }

    /// Lays out the upload of a glyph bitmap into the rectangle `size` of
    /// the atlas.
    pub fn update_texture(&self, size: Region) -> (write: TextureWrite)
        requires
            size.within(self.atlas()),
        ensures
            write == Cache::write_of(size),
            write.x + write.width <= self.atlas().0,
            write.y + write.height <= self.atlas().1,
    {
        self.pipeline.update_texture(size)
    }

    /// The draw call for everything taken in by [`queue`](Self::queue):
    /// one quad per instance, clipped to the part of `region` inside the
    /// output. With nothing to draw there is no draw call.
    pub fn draw(&self, region: Option<ScissorRegion>) -> (command: Option<DrawCommand>)
        ensures
            self.instances() == 0 ==> command.is_none(),
            self.instances() != 0 ==> command == Some(
                DrawCommand {
                    vertices: crate::pipeline::VERTICES_PER_INSTANCE,
                    instances: self.instances(),
                    scissor: match region {
                        Some(r) => r.applied(),
                        None => None,
                    },
                },
            ),
    {
        self.pipeline.draw(region)
    }
}

} // verus!
