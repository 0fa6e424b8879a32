//! The glyph atlas: a single-channel texture that holds rasterized glyph
//! bitmaps, described by its dimensions, and the sub-image writes into it.

use vstd::prelude::*;

verus! {

/// A rectangle of atlas texels given by its corners: `min` is the top-left
/// texel, `max` lies one past the bottom-right texel. Each corner is `[x, y]`.
#[derive(Debug, Clone, Copy, PartialEq, Eq)]
pub struct Region {
    /// Min `[x, y]`.
    pub min: [u32; 2],
    /// Max `[x, y]`.
    pub max: [u32; 2],
}

/// The parameters of one sub-image upload into the atlas texture.
#[derive(Debug, Clone, Copy, PartialEq, Eq, Structural)]
pub struct TextureWrite {
    /// Texel column at which the upload starts.
    pub x: u32,
    /// Texel row at which the upload starts.
    pub y: u32,
    /// Number of texel columns written.
    pub width: u32,
    /// Number of texel rows written.
    pub height: u32,
    /// Distance in bytes between two rows of the source bitmap.
    pub bytes_per_row: u32,
    /// Number of rows in the source bitmap.
    pub rows_per_image: u32,
}

/// The format of a texel.
#[derive(Debug, Clone, Copy, PartialEq, Eq, Structural)]
pub enum TextureFormat {
    /// One 8-bit channel, read as a number in `[0, 1]`.
    R8Unorm,
}

/// What a sampler returns outside of the texture.
#[derive(Debug, Clone, Copy, PartialEq, Eq, Structural)]
pub enum AddressMode {
    /// The texel at the nearest edge.
    ClampToEdge,
    /// The texture, repeated.
    Repeat,
}

/// How a sampler reads between texels.
#[derive(Debug, Clone, Copy, PartialEq, Eq, Structural)]
pub enum FilterMode {
    /// The nearest texel.
    Nearest,
    /// A blend of the neighbouring texels.
    Linear,
}

/// The description of the atlas texture for the graphics device.
#[derive(Debug, Clone, Copy, PartialEq, Eq, Structural)]
pub struct TextureLayout {
    /// Width in texels.
    pub width: u32,
    /// Height in texels.
    pub height: u32,
    /// Number of layers; the atlas is a flat 2D texture.
    pub depth_or_array_layers: u32,
    /// Number of mip levels.
    pub mip_level_count: u32,
    /// Samples per texel.
    pub sample_count: u32,
    /// Format of a texel; the atlas stores glyph coverage only.
    pub format: TextureFormat,
}

/// The description of the atlas sampler for the graphics device.
#[derive(Debug, Clone, Copy, PartialEq, Eq, Structural)]
pub struct SamplerLayout {
    /// Addressing along each of the three texture axes.
    pub address_mode: AddressMode,
    /// Filter used when a glyph is magnified.
    pub mag_filter: FilterMode,
    /// Filter used when a glyph is minified.
    pub min_filter: FilterMode,
}

/// Calls `glyph_brush::Rectangle::<u32>::width`, which subtracts the minimum
/// x from the maximum x. The subtraction overflows when the corners are out
/// of order, so such rectangles are excluded.
#[verifier::external_body]
fn rectangle_width(min: [u32; 2], max: [u32; 2]) -> (w: u32)
    requires
        min[0] <= max[0],
    ensures
        w == max[0] - min[0],
{
    glyph_brush::Rectangle { min, max }.width()
}

/// Calls `glyph_brush::Rectangle::<u32>::height`, which subtracts the minimum
/// y from the maximum y. The subtraction overflows when the corners are out
/// of order, so such rectangles are excluded.
#[verifier::external_body]
fn rectangle_height(min: [u32; 2], max: [u32; 2]) -> (h: u32)
    requires
        min[1] <= max[1],
    ensures
        h == max[1] - min[1],
{
    glyph_brush::Rectangle { min, max }.height()
}

impl Region {
    /// The corners are in order on both axes.
    pub open spec fn well_formed(&self) -> bool {
        self.min[0] <= self.max[0] && self.min[1] <= self.max[1]
    }

    /// Extent along x.
    pub open spec fn span_x(&self) -> int {
        self.max[0] - self.min[0]
    }

    /// Extent along y.
    pub open spec fn span_y(&self) -> int {
        self.max[1] - self.min[1]
    }

    /// The rectangle lies fully inside a texture of the given dimensions.
    pub open spec fn within(&self, dimensions: (u32, u32)) -> bool {
        self.well_formed() && self.max[0] <= dimensions.0 && self.max[1] <= dimensions.1
    }

    /// Number of texel columns covered.
    pub fn width(&self) -> (w: u32)
        requires
            self.well_formed(),
        ensures
            w == self.span_x(),
    {
        rectangle_width(self.min, self.max)
    }

    /// Number of texel rows covered.
    pub fn height(&self) -> (h: u32)
        requires
            self.well_formed(),
        ensures
            h == self.span_y(),
    {
        rectangle_height(self.min, self.max)
    }

    /// Whether the corners are in order and the rectangle lies inside a
    /// texture of the given dimensions.
    pub fn is_within(&self, dimensions: (u32, u32)) -> (b: bool)
        ensures
            b == self.within(dimensions),
    {
        self.min[0] <= self.max[0] && self.min[1] <= self.max[1] && self.max[0] <= dimensions.0
            && self.max[1] <= dimensions.1
    }
}

/// Responsible for texture caching: tracks the size of the atlas texture and
/// lays out the writes into it.
#[derive(Debug)]
pub struct Cache {
    width: u32,
    height: u32,
}

impl Cache {
    /// Current atlas dimensions, `(width, height)`.
    pub closed spec fn dimensions(&self) -> (u32, u32) {
        (self.width, self.height)
    }

    /// An atlas of exactly the requested dimensions.
    pub fn new(tex_dimensions: (u32, u32)) -> (cache: Cache)
        ensures
            cache.dimensions() == tex_dimensions,
    {
        Cache { width: tex_dimensions.0, height: tex_dimensions.1 }
    }

    /// Current atlas dimensions, `(width, height)`.
    pub fn texture_dimensions(&self) -> (d: (u32, u32))
        ensures
            d == self.dimensions(),
    {
        (self.width, self.height)
    }

    /// Replaces the atlas by a fresh one of the given dimensions. Everything
    /// written before is lost, so every glyph has to be rasterized again.
    pub fn recreate_texture(&mut self, tex_dimensions: (u32, u32)) -> (layout: TextureLayout)
        ensures
            final(self).dimensions() == tex_dimensions,
            layout == Self::layout_of(tex_dimensions),
    {
        self.width = tex_dimensions.0;
        self.height = tex_dimensions.1;
        Self::create_cache_texture(tex_dimensions)
    }

    /// The upload that places a bitmap at `size`: it starts at the
    /// rectangle's top-left corner, covers exactly the rectangle, and reads
    /// a tightly packed bitmap of one byte per texel.
    pub open spec fn write_of(size: Region) -> TextureWrite {
        TextureWrite {
            x: size.min[0],
            y: size.min[1],
            width: size.span_x() as u32,
            height: size.span_y() as u32,
            bytes_per_row: size.span_x() as u32,
            rows_per_image: size.span_y() as u32,
        }
    }

    /// Lays out the upload of a glyph bitmap into the rectangle `size` of
    /// the atlas.
    pub fn update_texture(&self, size: Region) -> (write: TextureWrite)
        requires
            size.within(self.dimensions()),
        ensures
            write == Self::write_of(size),
            write.width == size.span_x(),
            write.height == size.span_y(),
            write.x + write.width <= self.dimensions().0,
            write.y + write.height <= self.dimensions().1,
    {
        let width: u32 = size.width();
        let height: u32 = size.height();
        TextureWrite {
            x: size.min[0],
            y: size.min[1],
            width,
            height,
            bytes_per_row: width,
            rows_per_image: height,
        }
    }

    /// The description of an atlas texture of the given dimensions: one
    /// layer, one mip level, one sample, one 8-bit channel per texel.
    pub open spec fn layout_of(dimensions: (u32, u32)) -> TextureLayout {
        TextureLayout {
            width: dimensions.0,
            height: dimensions.1,
            depth_or_array_layers: 1,
            mip_level_count: 1,
            sample_count: 1,
            format: TextureFormat::R8Unorm,
        }
    }

    /// The sampler the atlas is read with: it clamps to the edge and
    /// filters linearly, so that glyphs do not bleed into each other at the
    /// border and scale smoothly.
    pub open spec fn sampler_layout() -> SamplerLayout {
        SamplerLayout {
            address_mode: AddressMode::ClampToEdge,
            mag_filter: FilterMode::Linear,
            min_filter: FilterMode::Linear,
        }
    }

    /// Describes the sampler to create for the atlas.
    pub fn create_sampler() -> (sampler: SamplerLayout)
        ensures
            sampler == Self::sampler_layout(),
    {
        SamplerLayout {
            address_mode: AddressMode::ClampToEdge,
            mag_filter: FilterMode::Linear,
            min_filter: FilterMode::Linear,
        }
    }

    /// Describes the atlas texture to allocate for the given dimensions.
    pub fn create_cache_texture(dimensions: (u32, u32)) -> (layout: TextureLayout)
        ensures
            layout == Self::layout_of(dimensions),
    {
        TextureLayout {
            width: dimensions.0,
            height: dimensions.1,
            depth_or_array_layers: 1,
            mip_level_count: 1,
            sample_count: 1,
            format: TextureFormat::R8Unorm,
        }
    }
}

} // verus!
