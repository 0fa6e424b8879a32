//! The memory layout of one instance record as the vertex stage reads it.
//!
//! An instance record describes one glyph quad: the top-left corner with
//! its depth, the bottom-right corner, the two corners of the glyph's
//! rectangle in the atlas, and the color. The fields follow each other
//! without padding.

use vstd::prelude::*;

verus! {

/// The format of one attribute: a vector of 32-bit floating-point
/// components.
#[derive(Debug, Clone, Copy, PartialEq, Eq, Structural)]
pub enum VertexFormat {
    /// Two components.
    Float32x2,
    /// Three components.
    Float32x3,
    /// Four components.
    Float32x4,
}

/// Whether the buffer advances per vertex or per instance.
#[derive(Debug, Clone, Copy, PartialEq, Eq, Structural)]
pub enum VertexStepMode {
    Vertex,
    Instance,
}

/// One attribute of the instance record.
#[derive(Debug, Clone, Copy, PartialEq, Eq, Structural)]
pub struct VertexAttribute {
    /// Format of the attribute.
    pub format: VertexFormat,
    /// Byte offset of the attribute from the start of the record.
    pub offset: u64,
    /// Location at which the shader reads the attribute.
    pub shader_location: u32,
}

/// How the vertex stage reads the instance buffer.
#[derive(Debug)]
pub struct VertexBufferLayout {
    /// Distance in bytes between two records.
    pub array_stride: u64,
    /// How often the buffer advances.
    pub step_mode: VertexStepMode,
    /// The attributes of one record.
    pub attributes: Vec<VertexAttribute>,
}

/// Number of bytes of one component.
pub const COMPONENT_SIZE: u64 = 4;

impl VertexFormat {
    /// Number of components of the format.
    pub open spec fn components(self) -> nat {
        match self {
            VertexFormat::Float32x2 => 2,
            VertexFormat::Float32x3 => 3,
            VertexFormat::Float32x4 => 4,
        }
    }

    /// Number of bytes an attribute of the format takes.
    pub open spec fn byte_size(self) -> nat {
        self.components() * (COMPONENT_SIZE as nat)
    }

    /// Number of bytes an attribute of the format takes.
    pub fn size(&self) -> (bytes: u64)
        ensures
            bytes == self.byte_size(),
    {
        match self {
            VertexFormat::Float32x2 => 2 * COMPONENT_SIZE,
            VertexFormat::Float32x3 => 3 * COMPONENT_SIZE,
            VertexFormat::Float32x4 => 4 * COMPONENT_SIZE,
        }
    }
}

/// The fields of an instance record, in order: top-left corner with
/// depth, bottom-right corner, top-left and bottom-right atlas coordinate,
/// color.
pub open spec fn instance_fields() -> Seq<VertexFormat> {
    seq![
        VertexFormat::Float32x3,
        VertexFormat::Float32x2,
        VertexFormat::Float32x2,
        VertexFormat::Float32x2,
        VertexFormat::Float32x4,
    ]
}

/// Number of bytes the given fields take together.
pub open spec fn total_size(fields: Seq<VertexFormat>) -> nat
    decreases fields.len(),
{
    if fields.len() == 0 {
        0
    } else {
        total_size(fields.drop_last()) + fields.last().byte_size()
    }
}

/// The layout holds the given fields without padding: each attribute
/// starts where the one before it ends, the shader locations count up from
/// zero, and the stride is the size of all fields together.
pub open spec fn packed(layout: VertexBufferLayout, fields: Seq<VertexFormat>) -> bool {
    &&& layout.attributes@.len() == fields.len()
    &&& layout.array_stride == total_size(fields)
    &&& forall|i: int|
        0 <= i < fields.len() ==> {
            &&& (#[trigger] layout.attributes@[i]).format == fields[i]
            &&& layout.attributes@[i].offset == total_size(fields.take(i))
            &&& layout.attributes@[i].shader_location == i
        }
}

/// The sizes of the first fields of an instance record add up as follows.
proof fn lemma_instance_field_offsets()
    ensures
        total_size(instance_fields().take(0)) == 0,
        total_size(instance_fields().take(1)) == 12,
        total_size(instance_fields().take(2)) == 20,
        total_size(instance_fields().take(3)) == 28,
        total_size(instance_fields().take(4)) == 36,
        total_size(instance_fields()) == 52,
{
    let f = instance_fields();
    assert(f.take(0).len() == 0);
    assert(total_size(f.take(0)) == 0);
    assert(f.take(1).drop_last() =~= f.take(0) && f.take(1).last() == f[0]);
    assert(f[0].byte_size() == 12);
    assert(total_size(f.take(1)) == 12);
    assert(f.take(2).drop_last() =~= f.take(1) && f.take(2).last() == f[1]);
    assert(f[1].byte_size() == 8);
    assert(total_size(f.take(2)) == 20);
    assert(f.take(3).drop_last() =~= f.take(2) && f.take(3).last() == f[2]);
    assert(f[2].byte_size() == 8);
    assert(total_size(f.take(3)) == 28);
    assert(f.take(4).drop_last() =~= f.take(3) && f.take(4).last() == f[3]);
    assert(f[3].byte_size() == 8);
    assert(total_size(f.take(4)) == 36);
    assert(f.drop_last() =~= f.take(4) && f.last() == f[4]);
    assert(f[4].byte_size() == 16);
}

/// The layout of the instance buffer: one record per instance, the fields
/// of [`instance_fields`] packed one after the other, 52 bytes in all.
pub fn buffer_layout() -> (layout: VertexBufferLayout)
    ensures
        packed(layout, instance_fields()),
        layout.step_mode == VertexStepMode::Instance,
        layout.array_stride == 52,
        layout.attributes@.len() == 5,
        layout.attributes@[0].offset == 0,
        layout.attributes@[1].offset == 12,
        layout.attributes@[2].offset == 20,
        layout.attributes@[3].offset == 28,
        layout.attributes@[4].offset == 36,
{
    let top_left = VertexFormat::Float32x3;
    let bottom_right = VertexFormat::Float32x2;
    let tex_top_left = VertexFormat::Float32x2;
    let tex_bottom_right = VertexFormat::Float32x2;
    let color = VertexFormat::Float32x4;

    let bottom_right_at: u64 = top_left.size();
    let tex_top_left_at: u64 = bottom_right_at + bottom_right.size();
    let tex_bottom_right_at: u64 = tex_top_left_at + tex_top_left.size();
    let color_at: u64 = tex_bottom_right_at + tex_bottom_right.size();
    let array_stride: u64 = color_at + color.size();

    let mut attributes: Vec<VertexAttribute> = Vec::new();
    attributes.push(VertexAttribute { format: top_left, offset: 0, shader_location: 0 });
    attributes.push(
        VertexAttribute { format: bottom_right, offset: bottom_right_at, shader_location: 1 },
    );
    attributes.push(
        VertexAttribute { format: tex_top_left, offset: tex_top_left_at, shader_location: 2 },
    );
    attributes.push(
        VertexAttribute {
            format: tex_bottom_right,
            offset: tex_bottom_right_at,
            shader_location: 3,
        },
    );
    attributes.push(VertexAttribute { format: color, offset: color_at, shader_location: 4 });
    proof {
        lemma_instance_field_offsets();
    }
    VertexBufferLayout { array_stride, step_mode: VertexStepMode::Instance, attributes }
}

} // verus!
