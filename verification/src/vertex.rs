//! The fixed binary layouts of the vertex and instance buffers.
//!
//! A vertex record is `{ position: 3 x f32, tex_coords: 2 x f32 }` and an
//! instance record is a column-major 4x4 f32 matrix; the float data itself
//! is produced at the GPU boundary by the host.  This module states the
//! strides, offsets and shader locations of those records exactly, so the
//! host can wire the buffers without recomputing anything.

use vstd::prelude::*;

verus! {

/// The attribute formats the two buffer layouts use.
#[derive(Clone, Copy, Debug, PartialEq, Eq, Structural)]
pub enum AttrFormat {
    Float32x2,
    Float32x3,
    Float32x4,
}

/// One vertex attribute: byte offset within the record, shader location,
/// and format.
#[derive(Clone, Copy, Debug, PartialEq, Eq, Structural)]
pub struct VertexAttr {
    pub offset: u64,
    pub shader_location: u32,
    pub format: AttrFormat,
}

/// A vertex-buffer layout: the record stride in bytes, whether the buffer
/// steps per instance rather than per vertex, and the attribute list.
pub struct BufferLayout {
    pub array_stride: u64,
    pub step_instance: bool,
    pub attrs: Vec<VertexAttr>,
}

/// The vertex record type of the shared mesh.  The record holds a 3 x f32
/// position and a 2 x f32 texture coordinate, 20 bytes in all; the float
/// payload lives at the GPU boundary, and this crate owns its layout.
pub struct Vertex;

impl Vertex {
    /// The layout of the vertex buffer: position at offset 0 feeding shader
    /// location 0, texture coordinates at offset 12 feeding location 1,
    /// stepping per vertex.
    pub fn desc() -> (r: BufferLayout)
        ensures
            r.array_stride == 20,
            !r.step_instance,
            r.attrs@ == seq![
                VertexAttr { offset: 0, shader_location: 0, format: AttrFormat::Float32x3 },
                VertexAttr { offset: 12, shader_location: 1, format: AttrFormat::Float32x2 },
            ],
    {
        let mut attrs: Vec<VertexAttr> = Vec::new();
        attrs.push(VertexAttr { offset: 0, shader_location: 0, format: AttrFormat::Float32x3 });
        attrs.push(VertexAttr { offset: 12, shader_location: 1, format: AttrFormat::Float32x2 });
        proof {
            assert(attrs@ =~= seq![
                VertexAttr { offset: 0, shader_location: 0, format: AttrFormat::Float32x3 },
                VertexAttr { offset: 12, shader_location: 1, format: AttrFormat::Float32x2 },
            ]);
        }
        BufferLayout { array_stride: 20, step_instance: false, attrs }
    }
}

} // verus!
