//! Mesh segments and their renderable info.
//!
//! The mesh synchronizer rebuilds, every frame, one mesh entity per contiguous
//! draw-call segment of a skeleton. A material pass never reads the vertex
//! buffers themselves; it reads the renderable info snapshot recorded with the
//! segment, so only that snapshot is modelled here. Entities and texture
//! handles are carried as plain ids.

use vstd::prelude::*;

verus! {

/// Shader location reserved for the secondary (dark) per-vertex color in the
/// fixed vertex layout all segments share.
pub const DARK_COLOR_SHADER_POSITION: u64 = 10;

/// Per-segment metadata a material policy decides on: which slot produced the
/// segment (absent for merged segments), the texture to bind, and the blend
/// state the segment must be drawn with.
#[derive(Clone, Copy, Debug, PartialEq, Eq)]
pub struct SpineMaterialInfo {
    /// Index of the skeleton slot this segment was drawn from, if it came from
    /// a single slot.
    pub slot_index: Option<usize>,
    /// Handle id of the texture region attached to the segment.
    pub texture: u64,
    /// Compositing rule of the segment.
    pub blend_mode: crate::blend::BlendMode,
    /// Whether the texture's colors are premultiplied by alpha.
    pub premultiplied_alpha: bool,
}

/// Render state of one mesh entity for the current frame.
#[derive(Clone, Copy, Debug, PartialEq, Eq)]
pub enum SpineMeshState {
    /// The segment carries no drawable geometry this frame; material passes
    /// leave it alone.
    Empty,
    /// The segment is drawable and carries its current renderable info.
    Renderable { info: SpineMaterialInfo },
}

/// One mesh segment of a skeleton: the entity of the skeleton it belongs to
/// and the segment's render state, rebuilt by the mesh synchronizer each
/// frame.
#[derive(Clone, Copy, Debug, PartialEq, Eq)]
pub struct SpineMesh {
    /// Entity id of the owning skeleton instance, used to look up its
    /// settings.
    pub spine_entity: u64,
    /// Current render state of this segment.
    pub state: SpineMeshState,
}

/// Shader locations of the fixed five-attribute vertex layout every segment
/// is built with: position, normal, uv, primary color, dark color. Policies
/// may rely on this schema never varying between segments.
pub fn vertex_attribute_locations() -> (r: Vec<u32>)
    ensures
        r@ =~= seq![0u32, 1u32, 2u32, 4u32, DARK_COLOR_SHADER_POSITION as u32],
{
    let mut locations: Vec<u32> = Vec::new();
    locations.push(0);
    locations.push(1);
    locations.push(2);
    locations.push(4);
    locations.push(DARK_COLOR_SHADER_POSITION as u32);
    locations
}

} // verus!
