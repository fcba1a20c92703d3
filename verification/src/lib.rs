//! Material resolution for Spine skeleton meshes.
//!
//! Each frame, a skeleton's draw order is rebuilt into mesh segments, and every
//! registered material policy decides, segment by segment, whether a material
//! instance of its own type should be attached, updated in place, or removed.
//! The decision depends only on the segment's renderable info (texture, blend
//! mode, premultiplied-alpha flag) and on the per-entity settings; the eight
//! built-in policies cover the cross product of the four blend modes and the
//! two alpha conventions.

pub mod blend;
pub mod builtin;
pub mod laws;
pub mod materials;
pub mod mesh;
pub mod settings;
pub mod store;

pub use blend::{BlendComponent, BlendFactor, BlendMode, BlendOperation, BlendState};
pub use blend::default_blend_state;
pub use builtin::{SpineAdditiveMaterial, SpineAdditivePmaMaterial, SpineMultiplyMaterial};
pub use builtin::{SpineMultiplyPmaMaterial, SpineNormalMaterial, SpineNormalPmaMaterial};
pub use builtin::{SpineScreenMaterial, SpineScreenPmaMaterial};
pub use materials::{SpineMaterial, SpineMaterialPlugin, SpineMeshEntity};
pub use materials::{sync_segments, update_materials};
pub use mesh::{SpineMaterialInfo, SpineMesh, SpineMeshState, DARK_COLOR_SHADER_POSITION};
pub use settings::{SpineSettings, SpineSettingsQuery};
pub use store::Assets;
