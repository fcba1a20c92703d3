//! The eight built-in materials.
//!
//! One material type per combination of the four blend modes and the two
//! alpha conventions. Each is the same thin rule: it attaches to a segment
//! exactly when the owning skeleton's settings enable default materials and
//! the segment's renderable info carries the type's blend mode and alpha
//! convention; when it attaches, it binds the segment's texture and leaves
//! every other field at its default.

use vstd::prelude::*;
use crate::blend::{BlendMode, BlendState, spec_default_blend_state, default_blend_state};
use crate::materials::SpineMaterial;
use crate::mesh::SpineMaterialInfo;
use crate::settings::{SpineSettings, SpineSettingsQuery};

verus! {

/// Whether the built-in material of the given blend mode and alpha
/// convention attaches to a segment with renderable info `info` under
/// `settings`.
pub open spec fn default_material_applies(
    settings: SpineSettings,
    info: SpineMaterialInfo,
    mode: BlendMode,
    premultiplied_alpha: bool,
) -> bool {
    settings.default_materials && info.blend_mode == mode && info.premultiplied_alpha
        == premultiplied_alpha
}

/// Decides [`default_material_applies`] for one segment.
pub fn default_material_matches(
    settings: &SpineSettings,
    info: &SpineMaterialInfo,
    mode: BlendMode,
    premultiplied_alpha: bool,
) -> (r: bool)
    ensures
        r == default_material_applies(*settings, *info, mode, premultiplied_alpha),
{
    settings.default_materials && info.blend_mode == mode && info.premultiplied_alpha
        == premultiplied_alpha
}

/// Normal blend mode material, non-premultiplied-alpha.
#[derive(Clone, Copy, Debug, PartialEq, Eq, Structural)]
pub struct SpineNormalMaterial {
    /// Handle id of the bound texture.
    pub image: u64,
}

impl SpineNormalMaterial {
    /// A material bound to the given texture.
    pub fn new(image: u64) -> (r: Self)
        ensures
            r.image == image,
    {
        SpineNormalMaterial { image }
    }

    /// Blend state this material draws with.
    pub fn blend_state() -> (r: BlendState)
        ensures
            r == spec_default_blend_state(BlendMode::Normal, false),
    {
        default_blend_state(BlendMode::Normal, false)
    }
}

impl Default for SpineNormalMaterial {
    /// A material bound to the null texture handle.
    fn default() -> (r: Self)
        ensures
            r.image == 0,
    {
        SpineNormalMaterial { image: 0 }
    }
}

impl SpineMaterial for SpineNormalMaterial {
    open spec fn spec_update(
        current: Option<Self>,
        settings: SpineSettings,
        info: SpineMaterialInfo,
    ) -> Option<Self> {
        if default_material_applies(settings, info, BlendMode::Normal, false) {
            Some(SpineNormalMaterial { image: info.texture })
        } else {
            None
        }
    }

    fn update(
        material: Option<Self>,
        entity: u64,
        info: SpineMaterialInfo,
        params: &SpineSettingsQuery,
    ) -> (r: Option<Self>) {
        let settings = params.resolve(entity);
        if default_material_matches(&settings, &info, BlendMode::Normal, false) {
            let mut material = match material {
                Some(m) => m,
                None => SpineNormalMaterial::default(),
            };
            material.image = info.texture;
            Some(material)
        } else {
            None
        }
    }
}

/// Additive blend mode material, non-premultiplied-alpha.
#[derive(Clone, Copy, Debug, PartialEq, Eq, Structural)]
pub struct SpineAdditiveMaterial {
    /// Handle id of the bound texture.
    pub image: u64,
}

impl SpineAdditiveMaterial {
    /// A material bound to the given texture.
    pub fn new(image: u64) -> (r: Self)
        ensures
            r.image == image,
    {
        SpineAdditiveMaterial { image }
    }

    /// Blend state this material draws with.
    pub fn blend_state() -> (r: BlendState)
        ensures
            r == spec_default_blend_state(BlendMode::Additive, false),
    {
        default_blend_state(BlendMode::Additive, false)
    }
}

impl Default for SpineAdditiveMaterial {
    /// A material bound to the null texture handle.
    fn default() -> (r: Self)
        ensures
            r.image == 0,
    {
        SpineAdditiveMaterial { image: 0 }
    }
}

impl SpineMaterial for SpineAdditiveMaterial {
    open spec fn spec_update(
        current: Option<Self>,
        settings: SpineSettings,
        info: SpineMaterialInfo,
    ) -> Option<Self> {
        if default_material_applies(settings, info, BlendMode::Additive, false) {
            Some(SpineAdditiveMaterial { image: info.texture })
        } else {
            None
        }
    }

    fn update(
        material: Option<Self>,
        entity: u64,
        info: SpineMaterialInfo,
        params: &SpineSettingsQuery,
    ) -> (r: Option<Self>) {
        let settings = params.resolve(entity);
        if default_material_matches(&settings, &info, BlendMode::Additive, false) {
            let mut material = match material {
                Some(m) => m,
                None => SpineAdditiveMaterial::default(),
            };
            material.image = info.texture;
            Some(material)
        } else {
            None
        }
    }
}

/// Multiply blend mode material, non-premultiplied-alpha.
#[derive(Clone, Copy, Debug, PartialEq, Eq, Structural)]
pub struct SpineMultiplyMaterial {
    /// Handle id of the bound texture.
    pub image: u64,
}

impl SpineMultiplyMaterial {
    /// A material bound to the given texture.
    pub fn new(image: u64) -> (r: Self)
        ensures
            r.image == image,
    {
        SpineMultiplyMaterial { image }
    }

    /// Blend state this material draws with.
    pub fn blend_state() -> (r: BlendState)
        ensures
            r == spec_default_blend_state(BlendMode::Multiply, false),
    {
        default_blend_state(BlendMode::Multiply, false)
    }
}

impl Default for SpineMultiplyMaterial {
    /// A material bound to the null texture handle.
    fn default() -> (r: Self)
        ensures
            r.image == 0,
    {
        SpineMultiplyMaterial { image: 0 }
    }
}

impl SpineMaterial for SpineMultiplyMaterial {
    open spec fn spec_update(
        current: Option<Self>,
        settings: SpineSettings,
        info: SpineMaterialInfo,
    ) -> Option<Self> {
        if default_material_applies(settings, info, BlendMode::Multiply, false) {
            Some(SpineMultiplyMaterial { image: info.texture })
        } else {
            None
        }
    }

    fn update(
        material: Option<Self>,
        entity: u64,
        info: SpineMaterialInfo,
        params: &SpineSettingsQuery,
    ) -> (r: Option<Self>) {
        let settings = params.resolve(entity);
        if default_material_matches(&settings, &info, BlendMode::Multiply, false) {
            let mut material = match material {
                Some(m) => m,
                None => SpineMultiplyMaterial::default(),
            };
            material.image = info.texture;
            Some(material)
        } else {
            None
        }
    }
}

/// Screen blend mode material, non-premultiplied-alpha.
#[derive(Clone, Copy, Debug, PartialEq, Eq, Structural)]
pub struct SpineScreenMaterial {
    /// Handle id of the bound texture.
    pub image: u64,
}

impl SpineScreenMaterial {
    /// A material bound to the given texture.
    pub fn new(image: u64) -> (r: Self)
        ensures
            r.image == image,
    {
        SpineScreenMaterial { image }
    }

    /// Blend state this material draws with.
    pub fn blend_state() -> (r: BlendState)
        ensures
            r == spec_default_blend_state(BlendMode::Screen, false),
    {
        default_blend_state(BlendMode::Screen, false)
    }
}

impl Default for SpineScreenMaterial {
    /// A material bound to the null texture handle.
    fn default() -> (r: Self)
        ensures
            r.image == 0,
    {
        SpineScreenMaterial { image: 0 }
    }
}

impl SpineMaterial for SpineScreenMaterial {
    open spec fn spec_update(
        current: Option<Self>,
        settings: SpineSettings,
        info: SpineMaterialInfo,
    ) -> Option<Self> {
        if default_material_applies(settings, info, BlendMode::Screen, false) {
            Some(SpineScreenMaterial { image: info.texture })
        } else {
            None
        }
    }

    fn update(
        material: Option<Self>,
        entity: u64,
        info: SpineMaterialInfo,
        params: &SpineSettingsQuery,
    ) -> (r: Option<Self>) {
        let settings = params.resolve(entity);
        if default_material_matches(&settings, &info, BlendMode::Screen, false) {
            let mut material = match material {
                Some(m) => m,
                None => SpineScreenMaterial::default(),
            };
            material.image = info.texture;
            Some(material)
        } else {
            None
        }
    }
}

/// Normal blend mode material, premultiplied-alpha.
#[derive(Clone, Copy, Debug, PartialEq, Eq, Structural)]
pub struct SpineNormalPmaMaterial {
    /// Handle id of the bound texture.
    pub image: u64,
}

impl SpineNormalPmaMaterial {
    /// A material bound to the given texture.
    pub fn new(image: u64) -> (r: Self)
        ensures
            r.image == image,
    {
        SpineNormalPmaMaterial { image }
    }

    /// Blend state this material draws with.
    pub fn blend_state() -> (r: BlendState)
        ensures
            r == spec_default_blend_state(BlendMode::Normal, true),
    {
        default_blend_state(BlendMode::Normal, true)
    }
}

impl Default for SpineNormalPmaMaterial {
    /// A material bound to the null texture handle.
    fn default() -> (r: Self)
        ensures
            r.image == 0,
    {
        SpineNormalPmaMaterial { image: 0 }
    }
}

impl SpineMaterial for SpineNormalPmaMaterial {
    open spec fn spec_update(
        current: Option<Self>,
        settings: SpineSettings,
        info: SpineMaterialInfo,
    ) -> Option<Self> {
        if default_material_applies(settings, info, BlendMode::Normal, true) {
            Some(SpineNormalPmaMaterial { image: info.texture })
        } else {
            None
        }
    }

    fn update(
        material: Option<Self>,
        entity: u64,
        info: SpineMaterialInfo,
        params: &SpineSettingsQuery,
    ) -> (r: Option<Self>) {
        let settings = params.resolve(entity);
        if default_material_matches(&settings, &info, BlendMode::Normal, true) {
            let mut material = match material {
                Some(m) => m,
                None => SpineNormalPmaMaterial::default(),
            };
            material.image = info.texture;
            Some(material)
        } else {
            None
        }
    }
}

/// Additive blend mode material, premultiplied-alpha.
#[derive(Clone, Copy, Debug, PartialEq, Eq, Structural)]
pub struct SpineAdditivePmaMaterial {
    /// Handle id of the bound texture.
    pub image: u64,
}

impl SpineAdditivePmaMaterial {
    /// A material bound to the given texture.
    pub fn new(image: u64) -> (r: Self)
        ensures
            r.image == image,
    {
        SpineAdditivePmaMaterial { image }
    }

    /// Blend state this material draws with.
    pub fn blend_state() -> (r: BlendState)
        ensures
            r == spec_default_blend_state(BlendMode::Additive, true),
    {
        default_blend_state(BlendMode::Additive, true)
    }
}

impl Default for SpineAdditivePmaMaterial {
    /// A material bound to the null texture handle.
    fn default() -> (r: Self)
        ensures
            r.image == 0,
    {
        SpineAdditivePmaMaterial { image: 0 }
    }
}

impl SpineMaterial for SpineAdditivePmaMaterial {
    open spec fn spec_update(
        current: Option<Self>,
        settings: SpineSettings,
        info: SpineMaterialInfo,
    ) -> Option<Self> {
        if default_material_applies(settings, info, BlendMode::Additive, true) {
            Some(SpineAdditivePmaMaterial { image: info.texture })
        } else {
            None
        }
    }

    fn update(
        material: Option<Self>,
        entity: u64,
        info: SpineMaterialInfo,
        params: &SpineSettingsQuery,
    ) -> (r: Option<Self>) {
        let settings = params.resolve(entity);
        if default_material_matches(&settings, &info, BlendMode::Additive, true) {
            let mut material = match material {
                Some(m) => m,
                None => SpineAdditivePmaMaterial::default(),
            };
            material.image = info.texture;
            Some(material)
        } else {
            None
        }
    }
}

/// Multiply blend mode material, premultiplied-alpha.
#[derive(Clone, Copy, Debug, PartialEq, Eq, Structural)]
pub struct SpineMultiplyPmaMaterial {
    /// Handle id of the bound texture.
    pub image: u64,
}

impl SpineMultiplyPmaMaterial {
    /// A material bound to the given texture.
    pub fn new(image: u64) -> (r: Self)
        ensures
            r.image == image,
    {
        SpineMultiplyPmaMaterial { image }
    }

    /// Blend state this material draws with.
    pub fn blend_state() -> (r: BlendState)
        ensures
            r == spec_default_blend_state(BlendMode::Multiply, true),
    {
        default_blend_state(BlendMode::Multiply, true)
    }
}

impl Default for SpineMultiplyPmaMaterial {
    /// A material bound to the null texture handle.
    fn default() -> (r: Self)
        ensures
            r.image == 0,
    {
        SpineMultiplyPmaMaterial { image: 0 }
    }
}

impl SpineMaterial for SpineMultiplyPmaMaterial {
    open spec fn spec_update(
        current: Option<Self>,
        settings: SpineSettings,
        info: SpineMaterialInfo,
    ) -> Option<Self> {
        if default_material_applies(settings, info, BlendMode::Multiply, true) {
            Some(SpineMultiplyPmaMaterial { image: info.texture })
        } else {
            None
        }
    }

    fn update(
        material: Option<Self>,
        entity: u64,
        info: SpineMaterialInfo,
        params: &SpineSettingsQuery,
    ) -> (r: Option<Self>) {
        let settings = params.resolve(entity);
        if default_material_matches(&settings, &info, BlendMode::Multiply, true) {
            let mut material = match material {
                Some(m) => m,
                None => SpineMultiplyPmaMaterial::default(),
            };
            material.image = info.texture;
            Some(material)
        } else {
            None
        }
    }
}

/// Screen blend mode material, premultiplied-alpha.
#[derive(Clone, Copy, Debug, PartialEq, Eq, Structural)]
pub struct SpineScreenPmaMaterial {
    /// Handle id of the bound texture.
    pub image: u64,
}

impl SpineScreenPmaMaterial {
    /// A material bound to the given texture.
    pub fn new(image: u64) -> (r: Self)
        ensures
            r.image == image,
    {
        SpineScreenPmaMaterial { image }
    }

    /// Blend state this material draws with.
    pub fn blend_state() -> (r: BlendState)
        ensures
            r == spec_default_blend_state(BlendMode::Screen, true),
    {
        default_blend_state(BlendMode::Screen, true)
    }
}

impl Default for SpineScreenPmaMaterial {
    /// A material bound to the null texture handle.
    fn default() -> (r: Self)
        ensures
            r.image == 0,
    {
        SpineScreenPmaMaterial { image: 0 }
    }
}

impl SpineMaterial for SpineScreenPmaMaterial {
    open spec fn spec_update(
        current: Option<Self>,
        settings: SpineSettings,
        info: SpineMaterialInfo,
    ) -> Option<Self> {
        if default_material_applies(settings, info, BlendMode::Screen, true) {
            Some(SpineScreenPmaMaterial { image: info.texture })
        } else {
            None
        }
    }

    fn update(
        material: Option<Self>,
        entity: u64,
        info: SpineMaterialInfo,
        params: &SpineSettingsQuery,
    ) -> (r: Option<Self>) {
        let settings = params.resolve(entity);
        if default_material_matches(&settings, &info, BlendMode::Screen, true) {
            let mut material = match material {
                Some(m) => m,
                None => SpineScreenPmaMaterial::default(),
            };
            material.image = info.texture;
            Some(material)
        } else {
            None
        }
    }
}

} // verus!
