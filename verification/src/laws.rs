//! Properties of the built-in materials and of the material pass.
//!
//! These proof functions state, over the policies' decision functions, what
//! the built-in material set guarantees as a whole: a segment selects at most
//! one built-in material, the selection is idempotent within a frame, a
//! global opt-out silences all eight, and an attached material always agrees
//! with its segment's renderable info.

use vstd::prelude::*;
use crate::blend::BlendMode;
use crate::builtin::{default_material_applies, SpineAdditiveMaterial, SpineAdditivePmaMaterial};
use crate::builtin::{SpineMultiplyMaterial, SpineMultiplyPmaMaterial, SpineNormalMaterial};
use crate::builtin::{SpineNormalPmaMaterial, SpineScreenMaterial, SpineScreenPmaMaterial};
use crate::materials::{pass_slot_post, slot_current, SpineMaterial, SpineMeshEntity};
use crate::mesh::{SpineMaterialInfo, SpineMeshState};
use crate::settings::{SpineSettings, SpineSettingsQuery};
use crate::store::Assets;

verus! {

/// Running a built-in policy twice in the same frame, with unchanged settings
/// and renderable info, settles: feeding a policy's decision back in as the
/// current material yields the same decision again, so a second pass in one
/// frame changes nothing.
pub proof fn lemma_builtin_update_idempotent(settings: SpineSettings, info: SpineMaterialInfo)
    ensures
        forall|c: Option<SpineNormalMaterial>|
            SpineNormalMaterial::spec_update(
                #[trigger] SpineNormalMaterial::spec_update(c, settings, info),
                settings,
                info,
            ) == SpineNormalMaterial::spec_update(c, settings, info),
        forall|c: Option<SpineAdditiveMaterial>|
            SpineAdditiveMaterial::spec_update(
                #[trigger] SpineAdditiveMaterial::spec_update(c, settings, info),
                settings,
                info,
            ) == SpineAdditiveMaterial::spec_update(c, settings, info),
        forall|c: Option<SpineMultiplyMaterial>|
            SpineMultiplyMaterial::spec_update(
                #[trigger] SpineMultiplyMaterial::spec_update(c, settings, info),
                settings,
                info,
            ) == SpineMultiplyMaterial::spec_update(c, settings, info),
        forall|c: Option<SpineScreenMaterial>|
            SpineScreenMaterial::spec_update(
                #[trigger] SpineScreenMaterial::spec_update(c, settings, info),
                settings,
                info,
            ) == SpineScreenMaterial::spec_update(c, settings, info),
        forall|c: Option<SpineNormalPmaMaterial>|
            SpineNormalPmaMaterial::spec_update(
                #[trigger] SpineNormalPmaMaterial::spec_update(c, settings, info),
                settings,
                info,
            ) == SpineNormalPmaMaterial::spec_update(c, settings, info),
        forall|c: Option<SpineAdditivePmaMaterial>|
            SpineAdditivePmaMaterial::spec_update(
                #[trigger] SpineAdditivePmaMaterial::spec_update(c, settings, info),
                settings,
                info,
            ) == SpineAdditivePmaMaterial::spec_update(c, settings, info),
        forall|c: Option<SpineMultiplyPmaMaterial>|
            SpineMultiplyPmaMaterial::spec_update(
                #[trigger] SpineMultiplyPmaMaterial::spec_update(c, settings, info),
                settings,
                info,
            ) == SpineMultiplyPmaMaterial::spec_update(c, settings, info),
        forall|c: Option<SpineScreenPmaMaterial>|
            SpineScreenPmaMaterial::spec_update(
                #[trigger] SpineScreenPmaMaterial::spec_update(c, settings, info),
                settings,
                info,
            ) == SpineScreenPmaMaterial::spec_update(c, settings, info),
{
}

/// With default materials enabled, a segment's (blend mode, alpha convention)
/// pair selects exactly one of the eight built-in policies: that one attaches
/// whatever was attached before, and each of the other seven yields `None`.
pub proof fn lemma_exactly_one_builtin_attaches(settings: SpineSettings, info: SpineMaterialInfo)
    requires
        settings.default_materials,
    ensures
        forall|c: Option<SpineNormalMaterial>|
            (#[trigger] SpineNormalMaterial::spec_update(c, settings, info)) is Some <==> (
            info.blend_mode == BlendMode::Normal && !info.premultiplied_alpha),
        forall|c: Option<SpineAdditiveMaterial>|
            (#[trigger] SpineAdditiveMaterial::spec_update(c, settings, info)) is Some <==> (
            info.blend_mode == BlendMode::Additive && !info.premultiplied_alpha),
        forall|c: Option<SpineMultiplyMaterial>|
            (#[trigger] SpineMultiplyMaterial::spec_update(c, settings, info)) is Some <==> (
            info.blend_mode == BlendMode::Multiply && !info.premultiplied_alpha),
        forall|c: Option<SpineScreenMaterial>|
            (#[trigger] SpineScreenMaterial::spec_update(c, settings, info)) is Some <==> (
            info.blend_mode == BlendMode::Screen && !info.premultiplied_alpha),
        forall|c: Option<SpineNormalPmaMaterial>|
            (#[trigger] SpineNormalPmaMaterial::spec_update(c, settings, info)) is Some <==> (
            info.blend_mode == BlendMode::Normal && info.premultiplied_alpha),
        forall|c: Option<SpineAdditivePmaMaterial>|
            (#[trigger] SpineAdditivePmaMaterial::spec_update(c, settings, info)) is Some <==> (
            info.blend_mode == BlendMode::Additive && info.premultiplied_alpha),
        forall|c: Option<SpineMultiplyPmaMaterial>|
            (#[trigger] SpineMultiplyPmaMaterial::spec_update(c, settings, info)) is Some <==> (
            info.blend_mode == BlendMode::Multiply && info.premultiplied_alpha),
        forall|c: Option<SpineScreenPmaMaterial>|
            (#[trigger] SpineScreenPmaMaterial::spec_update(c, settings, info)) is Some <==> (
            info.blend_mode == BlendMode::Screen && info.premultiplied_alpha),
{
}

/// With default materials disabled, every built-in policy yields `None` for
/// every segment, whatever its blend mode and alpha convention.
pub proof fn lemma_disabled_yields_none(settings: SpineSettings, info: SpineMaterialInfo)
    requires
        !settings.default_materials,
    ensures
        forall|c: Option<SpineNormalMaterial>|
            (#[trigger] SpineNormalMaterial::spec_update(c, settings, info)) is None,
        forall|c: Option<SpineAdditiveMaterial>|
            (#[trigger] SpineAdditiveMaterial::spec_update(c, settings, info)) is None,
        forall|c: Option<SpineMultiplyMaterial>|
            (#[trigger] SpineMultiplyMaterial::spec_update(c, settings, info)) is None,
        forall|c: Option<SpineScreenMaterial>|
            (#[trigger] SpineScreenMaterial::spec_update(c, settings, info)) is None,
        forall|c: Option<SpineNormalPmaMaterial>|
            (#[trigger] SpineNormalPmaMaterial::spec_update(c, settings, info)) is None,
        forall|c: Option<SpineAdditivePmaMaterial>|
            (#[trigger] SpineAdditivePmaMaterial::spec_update(c, settings, info)) is None,
        forall|c: Option<SpineMultiplyPmaMaterial>|
            (#[trigger] SpineMultiplyPmaMaterial::spec_update(c, settings, info)) is None,
        forall|c: Option<SpineScreenPmaMaterial>|
            (#[trigger] SpineScreenPmaMaterial::spec_update(c, settings, info)) is None,
{
}

/// Each built-in policy attaches only under its own blend mode and alpha
/// convention, and only where default materials are enabled.
pub proof fn lemma_builtin_updates_characterized()
    ensures
        forall|c: Option<SpineNormalMaterial>, s: SpineSettings, i: SpineMaterialInfo|
            (#[trigger] SpineNormalMaterial::spec_update(c, s, i)) is Some
                ==> default_material_applies(s, i, BlendMode::Normal, false),
        forall|c: Option<SpineAdditiveMaterial>, s: SpineSettings, i: SpineMaterialInfo|
            (#[trigger] SpineAdditiveMaterial::spec_update(c, s, i)) is Some
                ==> default_material_applies(s, i, BlendMode::Additive, false),
        forall|c: Option<SpineMultiplyMaterial>, s: SpineSettings, i: SpineMaterialInfo|
            (#[trigger] SpineMultiplyMaterial::spec_update(c, s, i)) is Some
                ==> default_material_applies(s, i, BlendMode::Multiply, false),
        forall|c: Option<SpineScreenMaterial>, s: SpineSettings, i: SpineMaterialInfo|
            (#[trigger] SpineScreenMaterial::spec_update(c, s, i)) is Some
                ==> default_material_applies(s, i, BlendMode::Screen, false),
        forall|c: Option<SpineNormalPmaMaterial>, s: SpineSettings, i: SpineMaterialInfo|
            (#[trigger] SpineNormalPmaMaterial::spec_update(c, s, i)) is Some
                ==> default_material_applies(s, i, BlendMode::Normal, true),
        forall|c: Option<SpineAdditivePmaMaterial>, s: SpineSettings, i: SpineMaterialInfo|
            (#[trigger] SpineAdditivePmaMaterial::spec_update(c, s, i)) is Some
                ==> default_material_applies(s, i, BlendMode::Additive, true),
        forall|c: Option<SpineMultiplyPmaMaterial>, s: SpineSettings, i: SpineMaterialInfo|
            (#[trigger] SpineMultiplyPmaMaterial::spec_update(c, s, i)) is Some
                ==> default_material_applies(s, i, BlendMode::Multiply, true),
        forall|c: Option<SpineScreenPmaMaterial>, s: SpineSettings, i: SpineMaterialInfo|
            (#[trigger] SpineScreenPmaMaterial::spec_update(c, s, i)) is Some
                ==> default_material_applies(s, i, BlendMode::Screen, true),
{
}

/// Handle stability: when a policy matched a segment and, a frame later,
/// matches it again, the segment keeps the very handle it had — the instance
/// behind it is overwritten with the policy's new decision, never
/// reallocated, so outside references to the handle stay valid.
pub proof fn lemma_handle_stable<M: SpineMaterial>(
    s0: SpineMeshEntity,
    s1: SpineMeshEntity,
    a0: Assets<M>,
    a1: Assets<M>,
    params: SpineSettingsQuery,
    info: SpineMaterialInfo,
)
    requires
        pass_slot_post(s0, s1, a0, a1, params),
        s0.mesh.state == (SpineMeshState::Renderable { info }),
        slot_current(s0, a0) is Some,
        M::spec_update(
            slot_current(s0, a0),
            params.spec_resolve(s0.mesh.spine_entity),
            info,
        ) is Some,
    ensures
        s1.material == s0.material,
        a1.spec_get(s0.material->Some_0) == Some(
            M::spec_update(
                slot_current(s0, a0),
                params.spec_resolve(s0.mesh.spine_entity),
                info,
            )->Some_0,
        ),
{
}

/// Removal: when a policy stops matching a segment it was attached to, the
/// pass removes both the instance and the segment's handle — no material of
/// that type remains attached.
pub proof fn lemma_removal<M: SpineMaterial>(
    s0: SpineMeshEntity,
    s1: SpineMeshEntity,
    a0: Assets<M>,
    a1: Assets<M>,
    params: SpineSettingsQuery,
    info: SpineMaterialInfo,
)
    requires
        pass_slot_post(s0, s1, a0, a1, params),
        s0.mesh.state == (SpineMeshState::Renderable { info }),
        slot_current(s0, a0) is Some,
        M::spec_update(
            slot_current(s0, a0),
            params.spec_resolve(s0.mesh.spine_entity),
            info,
        ) is None,
    ensures
        s1.material is None,
        a1.spec_get(s0.material->Some_0) is None,
{
}

/// A second pass with unchanged inputs changes nothing: for a policy whose
/// decision is idempotent — as every built-in's is, see
/// [`lemma_builtin_update_idempotent`] — running the pass again on a mesh
/// entity it has just visited leaves the entity and the instance behind its
/// handle exactly as they were.
pub proof fn lemma_pass_idempotent<M: SpineMaterial>(
    s0: SpineMeshEntity,
    s1: SpineMeshEntity,
    s2: SpineMeshEntity,
    a0: Assets<M>,
    a1: Assets<M>,
    a2: Assets<M>,
    params: SpineSettingsQuery,
)
    requires
        forall|c: Option<M>, s: SpineSettings, i: SpineMaterialInfo|
            M::spec_update(#[trigger] M::spec_update(c, s, i), s, i) == M::spec_update(c, s, i),
        pass_slot_post(s0, s1, a0, a1, params),
        pass_slot_post(s1, s2, a1, a2, params),
    ensures
        s2 == s1,
        s1.material is Some ==> a2.spec_get(s1.material->Some_0) == a1.spec_get(
            s1.material->Some_0,
        ),
{
    match s0.mesh.state {
        SpineMeshState::Empty => {},
        SpineMeshState::Renderable { info } => {
            let rs = params.spec_resolve(s0.mesh.spine_entity);
            let cur0 = slot_current(s0, a0);
            let r0 = M::spec_update(cur0, rs, info);
            let cur1 = slot_current(s1, a1);
            let r1 = M::spec_update(cur1, rs, info);
            if r0 is Some {
                assert(cur1 == r0);
                assert(r1 == M::spec_update(M::spec_update(cur0, rs, info), rs, info));
            } else {
                assert(cur1 is None);
                assert(r1 == M::spec_update(M::spec_update(cur0, rs, info), rs, info));
            }
        },
    }
}

/// A material attached after a pass agrees with its segment: for any policy
/// that attaches only under one (blend mode, alpha convention) pair — as all
/// eight built-ins do, see [`lemma_builtin_updates_characterized`] — a mesh
/// entity that carries an instance of the policy's type after the pass has
/// renderable info with exactly that pair, and had default materials enabled.
pub proof fn lemma_attached_matches_info<M: SpineMaterial>(
    mode: BlendMode,
    premultiplied_alpha: bool,
    s0: SpineMeshEntity,
    s1: SpineMeshEntity,
    a0: Assets<M>,
    a1: Assets<M>,
    params: SpineSettingsQuery,
    info: SpineMaterialInfo,
)
    requires
        forall|c: Option<M>, s: SpineSettings, i: SpineMaterialInfo|
            (#[trigger] M::spec_update(c, s, i)) is Some ==> default_material_applies(
                s,
                i,
                mode,
                premultiplied_alpha,
            ),
        pass_slot_post(s0, s1, a0, a1, params),
        s0.mesh.state == (SpineMeshState::Renderable { info }),
        s1.material is Some,
        a1.spec_get(s1.material->Some_0) is Some,
    ensures
        info.blend_mode == mode,
        info.premultiplied_alpha == premultiplied_alpha,
        params.spec_resolve(s0.mesh.spine_entity).default_materials,
{
    let cur = crate::materials::slot_current(s0, a0);
    let r = M::spec_update(cur, params.spec_resolve(s0.mesh.spine_entity), info);
    if r is Some {
        assert(default_material_applies(
            params.spec_resolve(s0.mesh.spine_entity),
            info,
            mode,
            premultiplied_alpha,
        ));
    }
}

} // verus!
