//! Material policies and the per-frame material pass.
//!
//! A policy type decides, for every mesh segment, whether a material instance
//! of its type is attached, updated in place, or removed this frame. The pass
//! [`update_materials`] runs one policy over every mesh entity after the mesh
//! synchronizer has rebuilt the segments; each policy type owns its own
//! material slot on a mesh entity, so passes of different types act on
//! disjoint state.

use vstd::prelude::*;
use crate::mesh::{SpineMaterialInfo, SpineMesh, SpineMeshState};
use crate::settings::{SpineSettings, SpineSettingsQuery};
use crate::store::Assets;

verus! {

/// A material policy: decides each frame, per mesh segment, which material
/// instance of this type the segment carries. The built-in materials
/// implement it; custom materials implement it the same way.
pub trait SpineMaterial: Sized {
    /// What [`SpineMaterial::update`] decides: the instance the segment
    /// should carry this frame, or `None` for no instance of this type.
    spec fn spec_update(
        current: Option<Self>,
        settings: SpineSettings,
        info: SpineMaterialInfo,
    ) -> Option<Self>;

    /// Runs the policy for one mesh segment. `material` is the instance
    /// currently attached, if any; `entity` is the owning skeleton's entity,
    /// whose settings are resolved through `params`. Returning `Some` keeps
    /// or attaches the returned instance, returning `None` removes any
    /// attached one.
    fn update(
        material: Option<Self>,
        entity: u64,
        info: SpineMaterialInfo,
        params: &SpineSettingsQuery,
    ) -> (r: Option<Self>)
        ensures
            r == Self::spec_update(material, params.spec_resolve(entity), info);
}

/// One mesh entity as one material pass sees it: the segment's component and
/// the handle of this policy type's attached instance, if any.
#[derive(Clone, Copy, Debug, PartialEq, Eq)]
pub struct SpineMeshEntity {
    /// The segment rebuilt by the mesh synchronizer.
    pub mesh: SpineMesh,
    /// Handle of the attached material instance of the pass's type. At most
    /// one instance per policy type is ever attached to a segment.
    pub material: Option<u64>,
}

/// The instance of the pass's type currently attached to `slot`: the one its
/// handle resolves to. A handle whose instance is gone counts as no instance.
pub open spec fn slot_current<M>(slot: SpineMeshEntity, assets: Assets<M>) -> Option<M> {
    match slot.material {
        Some(h) => assets.spec_get(h),
        None => None,
    }
}

/// Every attached handle was allocated by the store, and no two mesh entities
/// share one: a material instance belongs to at most one segment.
pub open spec fn world_wf<M>(slots: Seq<SpineMeshEntity>, assets: Assets<M>) -> bool {
    &&& assets.wf()
    &&& forall|i: int|
        0 <= i < slots.len() && (#[trigger] slots[i]).material is Some ==> slots[i].material->Some_0
            < assets.spec_next()
    &&& forall|i: int, j: int|
        0 <= i < j < slots.len() && (#[trigger] slots[i]).material is Some
            && (#[trigger] slots[j]).material is Some ==> slots[i].material->Some_0
            != slots[j].material->Some_0
}

/// How one mesh entity and the asset store change when a pass of policy `M`
/// visits the entity: `s0`/`a0` are the values before the pass, `s1`/`a1`
/// after it.
///
/// An empty segment is left alone. On a renderable one the policy decides
/// from the currently attached instance, the resolved settings and the
/// segment's renderable info. A decision to keep writes the new instance
/// behind the unchanged handle; a first match attaches a fresh handle; a
/// removal drops both instance and handle. A dangling handle counts as no
/// instance: the policy then starts fresh, and if it declines, the dangling
/// handle is left in place.
pub open spec fn pass_slot_post<M: SpineMaterial>(
    s0: SpineMeshEntity,
    s1: SpineMeshEntity,
    a0: Assets<M>,
    a1: Assets<M>,
    params: SpineSettingsQuery,
) -> bool {
    &&& s1.mesh == s0.mesh
    &&& match s0.mesh.state {
        SpineMeshState::Empty => {
            &&& s1.material == s0.material
            &&& s0.material is Some ==> a1.spec_get(s0.material->Some_0) == a0.spec_get(
                s0.material->Some_0,
            )
        },
        SpineMeshState::Renderable { info } => {
            let cur = slot_current(s0, a0);
            let r = M::spec_update(cur, params.spec_resolve(s0.mesh.spine_entity), info);
            match r {
                Some(m) => {
                    if cur is Some {
                        &&& s1.material == s0.material
                        &&& a1.spec_get(s0.material->Some_0) == Some(m)
                    } else {
                        &&& s1.material is Some
                        &&& a0.spec_get(s1.material->Some_0) is None
                        &&& a1.spec_get(s1.material->Some_0) == Some(m)
                        &&& s0.material is Some ==> a1.spec_get(s0.material->Some_0) is None
                    }
                },
                None => {
                    if cur is Some {
                        &&& s1.material is None
                        &&& a1.spec_get(s0.material->Some_0) is None
                    } else {
                        &&& s1.material == s0.material
                        &&& s0.material is Some ==> a1.spec_get(s0.material->Some_0) is None
                    }
                },
            }
        },
    }
}

/// Replaces last frame's segment set with this frame's, before any material
/// pass runs: the mesh entity at each index takes the new segment, entities
/// beyond the new count are dropped, and newly created ones start with no
/// material attached.
///
/// A segment at an index this frame has no guaranteed relation to the same
/// index last frame; a policy keys its presence test only on the material
/// currently attached to the entity, never on segment identity.
pub fn sync_segments(meshes: &mut Vec<SpineMeshEntity>, segments: &Vec<SpineMesh>)
    ensures
        final(meshes)@.len() == segments@.len(),
        forall|i: int|
            0 <= i < segments@.len() ==> (#[trigger] final(meshes)@[i]).mesh == segments@[i],
        forall|i: int|
            0 <= i < segments@.len() ==> (#[trigger] final(meshes)@[i]).material == (if i < old(
                meshes,
            )@.len() {
                old(meshes)@[i].material
            } else {
                None::<u64>
            }),
{
    let n = segments.len();
    let mut out: Vec<SpineMeshEntity> = Vec::new();
    let mut i: usize = 0;
    while i < n
        invariant
            i <= n,
            n == segments@.len(),
            out@.len() == i,
            forall|j: int| 0 <= j < i ==> (#[trigger] out@[j]).mesh == segments@[j],
            forall|j: int|
                0 <= j < i ==> (#[trigger] out@[j]).material == (if j < meshes@.len() {
                    meshes@[j].material
                } else {
                    None::<u64>
                }),
        decreases n - i,
    {
        let material = if i < meshes.len() {
            meshes[i].material
        } else {
            None
        };
        out.push(SpineMeshEntity { mesh: segments[i], material });
        i = i + 1;
    }
    *meshes = out;
}

/// Replacing the segment set keeps the world well formed: a kept material
/// slot stays allocated and distinct from every other, and new segments hold
/// none, so the next pass's requirements are met.
pub proof fn lemma_sync_preserves_wf<M>(
    old_slots: Seq<SpineMeshEntity>,
    new_slots: Seq<SpineMeshEntity>,
    assets: Assets<M>,
)
    requires
        world_wf(old_slots, assets),
        forall|i: int|
            0 <= i < new_slots.len() ==> (#[trigger] new_slots[i]).material == (if i
                < old_slots.len() {
                old_slots[i].material
            } else {
                None::<u64>
            }),
    ensures
        world_wf(new_slots, assets),
{
    assert forall|i: int|
        0 <= i < new_slots.len() && (#[trigger] new_slots[i]).material is Some implies
        new_slots[i].material->Some_0 < assets.spec_next() by {
        assert(old_slots[i].material is Some);
    }
    assert forall|i: int, j: int|
        0 <= i < j < new_slots.len() && (#[trigger] new_slots[i]).material is Some && (
        #[trigger] new_slots[j]).material is Some implies new_slots[i].material->Some_0
        != new_slots[j].material->Some_0 by {
        assert(old_slots[i].material is Some);
        assert(old_slots[j].material is Some);
    }
}

/// Registration of one material policy: adding this plugin schedules one
/// [`SpineMaterialPlugin::run`] pass of policy `T` per frame, after the mesh
/// synchronizer has rebuilt the segments.
pub struct SpineMaterialPlugin<T: SpineMaterial> {
    _marker: core::marker::PhantomData<T>,
}

impl<T: SpineMaterial> Default for SpineMaterialPlugin<T> {
    fn default() -> (r: Self) {
        SpineMaterialPlugin { _marker: core::marker::PhantomData }
    }
}

impl<T: SpineMaterial> SpineMaterialPlugin<T> {
    /// The scheduled pass of this plugin's policy for one frame; see
    /// [`update_materials`].
    pub fn run(
        &self,
        meshes: &mut Vec<SpineMeshEntity>,
        materials: &mut Assets<T>,
        params: &SpineSettingsQuery,
    )
        requires
            world_wf(old(meshes)@, *old(materials)),
            old(materials).spec_next() + old(meshes)@.len() <= u64::MAX,
        ensures
            world_wf(final(meshes)@, *final(materials)),
            final(meshes)@.len() == old(meshes)@.len(),
            forall|i: int|
                0 <= i < old(meshes)@.len() ==> pass_slot_post(
                    old(meshes)@[i],
                    final(meshes)@[i],
                    *old(materials),
                    *final(materials),
                    *params,
                ),
            old(materials).spec_next() <= final(materials).spec_next(),
            forall|k: u64|
                no_slot_holds(old(meshes)@, k) && no_slot_holds(final(meshes)@, k)
                    ==> final(materials).spec_get(k) == old(materials).spec_get(k),
    {
        update_materials(meshes, materials, params)
    }
}

/// No mesh entity of `slots` holds handle `k`.
pub open spec fn no_slot_holds(slots: Seq<SpineMeshEntity>, k: u64) -> bool {
    forall|i: int| 0 <= i < slots.len() ==> (#[trigger] slots[i]).material != Some(k)
}

/// Runs one material pass: policy `M` visits every mesh entity once, after
/// the mesh synchronizer rebuilt the segments for this frame.
///
/// Per mesh entity the outcome is [`pass_slot_post`]: a kept match updates
/// the instance behind the entity's unchanged handle, a first match attaches
/// a fresh handle, a lost match removes instance and handle. Material
/// instances whose handle no entity holds are left untouched, and the world
/// stays well formed, so no two entities ever share an instance and at most
/// one instance of `M` is attached per segment.
#[verifier::loop_isolation(false)]
pub fn update_materials<M: SpineMaterial>(
    meshes: &mut Vec<SpineMeshEntity>,
    materials: &mut Assets<M>,
    params: &SpineSettingsQuery,
)
    requires
        world_wf(old(meshes)@, *old(materials)),
        old(materials).spec_next() + old(meshes)@.len() <= u64::MAX,
    ensures
        world_wf(final(meshes)@, *final(materials)),
        final(meshes)@.len() == old(meshes)@.len(),
        forall|i: int|
            0 <= i < old(meshes)@.len() ==> pass_slot_post(
                old(meshes)@[i],
                final(meshes)@[i],
                *old(materials),
                *final(materials),
                *params,
            ),
        old(materials).spec_next() <= final(materials).spec_next(),
        forall|k: u64|
            no_slot_holds(old(meshes)@, k) && no_slot_holds(final(meshes)@, k)
                ==> final(materials).spec_get(k) == old(materials).spec_get(k),
{
    let n = meshes.len();
    let mut i: usize = 0;
    while i < n
        invariant
            i <= n,
            n == meshes@.len(),
            materials.wf(),
            old(materials).spec_next() <= materials.spec_next(),
            materials.spec_next() <= old(materials).spec_next() + i,
            forall|j: int| i <= j < n ==> meshes@[j] == old(meshes)@[j],
            forall|j: int|
                0 <= j < i ==> pass_slot_post(
                    old(meshes)@[j],
                    #[trigger] meshes@[j],
                    *old(materials),
                    *materials,
                    *params,
                ),
            forall|j: int|
                0 <= j < n && (#[trigger] meshes@[j]).material is Some
                    ==> meshes@[j].material->Some_0 < materials.spec_next(),
            forall|j: int, l: int|
                0 <= j < l < n && (#[trigger] meshes@[j]).material is Some
                    && (#[trigger] meshes@[l]).material is Some ==> meshes@[j].material->Some_0
                    != meshes@[l].material->Some_0,
            forall|j: int|
                i <= j < n && (#[trigger] meshes@[j]).material is Some ==> materials.spec_get(
                    meshes@[j].material->Some_0,
                ) == old(materials).spec_get(meshes@[j].material->Some_0),
            forall|k: u64|
                no_slot_holds(old(meshes)@, k) && no_slot_holds(meshes@, k)
                    ==> materials.spec_get(k) == old(materials).spec_get(k),
        decreases n - i,
    {
        let ghost pre_meshes = meshes@;
        let ghost pre_assets = *materials;
        let mut slot = meshes[i];
        update_one(&mut slot, materials, params);
        let ghost new_slot = slot;
        meshes.set(i, slot);
        proof {
            let s0 = old(meshes)@[i as int];
            assert(pre_meshes[i as int] == s0);
            // The slot's own outcome, restated against the whole-pass start:
            // its handle was untouched before this step, and a fresh handle
            // was unallocated at the start of the pass.
            assert(slot_current(s0, pre_assets) == slot_current(s0, *old(materials)));
            if new_slot.material is Some && !(s0.material is Some
                && new_slot.material->Some_0 == s0.material->Some_0) {
                if new_slot.material->Some_0 >= old(materials).spec_next() {
                    old(materials).lemma_unallocated_absent(new_slot.material->Some_0);
                }
            }
            assert(pass_slot_post(s0, new_slot, *old(materials), *materials, *params));
            // Earlier slots' outcomes survive this step: the handles this
            // step touched are not theirs.
            assert forall|j: int| 0 <= j < i implies pass_slot_post(
                old(meshes)@[j],
                #[trigger] meshes@[j],
                *old(materials),
                *materials,
                *params,
            ) by {
                assert(meshes@[j] == pre_meshes[j]);
                assert(pass_slot_post(
                    old(meshes)@[j],
                    pre_meshes[j],
                    *old(materials),
                    pre_assets,
                    *params,
                ));
            }
            // Instances whose handle no entity holds stay untouched.
            assert forall|k: u64|
                no_slot_holds(old(meshes)@, k) && no_slot_holds(meshes@, k) implies
                materials.spec_get(k) == old(materials).spec_get(k) by {
                assert(forall|j: int|
                    0 <= j < n && j != i ==> (#[trigger] pre_meshes[j]) == meshes@[j]);
                assert(pre_meshes[i as int].material != Some(k));
                assert(no_slot_holds(pre_meshes, k));
                assert(meshes@[i as int].material != Some(k));
            }
        }
        i = i + 1;
    }
}

/// Runs policy `M` for one mesh entity, keeping the attached handle stable
/// across a kept match and freeing it on a removal.
fn update_one<M: SpineMaterial>(
    slot: &mut SpineMeshEntity,
    materials: &mut Assets<M>,
    params: &SpineSettingsQuery,
)
    requires
        old(materials).wf(),
        old(materials).spec_next() < u64::MAX,
        old(slot).material is Some ==> old(slot).material->Some_0 < old(materials).spec_next(),
    ensures
        final(materials).wf(),
        pass_slot_post(*old(slot), *final(slot), *old(materials), *final(materials), *params),
        old(materials).spec_next() <= final(materials).spec_next(),
        final(materials).spec_next() <= old(materials).spec_next() + 1,
        final(slot).material is Some ==> final(slot).material->Some_0
            < final(materials).spec_next(),
        final(slot).material == old(slot).material || final(slot).material is None || (
        final(slot).material is Some && final(slot).material->Some_0 >= old(materials).spec_next()),
        forall|k: u64|
            old(slot).material != Some(k) && final(slot).material != Some(k)
                ==> final(materials).spec_get(k) == old(materials).spec_get(k),
        final(slot).mesh == old(slot).mesh,
{
    let info = match &slot.mesh.state {
        SpineMeshState::Renderable { info } => *info,
        SpineMeshState::Empty => { return }
    };
    let entity = slot.mesh.spine_entity;
    match slot.material {
        Some(handle) => {
            match materials.take(handle) {
                Some(current) => {
                    match M::update(Some(current), entity, info, params) {
                        Some(updated) => {
                            materials.insert_keyed(handle, updated);
                        },
                        None => {
                            slot.material = None;
                        },
                    }
                },
                None => {
                    // The handle dangles: treat the material as absent.
                    match M::update(None, entity, info, params) {
                        Some(fresh) => {
                            let new_handle = materials.add(fresh);
                            slot.material = Some(new_handle);
                        },
                        None => {},
                    }
                },
            }
        },
        None => {
            match M::update(None, entity, info, params) {
                Some(fresh) => {
                    let new_handle = materials.add(fresh);
                    slot.material = Some(new_handle);
                },
                None => {},
            }
        },
    }
}

} // verus!
