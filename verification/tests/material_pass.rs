use spine_materials::blend::BlendMode;
use spine_materials::builtin::{SpineMultiplyPmaMaterial, SpineNormalMaterial};
use spine_materials::materials::{
    sync_segments, update_materials, SpineMaterialPlugin, SpineMeshEntity,
};
use spine_materials::mesh::{SpineMaterialInfo, SpineMesh, SpineMeshState};
use spine_materials::settings::{SpineSettings, SpineSettingsQuery};
use spine_materials::store::Assets;

fn renderable(entity: u64, blend_mode: BlendMode, premultiplied_alpha: bool) -> SpineMeshEntity {
    SpineMeshEntity {
        mesh: SpineMesh {
            spine_entity: entity,
            state: SpineMeshState::Renderable {
                info: SpineMaterialInfo {
                    slot_index: Some(0),
                    texture: 21,
                    blend_mode,
                    premultiplied_alpha,
                },
            },
        },
        material: None,
    }
}

fn set_texture(slot: &mut SpineMeshEntity, texture: u64) {
    if let SpineMeshState::Renderable { info } = &mut slot.mesh.state {
        info.texture = texture;
    }
}

#[test]
fn first_match_attaches_a_material() {
    let mut meshes = vec![renderable(1, BlendMode::Normal, false)];
    let mut materials: Assets<SpineNormalMaterial> = Assets::new();
    let params = SpineSettingsQuery::new();
    update_materials(&mut meshes, &mut materials, &params);
    let handle = meshes[0].material.expect("material must be attached");
    assert_eq!(materials.get(handle), Some(&SpineNormalMaterial { image: 21 }));
    assert_eq!(materials.len(), 1);
}

#[test]
fn non_matching_policy_attaches_nothing() {
    let mut meshes = vec![renderable(1, BlendMode::Normal, false)];
    let mut materials: Assets<SpineMultiplyPmaMaterial> = Assets::new();
    let params = SpineSettingsQuery::new();
    update_materials(&mut meshes, &mut materials, &params);
    assert_eq!(meshes[0].material, None);
    assert_eq!(materials.len(), 0);
}

#[test]
fn kept_match_reuses_the_same_handle() {
    let mut meshes = vec![renderable(1, BlendMode::Multiply, true)];
    let mut materials: Assets<SpineMultiplyPmaMaterial> = Assets::new();
    let params = SpineSettingsQuery::new();
    update_materials(&mut meshes, &mut materials, &params);
    let first_handle = meshes[0].material.expect("attached on first frame");
    // Next frame: the segment is rebuilt with a new texture, the policy
    // keeps matching, and the instance behind the same handle is updated.
    set_texture(&mut meshes[0], 99);
    update_materials(&mut meshes, &mut materials, &params);
    let second_handle = meshes[0].material.expect("still attached");
    assert_eq!(second_handle, first_handle);
    assert_eq!(materials.get(first_handle), Some(&SpineMultiplyPmaMaterial { image: 99 }));
    assert_eq!(materials.len(), 1);
}

#[test]
fn unchanged_inputs_leave_the_world_unchanged() {
    let mut meshes = vec![renderable(1, BlendMode::Screen, false)];
    let mut materials: Assets<spine_materials::builtin::SpineScreenMaterial> = Assets::new();
    let params = SpineSettingsQuery::new();
    update_materials(&mut meshes, &mut materials, &params);
    let handle = meshes[0].material.expect("attached");
    let instance = materials.get(handle).copied();
    update_materials(&mut meshes, &mut materials, &params);
    assert_eq!(meshes[0].material, Some(handle));
    assert_eq!(materials.get(handle).copied(), instance);
    assert_eq!(materials.len(), 1);
}

#[test]
fn lost_match_removes_instance_and_handle() {
    let mut meshes = vec![renderable(1, BlendMode::Multiply, true)];
    let mut materials: Assets<SpineMultiplyPmaMaterial> = Assets::new();
    let params = SpineSettingsQuery::new();
    update_materials(&mut meshes, &mut materials, &params);
    let handle = meshes[0].material.expect("attached on first frame");
    assert!(materials.contains(handle));
    // Next frame the segment's blend mode changed: the policy stops matching.
    meshes[0] = SpineMeshEntity { material: meshes[0].material, ..renderable(1, BlendMode::Normal, false) };
    update_materials(&mut meshes, &mut materials, &params);
    assert_eq!(meshes[0].material, None);
    assert!(!materials.contains(handle));
    assert_eq!(materials.len(), 0);
}

#[test]
fn disabling_settings_removes_attached_materials() {
    let mut meshes = vec![renderable(6, BlendMode::Multiply, true)];
    let mut materials: Assets<SpineMultiplyPmaMaterial> = Assets::new();
    let enabled = SpineSettingsQuery::new();
    update_materials(&mut meshes, &mut materials, &enabled);
    assert!(meshes[0].material.is_some());
    let mut disabled = SpineSettingsQuery::new();
    disabled.push(6, SpineSettings { default_materials: false });
    update_materials(&mut meshes, &mut materials, &disabled);
    assert_eq!(meshes[0].material, None);
    assert_eq!(materials.len(), 0);
}

#[test]
fn empty_segments_are_left_alone() {
    let mut meshes = vec![
        SpineMeshEntity {
            mesh: SpineMesh { spine_entity: 1, state: SpineMeshState::Empty },
            material: None,
        },
    ];
    let mut materials: Assets<SpineNormalMaterial> = Assets::new();
    let params = SpineSettingsQuery::new();
    update_materials(&mut meshes, &mut materials, &params);
    assert_eq!(meshes[0].material, None);
    assert_eq!(materials.len(), 0);
}

#[test]
fn dangling_handle_counts_as_absent() {
    let mut meshes = vec![renderable(1, BlendMode::Normal, false)];
    let mut materials: Assets<SpineNormalMaterial> = Assets::new();
    let params = SpineSettingsQuery::new();
    update_materials(&mut meshes, &mut materials, &params);
    let old_handle = meshes[0].material.expect("attached");
    // The instance disappears behind the segment's back; the handle dangles.
    assert!(materials.take(old_handle).is_some());
    update_materials(&mut meshes, &mut materials, &params);
    let new_handle = meshes[0].material.expect("freshly attached");
    assert_ne!(new_handle, old_handle, "a freed handle is never reused");
    assert_eq!(materials.get(new_handle), Some(&SpineNormalMaterial { image: 21 }));
}

#[test]
fn dangling_handle_stays_when_policy_declines() {
    let mut meshes = vec![renderable(1, BlendMode::Normal, false)];
    let mut materials: Assets<SpineNormalMaterial> = Assets::new();
    let params = SpineSettingsQuery::new();
    update_materials(&mut meshes, &mut materials, &params);
    let old_handle = meshes[0].material.expect("attached");
    assert!(materials.take(old_handle).is_some());
    // The policy no longer matches and there is no instance to remove: the
    // pass leaves the dangling handle in place.
    meshes[0].mesh = renderable(1, BlendMode::Additive, false).mesh;
    update_materials(&mut meshes, &mut materials, &params);
    assert_eq!(meshes[0].material, Some(old_handle));
    assert_eq!(materials.len(), 0);
}

#[test]
fn segments_get_distinct_handles() {
    let mut meshes = vec![
        renderable(1, BlendMode::Normal, false),
        renderable(2, BlendMode::Normal, false),
        renderable(3, BlendMode::Additive, false),
    ];
    let mut materials: Assets<SpineNormalMaterial> = Assets::new();
    let params = SpineSettingsQuery::new();
    update_materials(&mut meshes, &mut materials, &params);
    let a = meshes[0].material.expect("first segment attached");
    let b = meshes[1].material.expect("second segment attached");
    assert_ne!(a, b);
    assert_eq!(meshes[2].material, None, "additive segment is not the normal policy's");
    assert_eq!(materials.len(), 2);
}

#[test]
fn independent_policies_attach_to_the_same_segment() {
    // Two policy types each own their own slot: one segment can carry at
    // most one instance per type, and the passes do not disturb each other.
    let mut normal_world = vec![renderable(1, BlendMode::Normal, false)];
    let mut normal_assets: Assets<SpineNormalMaterial> = Assets::new();
    let mut multiply_world = normal_world.clone();
    let mut multiply_assets: Assets<SpineMultiplyPmaMaterial> = Assets::new();
    let params = SpineSettingsQuery::new();
    update_materials(&mut normal_world, &mut normal_assets, &params);
    update_materials(&mut multiply_world, &mut multiply_assets, &params);
    assert!(normal_world[0].material.is_some());
    assert_eq!(multiply_world[0].material, None);
}

#[test]
fn sync_keeps_materials_and_starts_new_segments_bare() {
    let mut meshes = vec![renderable(1, BlendMode::Normal, false)];
    let mut materials: Assets<SpineNormalMaterial> = Assets::new();
    let params = SpineSettingsQuery::new();
    update_materials(&mut meshes, &mut materials, &params);
    let handle = meshes[0].material.expect("attached");
    // Next frame the skeleton produces two segments: the first entity keeps
    // its material slot, the new one starts without any.
    let segments = vec![
        renderable(1, BlendMode::Normal, false).mesh,
        renderable(1, BlendMode::Additive, false).mesh,
    ];
    sync_segments(&mut meshes, &segments);
    assert_eq!(meshes.len(), 2);
    assert_eq!(meshes[0].material, Some(handle));
    assert_eq!(meshes[1].material, None);
    // And a frame later only one segment remains: the extra entity is gone.
    let fewer = vec![renderable(1, BlendMode::Normal, false).mesh];
    sync_segments(&mut meshes, &fewer);
    assert_eq!(meshes.len(), 1);
    assert_eq!(meshes[0].material, Some(handle));
    update_materials(&mut meshes, &mut materials, &params);
    assert_eq!(meshes[0].material, Some(handle), "the pass still finds its material");
}

#[test]
fn plugin_run_is_the_scheduled_pass() {
    let plugin: SpineMaterialPlugin<SpineNormalMaterial> = SpineMaterialPlugin::default();
    let mut meshes = vec![renderable(1, BlendMode::Normal, false)];
    let mut materials: Assets<SpineNormalMaterial> = Assets::new();
    let params = SpineSettingsQuery::new();
    plugin.run(&mut meshes, &mut materials, &params);
    assert!(meshes[0].material.is_some());
    assert_eq!(materials.len(), 1);
}
