use spine_materials::blend::{
    default_blend_state, BlendComponent, BlendFactor, BlendMode, BlendOperation, BlendState,
};
use spine_materials::builtin::{SpineMultiplyPmaMaterial, SpineNormalMaterial};
use spine_materials::mesh::{vertex_attribute_locations, DARK_COLOR_SHADER_POSITION};
use spine_materials::settings::{SpineSettings, SpineSettingsQuery};
use spine_materials::store::Assets;

fn component(src: BlendFactor, dst: BlendFactor) -> BlendComponent {
    BlendComponent { src_factor: src, dst_factor: dst, operation: BlendOperation::Add }
}

#[test]
fn blend_states_of_the_eight_variants() {
    assert_eq!(
        default_blend_state(BlendMode::Normal, false),
        BlendState {
            color: component(BlendFactor::SrcAlpha, BlendFactor::OneMinusSrcAlpha),
            alpha: component(BlendFactor::One, BlendFactor::OneMinusSrcAlpha),
        }
    );
    assert_eq!(
        default_blend_state(BlendMode::Additive, false),
        BlendState {
            color: component(BlendFactor::SrcAlpha, BlendFactor::One),
            alpha: component(BlendFactor::One, BlendFactor::One),
        }
    );
    assert_eq!(
        default_blend_state(BlendMode::Multiply, false),
        BlendState {
            color: component(BlendFactor::Dst, BlendFactor::OneMinusSrcAlpha),
            alpha: component(BlendFactor::OneMinusSrcAlpha, BlendFactor::OneMinusSrcAlpha),
        }
    );
    assert_eq!(
        default_blend_state(BlendMode::Screen, false),
        BlendState {
            color: component(BlendFactor::One, BlendFactor::OneMinusSrcAlpha),
            alpha: component(BlendFactor::OneMinusSrc, BlendFactor::OneMinusSrcAlpha),
        }
    );
    assert_eq!(
        default_blend_state(BlendMode::Normal, true),
        BlendState {
            color: component(BlendFactor::One, BlendFactor::OneMinusSrcAlpha),
            alpha: component(BlendFactor::One, BlendFactor::OneMinusSrcAlpha),
        }
    );
    assert_eq!(
        default_blend_state(BlendMode::Additive, true),
        BlendState {
            color: component(BlendFactor::One, BlendFactor::One),
            alpha: component(BlendFactor::One, BlendFactor::One),
        }
    );
    assert_eq!(
        default_blend_state(BlendMode::Multiply, true),
        BlendState {
            color: component(BlendFactor::Dst, BlendFactor::OneMinusSrcAlpha),
            alpha: component(BlendFactor::OneMinusSrcAlpha, BlendFactor::OneMinusSrcAlpha),
        }
    );
    assert_eq!(
        default_blend_state(BlendMode::Screen, true),
        BlendState {
            color: component(BlendFactor::One, BlendFactor::OneMinusSrcAlpha),
            alpha: component(BlendFactor::OneMinusSrc, BlendFactor::OneMinusSrcAlpha),
        }
    );
}

#[test]
fn multiply_pma_scenario_uses_the_documented_factors() {
    // A segment with multiply blending and premultiplied alpha selects the
    // multiply-PMA material; its blend state uses the documented factors.
    let state = SpineMultiplyPmaMaterial::blend_state();
    assert_eq!(state.color.src_factor, BlendFactor::Dst);
    assert_eq!(state.color.dst_factor, BlendFactor::OneMinusSrcAlpha);
    assert_eq!(state.color.operation, BlendOperation::Add);
    assert_eq!(state.alpha.src_factor, BlendFactor::OneMinusSrcAlpha);
    assert_eq!(state.alpha.dst_factor, BlendFactor::OneMinusSrcAlpha);
    assert_eq!(state.alpha.operation, BlendOperation::Add);
}

#[test]
fn material_blend_state_matches_the_table() {
    assert_eq!(SpineNormalMaterial::blend_state(), default_blend_state(BlendMode::Normal, false));
    assert_eq!(
        SpineMultiplyPmaMaterial::blend_state(),
        default_blend_state(BlendMode::Multiply, true)
    );
}

#[test]
fn vertex_layout_is_fixed() {
    assert_eq!(vertex_attribute_locations(), vec![0, 1, 2, 4, 10]);
    assert_eq!(DARK_COLOR_SHADER_POSITION, 10);
}

#[test]
fn assets_allocate_fresh_distinct_handles() {
    let mut assets: Assets<SpineNormalMaterial> = Assets::new();
    assert_eq!(assets.len(), 0);
    let a = assets.add(SpineNormalMaterial { image: 1 });
    let b = assets.add(SpineNormalMaterial { image: 2 });
    assert_ne!(a, b);
    assert_eq!(assets.len(), 2);
    assert_eq!(assets.get(a), Some(&SpineNormalMaterial { image: 1 }));
    assert_eq!(assets.get(b), Some(&SpineNormalMaterial { image: 2 }));
    assert!(assets.contains(a));
    assert_eq!(assets.take(a), Some(SpineNormalMaterial { image: 1 }));
    assert!(!assets.contains(a));
    assert_eq!(assets.get(a), None);
    assert_eq!(assets.take(a), None);
    assert_eq!(assets.len(), 1);
    let c = assets.add(SpineNormalMaterial { image: 3 });
    assert_ne!(c, a, "handles are not reused after removal");
}

#[test]
fn settings_lookup_first_match_wins() {
    let mut q = SpineSettingsQuery::new();
    q.push(4, SpineSettings { default_materials: false });
    q.push(4, SpineSettings { default_materials: true });
    assert_eq!(q.get(4), Some(SpineSettings { default_materials: false }));
    assert_eq!(q.get(5), None);
    assert_eq!(q.resolve(4), SpineSettings { default_materials: false });
    assert_eq!(q.resolve(5), SpineSettings { default_materials: true });
    assert_eq!(SpineSettings::default(), SpineSettings { default_materials: true });
}
