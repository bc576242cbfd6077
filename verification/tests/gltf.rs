use pebble::animation::Interpolation;
use pebble::gltf_loader::{
    check_inverse_bind_count, check_primitive, joint_parents, plan_tracks, select_skin, skinned_nodes, AccessorState,
    ChannelInfo, ChannelProperty, ModelLoadError, PrimitiveAccessors, PropertySource, SamplerInterpolation, TrackPlan,
};
use pebble::skeleton::JointHierarchy;

fn complete() -> PrimitiveAccessors {
    PrimitiveAccessors {
        positions: AccessorState::Dense,
        normals: AccessorState::Dense,
        tex_coords: AccessorState::Dense,
        indices: AccessorState::Dense,
        joints: AccessorState::Dense,
        weights: AccessorState::Dense,
    }
}

fn unsupported(e: ModelLoadError) -> &'static str {
    match e {
        ModelLoadError::UnsupportedFeature(f) => f,
        other => panic!("expected an unsupported feature, got {other:?}"),
    }
}

fn missing(e: ModelLoadError) -> String {
    match e {
        ModelLoadError::MissingData(m) => m,
        other => panic!("expected missing data, got {other:?}"),
    }
}

fn channel(joint: Option<usize>, property: Option<ChannelProperty>) -> ChannelInfo {
    ChannelInfo { joint, interpolation: SamplerInterpolation::Linear, has_times: true, property }
}

#[test]
fn scrambled_joint_order_still_resolves_each_parent() {
    // Joint order: child (node 4), root (node 2), mid (node 7); root's node
    // lists mid's node as a child, mid's node lists child's node.
    let joint_nodes = vec![4, 2, 7];
    let children = vec![vec![], vec![7, 9], vec![4]];
    let parents = joint_parents(&joint_nodes, &children);
    assert_eq!(parents, vec![Some(2), None, Some(1)]);
    let names = vec!["child".to_string(), "root".to_string(), "mid".to_string()];
    let skeleton = JointHierarchy::new(parents, names);
    let root = skeleton.joint_index_by_name("root").unwrap();
    let mid = skeleton.joint_index_by_name("mid").unwrap();
    let child = skeleton.joint_index_by_name("child").unwrap();
    assert_eq!(skeleton.parent(root), None);
    assert_eq!(skeleton.parent(mid), Some(root));
    assert_eq!(skeleton.parent(child), Some(mid));
}

#[test]
fn a_joint_claimed_by_two_joints_takes_the_later_one() {
    let parents = joint_parents(&vec![10, 11, 12], &vec![vec![12], vec![12], vec![]]);
    assert_eq!(parents, vec![None, None, Some(1)]);
}

#[test]
fn at_most_one_skin_is_loaded() {
    assert!(matches!(select_skin(0), Ok(None)));
    assert!(matches!(select_skin(1), Ok(Some(0))));
    assert_eq!(unsupported(select_skin(2).unwrap_err()), "more than one skin");
}

#[test]
fn inverse_bind_matrices_may_be_absent_but_not_miscounted() {
    assert!(check_inverse_bind_count(3, None).is_ok());
    assert!(check_inverse_bind_count(3, Some(3)).is_ok());
    assert_eq!(missing(check_inverse_bind_count(3, Some(12)).unwrap_err()), "skin has 3 joints but 12 inverse bind matrices");
}

#[test]
fn only_nodes_bound_to_the_loaded_skin_are_skinned() {
    assert_eq!(skinned_nodes(&vec![None, Some(0), Some(1)], Some(0)), vec![false, true, false]);
    assert_eq!(skinned_nodes(&vec![None, Some(0)], None), vec![false, false]);
}

#[test]
fn a_complete_primitive_is_named_after_its_mesh_and_position() {
    assert_eq!(check_primitive("body", 3, complete(), true).unwrap(), "body_3");
    let mut rigid = complete();
    rigid.joints = AccessorState::Missing;
    rigid.weights = AccessorState::Missing;
    assert_eq!(check_primitive("prop", 12, rigid, false).unwrap(), "prop_12");
}

#[test]
fn primitive_problems_are_reported_in_the_loaders_order() {
    let mut a = complete();
    a.normals = AccessorState::Missing;
    a.indices = AccessorState::Missing;
    assert_eq!(missing(check_primitive("mesh", 0, a, false).unwrap_err()), "primitive 'mesh_0' has no NORMAL attribute");

    let mut b = complete();
    b.positions = AccessorState::Sparse;
    assert_eq!(unsupported(check_primitive("mesh", 0, b, false).unwrap_err()), "sparse accessors");

    let mut c = complete();
    c.indices = AccessorState::Missing;
    assert_eq!(unsupported(check_primitive("mesh", 0, c, false).unwrap_err()), "non-indexed primitives");

    let mut d = complete();
    d.weights = AccessorState::Missing;
    assert_eq!(missing(check_primitive("hero", 1, d, true).unwrap_err()), "skinned primitive 'hero_1' has no WEIGHTS_0 attribute");

    let mut e = complete();
    e.positions = AccessorState::Missing;
    assert_eq!(missing(check_primitive("m", 2, e, false).unwrap_err()), "primitive 'm_2' has no POSITION attribute");

    let mut f = complete();
    f.tex_coords = AccessorState::Missing;
    assert_eq!(missing(check_primitive("m", 0, f, false).unwrap_err()), "primitive 'm_0' has no TEXCOORD_0 attribute");

    let mut g = complete();
    g.joints = AccessorState::Missing;
    assert_eq!(missing(check_primitive("m", 0, g, true).unwrap_err()), "skinned primitive 'm_0' has no JOINTS_0 attribute");

    let mut h = complete();
    h.weights = AccessorState::Sparse;
    h.joints = AccessorState::Missing;
    assert_eq!(unsupported(check_primitive("m", 0, h, true).unwrap_err()), "sparse accessors");
}

#[test]
fn channels_group_into_one_track_per_joint() {
    let mut step_rotation = channel(Some(2), Some(ChannelProperty::Rotation));
    step_rotation.interpolation = SamplerInterpolation::Step;
    let channels = vec![
        channel(Some(2), Some(ChannelProperty::Translation)),
        channel(None, None),
        channel(Some(0), Some(ChannelProperty::Scale)),
        step_rotation,
        channel(Some(2), Some(ChannelProperty::Translation)),
    ];
    let tracks = plan_tracks(&channels).unwrap();
    assert_eq!(
        tracks,
        vec![
            TrackPlan {
                joint_index: 2,
                translation: Some(PropertySource { channel: 4, interpolation: Interpolation::Linear }),
                rotation: Some(PropertySource { channel: 3, interpolation: Interpolation::Step }),
                scale: None,
            },
            TrackPlan {
                joint_index: 0,
                translation: None,
                rotation: None,
                scale: Some(PropertySource { channel: 2, interpolation: Interpolation::Linear }),
            },
        ]
    );
}

#[test]
fn unsupported_channels_are_refused() {
    let mut cubic = channel(Some(0), Some(ChannelProperty::Translation));
    cubic.interpolation = SamplerInterpolation::CubicSpline;
    assert_eq!(unsupported(plan_tracks(&vec![cubic]).unwrap_err()), "CUBICSPLINE interpolation");

    let mut no_times = channel(Some(0), Some(ChannelProperty::Translation));
    no_times.has_times = false;
    assert_eq!(missing(plan_tracks(&vec![no_times]).unwrap_err()), "animation channel has no keyframe times");

    assert_eq!(missing(plan_tracks(&vec![channel(Some(0), None)]).unwrap_err()), "animation channel has no keyframe values");

    let morph = channel(Some(1), Some(ChannelProperty::MorphTargetWeights));
    assert_eq!(unsupported(plan_tracks(&vec![morph]).unwrap_err()), "morph targets");

    // A channel that targets no joint is skipped, even when it is unsupported.
    let mut skipped = channel(None, Some(ChannelProperty::MorphTargetWeights));
    skipped.interpolation = SamplerInterpolation::CubicSpline;
    assert_eq!(plan_tracks(&vec![skipped]).unwrap(), vec![]);
}
