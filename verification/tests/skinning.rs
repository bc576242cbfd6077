use pebble::skinned_mesh::{ClipSource, SkinnedModelBuilder};
use pebble::skinning::{
    group_skinned_entities, joint_matrix_buffer_size, BatchSlot, PrepareAction, SkinnedBatchPlanner, SkinnedBatchStorage,
    SkinnedBatchUnit, SkinnedEntity,
};

fn entity(material: u64, mesh: u64, joint_count: u32) -> SkinnedEntity {
    SkinnedEntity { material, mesh, joint_count }
}

#[test]
fn entities_sharing_a_material_and_mesh_form_one_group() {
    let entities = vec![entity(1, 10, 20), entity(2, 10, 30), entity(1, 10, 99), entity(1, 11, 5), entity(2, 10, 30)];
    let groups = group_skinned_entities(&entities);
    assert_eq!(groups.len(), 3);
    assert_eq!((groups[0].material, groups[0].mesh, groups[0].joint_count), (1, 10, 20));
    assert_eq!(groups[0].members, vec![0, 2]);
    assert_eq!((groups[1].material, groups[1].mesh), (2, 10));
    assert_eq!(groups[1].members, vec![1, 4]);
    assert_eq!(groups[2].members, vec![3]);
    let storage = SkinnedBatchStorage::from_groups(&groups);
    assert_eq!(
        storage.batches,
        vec![
            SkinnedBatchUnit { material: 1, mesh: 10, instance_count: 2 },
            SkinnedBatchUnit { material: 2, mesh: 10, instance_count: 2 },
            SkinnedBatchUnit { material: 1, mesh: 11, instance_count: 1 },
        ]
    );
}

#[test]
fn an_empty_frame_has_no_batches() {
    assert!(group_skinned_entities(&vec![]).is_empty());
    assert!(SkinnedBatchStorage::default().batches.is_empty());
}

#[test]
fn a_new_batch_starts_with_room_for_at_least_256_instances() {
    let mut planner = SkinnedBatchPlanner::new();
    assert_eq!(planner.prepare(1, 2, 40, 3), PrepareAction::Create { capacity: 256 });
    assert_eq!(planner.slot(1, 2), Some(BatchSlot { material: 1, mesh: 2, joint_count: 40, capacity: 256 }));
    assert_eq!(planner.prepare(5, 6, 8, 1000), PrepareAction::Create { capacity: 1000 });
}

#[test]
fn a_batch_grows_to_double_or_to_what_is_needed() {
    let mut planner = SkinnedBatchPlanner::new();
    planner.prepare(1, 2, 40, 10);
    assert_eq!(planner.prepare(1, 2, 99, 200), PrepareAction::Keep);
    assert_eq!(planner.prepare(1, 2, 99, 300), PrepareAction::Grow { capacity: 512 });
    assert_eq!(planner.prepare(1, 2, 99, 5000), PrepareAction::Grow { capacity: 5000 });
    // The joint count stays the one the batch was made with.
    assert_eq!(planner.slot(1, 2).unwrap().joint_count, 40);
    assert_eq!(planner.slot(3, 4), None);
}

#[test]
fn joint_matrix_buffers_hold_one_matrix_per_joint_per_instance() {
    assert_eq!(joint_matrix_buffer_size(256, 40), 256 * 40 * 64);
}

#[test]
fn extra_clips_replace_same_named_clips_and_the_last_clip_of_a_file_wins() {
    let builder = SkinnedModelBuilder::from_file("hero.glb")
        .with_animation("run".to_string(), "run.glb".to_string())
        .with_animation("idle".to_string(), "idle.glb".to_string())
        .with_animation("empty".to_string(), "none.glb".to_string());
    assert_eq!(builder.primary(), "hero.glb");
    assert_eq!(builder.extra_clips().len(), 3);
    let table = builder.clip_table(&vec!["walk".to_string(), "run".to_string(), "walk".to_string()], &vec![1, 3, 0]);
    let lookup = |name: &str| table.iter().find(|(n, _)| n == name).map(|(_, s)| *s);
    assert_eq!(table.len(), 3);
    assert_eq!(lookup("walk"), Some(ClipSource { file: 0, clip: 2 }));
    assert_eq!(lookup("run"), Some(ClipSource { file: 1, clip: 0 }));
    assert_eq!(lookup("idle"), Some(ClipSource { file: 2, clip: 2 }));
    assert_eq!(lookup("empty"), None);
}
