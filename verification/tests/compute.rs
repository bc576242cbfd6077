use pebble::binding::{BindingEntry, BindingKind};
use pebble::compute::{build_compute_raw, validate_compute, ComputeBuilder, ComputeError, ComputeWarning};
use pebble::flags::ShaderStages;
use pebble::layout::{check_bind_group_count, GlobalLayoutPool, GroupEntry};

const MINIMAL_COMPUTE_SHADER: &str = "@compute @workgroup_size(1) fn cs_main() {}";

fn own_entry(stages: ShaderStages) -> GroupEntry<u32> {
    GroupEntry::Own(vec![BindingEntry { name: "bad", binding: 0, kind: BindingKind::storage_buffer_read_write(stages) }])
}

#[test]
fn a_fragment_visible_own_entry_panics_before_touching_the_device() {
    let desc = ComputeBuilder::new(MINIMAL_COMPUTE_SHADER).entries(vec![own_entry(ShaderStages::fragment())]).build();
    let result = validate_compute(&desc);
    assert!(result.is_err(), "expected an error for a non-COMPUTE-visible compute entry");
    assert!(matches!(result.unwrap_err(), ComputeError::NotComputeOnly { entry: "bad" }));
}

#[test]
fn a_vertex_fragment_visible_own_entry_also_panics() {
    let desc = ComputeBuilder::new(MINIMAL_COMPUTE_SHADER)
        .entries(vec![own_entry(ShaderStages::compute() | ShaderStages::fragment())])
        .build();
    let result = validate_compute(&desc);
    assert!(result.is_err(), "expected an error for a COMPUTE | FRAGMENT compute entry");
}

#[test]
fn compute_no_entries_at_all_builds_without_panicking() {
    let desc = ComputeBuilder::<u32>::new(MINIMAL_COMPUTE_SHADER).build();
    assert!(validate_compute(&desc).unwrap().is_none());
    let pool = GlobalLayoutPool::new();
    assert!(build_compute_raw(&desc, &0u32, &pool, 4).unwrap().is_empty());
}

#[test]
fn compute_a_layout_pulled_from_the_global_pool_ends_up_in_the_pipeline_layout() {
    let mut pool = GlobalLayoutPool::new();
    pool.register("camera", 7u32);
    let desc = ComputeBuilder::new(MINIMAL_COMPUTE_SHADER).entries(vec![GroupEntry::Layout(*pool.get("camera").unwrap())]).build();
    assert!(validate_compute(&desc).is_ok());
    assert_eq!(build_compute_raw(&desc, &0u32, &pool, 4).unwrap(), vec![&7u32]);
}

#[test]
fn compute_a_global_entry_resolves_from_the_pool_at_build_time() {
    let mut pool = GlobalLayoutPool::new();
    pool.register("camera", 7u32);
    let desc = ComputeBuilder::new(MINIMAL_COMPUTE_SHADER).entries(vec![GroupEntry::Global("camera")]).build();
    assert!(validate_compute(&desc).is_ok());
    assert_eq!(build_compute_raw(&desc, &0u32, &pool, 4).unwrap(), vec![&7u32]);
}

#[test]
fn compute_a_global_entry_not_yet_registered_returns_none_instead_of_panicking() {
    let pool: GlobalLayoutPool<u32> = GlobalLayoutPool::new();
    let desc = ComputeBuilder::new(MINIMAL_COMPUTE_SHADER).entries(vec![GroupEntry::Global("camera")]).build();
    assert!(build_compute_raw(&desc, &0u32, &pool, 4).is_none());
}

#[test]
fn compute_own_and_layout_groups_are_ordered_by_position() {
    let pool: GlobalLayoutPool<u32> = GlobalLayoutPool::new();
    let desc = ComputeBuilder::new(MINIMAL_COMPUTE_SHADER).entries(vec![GroupEntry::Own(vec![]), GroupEntry::Layout(3u32)]).build();
    assert!(validate_compute(&desc).unwrap().is_some());
    assert_eq!(build_compute_raw(&desc, &9u32, &pool, 4).unwrap(), vec![&9u32, &3u32]);
}

#[test]
fn compute_more_than_one_own_group_panics() {
    let desc = ComputeBuilder::<u32>::new(MINIMAL_COMPUTE_SHADER).entries(vec![GroupEntry::Own(vec![]), GroupEntry::Own(vec![])]).build();
    let result = validate_compute(&desc);
    assert!(result.is_err(), "expected an error for more than one Own group");
}

#[test]
fn compute_exceeding_max_bind_groups_panics() {
    let groups: Vec<GroupEntry<u32>> = (0..5).map(GroupEntry::Layout).collect();
    let desc = ComputeBuilder::new(MINIMAL_COMPUTE_SHADER).entries(groups).build();
    assert!(validate_compute(&desc).is_ok());
    let result = check_bind_group_count(desc.entries().len(), 4);
    assert!(result.is_err(), "expected an error for exceeding max_bind_groups");
}

#[test]
fn a_compute_only_entry_passes_and_defaults_are_documented() {
    let desc = ComputeBuilder::new(MINIMAL_COMPUTE_SHADER).label("sim").entries(vec![own_entry(ShaderStages::compute())]).build();
    let own = validate_compute(&desc).unwrap().unwrap();
    assert_eq!(own.len(), 1);
    assert_eq!(desc.entry_point(), Some("cs_main"));
    assert_eq!(desc.label(), Some("sim"));
    assert_eq!(ComputeBuilder::<u32>::new(MINIMAL_COMPUTE_SHADER).validate(), Some(ComputeWarning::NoBindGroups));
}
