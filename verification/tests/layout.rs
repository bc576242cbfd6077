use pebble::binding::{BindingEntry, BindingKind};
use pebble::flags::ShaderStages;
use pebble::layout::{assemble_group_layouts, check_bind_group_count, check_own_groups, find_own_entries, GlobalLayoutPool, GroupEntry, PipelineKind};

#[test]
fn global_layout_pool_get_round_trips_through_register() {
    let mut pool: GlobalLayoutPool<u32> = GlobalLayoutPool::new();
    pool.register("camera", 7);
    assert!(pool.get("camera").is_some());
    assert!(pool.get("missing").is_none());
    assert_eq!(pool.get("camera"), Some(&7));
}

#[test]
fn a_registered_name_is_reported_as_taken() {
    let mut pool: GlobalLayoutPool<u32> = GlobalLayoutPool::new();
    pool.register("camera", 1);
    assert!(pool.is_registered("camera"), "a name already in the pool must be reported as registered");
    assert!(!pool.is_registered("lights"));
}

#[test]
fn find_own_entries_returns_empty_slice_when_there_is_no_own_group() {
    let groups: Vec<GroupEntry<u32>> = vec![];
    assert!(check_own_groups(&groups).is_ok());
    let entries = find_own_entries(&groups);
    assert!(entries.is_none());
}

#[test]
fn find_own_entries_panics_on_more_than_one_own_group() {
    let groups: Vec<GroupEntry<u32>> = vec![GroupEntry::Own(vec![]), GroupEntry::Layout(1), GroupEntry::Own(vec![])];
    let result = check_own_groups(&groups);
    assert!(result.is_err(), "expected an error for more than one GroupEntry::Own");
    let e = result.unwrap_err();
    assert_eq!((e.first, e.second), (0, 2));
}

#[test]
fn assemble_group_layouts_orders_slots_by_position() {
    let own = 100u32;
    let groups = vec![GroupEntry::Layout(1u32), GroupEntry::Own(vec![]), GroupEntry::Layout(2u32)];
    let pool: GlobalLayoutPool<u32> = GlobalLayoutPool::new();
    let assembled = assemble_group_layouts(&groups, &own, &pool, 4).unwrap();
    assert_eq!(assembled.len(), 3);
    assert_eq!(*assembled[0], 1);
    assert_eq!(*assembled[1], 100);
    assert_eq!(*assembled[2], 2);
}

#[test]
fn assemble_group_layouts_resolves_global_entries_from_the_pool() {
    let own = 100u32;
    let mut pool: GlobalLayoutPool<u32> = GlobalLayoutPool::new();
    pool.register("camera", 5);
    let groups = vec![GroupEntry::Own(vec![]), GroupEntry::Global("camera")];
    let assembled = assemble_group_layouts(&groups, &own, &pool, 4).unwrap();
    assert_eq!(assembled.len(), 2);
    assert!(std::ptr::eq(assembled[1], pool.get("camera").unwrap()));
}

#[test]
fn assemble_group_layouts_returns_none_for_an_unregistered_global() {
    let own = 100u32;
    let pool: GlobalLayoutPool<u32> = GlobalLayoutPool::new();
    let groups = vec![GroupEntry::Global("camera")];
    let assembled = assemble_group_layouts(&groups, &own, &pool, 4);
    assert!(assembled.is_none(), "expected None (not ready), not an error, for an unresolved global");
}

#[test]
fn layout_exceeding_max_bind_groups_panics() {
    let groups = vec![GroupEntry::Layout(1u32), GroupEntry::Layout(2u32)];
    let result = check_bind_group_count(groups.len(), 1);
    assert!(result.is_err(), "expected an error for exceeding max_bind_groups");
    let e = result.unwrap_err();
    assert_eq!((e.needed, e.max_bind_groups), (2, 1));
}

#[test]
fn find_own_entries_hands_back_the_single_own_group() {
    let entry = BindingEntry { name: "albedo", binding: 0, kind: BindingKind::texture_2d(ShaderStages::fragment()) };
    let groups = vec![GroupEntry::Layout(3u32), GroupEntry::Own(vec![entry])];
    let own = find_own_entries(&groups).unwrap();
    assert_eq!(own.len(), 1);
    assert_eq!(own[0].name, "albedo");
}

#[test]
fn pipeline_kinds_name_themselves() {
    assert_eq!(PipelineKind::Material.noun(), "material");
    assert_eq!(PipelineKind::Compute.noun(), "compute pass");
}
