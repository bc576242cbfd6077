use pebble::skeleton::{parent_first_order, HierarchyError, JointHierarchy};

fn names(list: &[&str]) -> Vec<String> {
    list.iter().map(|s| s.to_string()).collect()
}

#[test]
fn out_of_range_parent_panics() {
    let result = parent_first_order(&vec![Some(1)]);
    assert!(result.is_err(), "expected an error for an out-of-range parent index");
    assert_eq!(result.err(), Some(HierarchyError::ParentOutOfRange { joint: 0, parent: 1 }));
}

#[test]
fn a_two_joint_cycle_panics() {
    let result = parent_first_order(&vec![Some(1), Some(0)]);
    assert!(result.is_err(), "expected an error for a joint cycle");
    assert_eq!(result.err(), Some(HierarchyError::Cycle));
}

#[test]
fn joint_index_by_name_finds_and_misses_correctly() {
    let skeleton = JointHierarchy::new(vec![None, Some(0)], names(&["root", "child"]));
    assert_eq!(skeleton.joint_index_by_name("child"), Some(1));
    assert_eq!(skeleton.joint_index_by_name("missing"), None);
}

#[test]
fn a_non_topological_input_order_is_visited_parent_first() {
    // The child is listed before its parent, which is listed before the root.
    let skeleton = JointHierarchy::new(vec![Some(1), Some(2), None], names(&["child", "mid", "root"]));
    assert_eq!(skeleton.order(), &vec![2, 1, 0]);
    assert_eq!(skeleton.joint_count(), 3);
    assert_eq!(skeleton.parent(0), Some(1));
    assert_eq!(skeleton.parent(2), None);
}

#[test]
fn every_joint_comes_after_its_parent() {
    let parents = vec![Some(3), None, Some(1), Some(1), Some(0), None];
    let order = parent_first_order(&parents).unwrap();
    assert_eq!(order.len(), parents.len());
    for (pos, &joint) in order.iter().enumerate() {
        if let Some(p) = parents[joint] {
            let parent_pos = order.iter().position(|&j| j == p).unwrap();
            assert!(parent_pos < pos, "joint {joint} came before its parent {p}");
        }
    }
}

#[test]
fn the_first_out_of_range_parent_is_reported() {
    let e = parent_first_order(&vec![None, Some(9), Some(7)]).unwrap_err();
    assert_eq!(e, HierarchyError::ParentOutOfRange { joint: 1, parent: 9 });
}

#[test]
fn a_self_parented_joint_is_a_cycle() {
    assert_eq!(parent_first_order(&vec![None, Some(1)]).unwrap_err(), HierarchyError::Cycle);
}

#[test]
fn the_first_of_two_equal_names_is_found() {
    let skeleton = JointHierarchy::new(vec![None, Some(0), Some(0)], names(&["root", "arm", "arm"]));
    assert_eq!(skeleton.joint_index_by_name("arm"), Some(1));
}
