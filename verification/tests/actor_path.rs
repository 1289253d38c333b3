use actum::actor_path::ActorPath;
use std::collections::HashSet;

#[test]
fn root_path_has_its_name_as_full_name() {
    let root = ActorPath::new("guardian");
    assert_eq!(root.full_name, "guardian");
    assert_eq!(root.name, "guardian");
    assert!(root.parent.is_none());
}

#[test]
fn child_path_full_name_joins_with_slash() {
    let root = ActorPath::new("guardian");
    let child = root.make_child_path("worker");
    let grandchild = child.make_child_path("helper");
    assert_eq!(child.full_name, "guardian/worker");
    assert_eq!(grandchild.full_name, "guardian/worker/helper");
    assert_eq!(grandchild.name, "helper");
}

#[test]
fn parent_and_child_relations() {
    let root = ActorPath::new("guardian");
    let child = root.make_child_path("worker");
    assert!(root.is_parent_of(&child));
    assert!(child.is_child_of(&root));
    assert!(!child.is_parent_of(&root));
    assert!(!root.is_child_of(&child));
    assert!(!root.is_parent_of(&root));
}

#[test]
fn ancestor_relations_are_transitive_and_strict() {
    let root = ActorPath::new("guardian");
    let child = root.make_child_path("worker");
    let grandchild = child.make_child_path("helper");
    assert!(root.is_ancestor_of(&child));
    assert!(child.is_ancestor_of(&grandchild));
    assert!(root.is_ancestor_of(&grandchild));
    assert!(!root.is_parent_of(&grandchild));
    assert!(!root.is_ancestor_of(&root));
    assert!(!grandchild.is_ancestor_of(&root));
    assert!(grandchild.is_descendant_of(&root));
    assert!(!root.is_descendant_of(&grandchild));
}

#[test]
fn same_path_means_same_node() {
    let root = ActorPath::new("guardian");
    let a = root.make_child_path("worker");
    let b = root.make_child_path("worker");
    let c = root.make_child_path("other");
    let clone = a.clone();
    assert!(a.is_same_as(&a));
    assert!(a.is_same_as(&clone));
    assert!(clone.is_same_as(&a));
    assert!(a == clone);
    assert_eq!(a.full_name, b.full_name);
    assert!(!a.is_same_as(&b));
    assert!(!b.is_same_as(&a));
    assert!(a != b);
    assert!(!a.is_same_as(&c));
    assert!(!a.is_same_as(&root));
    assert!(a != c);
}

#[test]
fn relations_follow_nodes_not_names() {
    let r1 = ActorPath::new("guardian");
    let r2 = ActorPath::new("guardian");
    let child = r1.make_child_path("worker");
    assert!(r1.is_parent_of(&child));
    assert!(!r2.is_parent_of(&child));
    assert!(!r2.is_ancestor_of(&child));
    assert!(!child.is_child_of(&r2));
    assert!(child.parent.as_ref().unwrap().is_same_as(&r1));
}

#[test]
fn paths_under_different_roots_are_unrelated() {
    let r1 = ActorPath::new("one");
    let r2 = ActorPath::new("two");
    let c1 = r1.make_child_path("x");
    assert!(!r2.is_ancestor_of(&c1));
    assert!(!r2.is_parent_of(&c1));
    assert!(!c1.is_child_of(&r2));
    assert!(!r1.is_same_as(&r2));
}

#[test]
fn paths_hash_by_full_name() {
    let root = ActorPath::new("guardian");
    let mut set = HashSet::new();
    let a = root.make_child_path("a");
    set.insert(a.clone());
    set.insert(root.make_child_path("b"));
    set.insert(root.make_child_path("a"));
    set.insert(a.clone());
    assert_eq!(set.len(), 3);
    assert!(set.contains(&a));
    assert!(!set.contains(&root.make_child_path("b")));
}
