//! End-to-end behavior of the scene graph: message application, world
//! state propagation, and the pruning walker.

use three::color::WHITE;
use three::diag::Diagnostic;
use three::fixed::UNIT;
use three::group::Group;
use three::hub::{Hub, Message, Operation};
use three::material::{Basic, Material};
use three::mesh::Mesh;
use three::node::{NodePointer, VisualData};
use three::object::Object;
use three::scene::Scene;
use three::transform::{Quaternion, Vector3};

fn collect_walk(hub: &mut Hub, base: NodePointer) -> Vec<NodePointer> {
    let mut walker = hub.walk(base);
    let mut out = Vec::new();
    while let Some(visit) = walker.next() {
        out.push(visit.node);
    }
    out
}

#[test]
fn parent_scale_applies_to_child_position() {
    // A parent at the origin with scale 2 and a child at local (1, 0, 0):
    // after the update the child sits at world (2, 0, 0).
    let mut hub = Hub::new();
    let mut scene = Scene::new();
    let parent = Group::new(&mut hub);
    let child = hub.spawn_empty();
    parent.add(&child);
    parent.set_scale(2 * UNIT);
    child.set_position(Vector3::new(UNIT, 0, 0));
    scene.add(&mut hub, &parent);
    hub.process_messages();
    hub.update_graph(&scene);
    let node = hub.node_info(child.node_pointer()).expect("child is alive");
    assert_eq!(node.world_transform.position, Vector3::new(2 * UNIT, 0, 0));
    assert_eq!(node.world_transform.scale, 2 * UNIT);
}

#[test]
fn invisibility_propagates_to_descendants() {
    let mut hub = Hub::new();
    let mut scene = Scene::new();
    let top = Group::new(&mut hub);
    let middle = Group::new(&mut hub);
    let leaf = hub.spawn_empty();
    top.add(&middle);
    middle.add(&leaf);
    middle.set_visible(false);
    scene.add(&mut hub, &top);
    hub.process_messages();
    hub.update_graph(&scene);
    assert!(hub.node_info(top.upcast().node_pointer()).unwrap().world_visible);
    let mid = hub.node_info(middle.upcast().node_pointer()).unwrap();
    assert!(mid.visible == false && mid.world_visible == false);
    let leaf_node = hub.node_info(leaf.node_pointer()).unwrap();
    assert!(leaf_node.visible);
    assert!(!leaf_node.world_visible);
}

#[test]
fn walker_yields_invisible_node_once_but_not_its_children() {
    let mut hub = Hub::new();
    let root = Group::new(&mut hub);
    let hidden = Group::new(&mut hub);
    let first = hub.spawn_empty();
    let second = hub.spawn_empty();
    hidden.add(&first);
    hidden.add(&second);
    hidden.set_visible(false);
    root.add(&hidden);
    hub.process_messages();
    let order = collect_walk(&mut hub, root.upcast().node_pointer());
    let hidden_ptr = hidden.upcast().node_pointer();
    assert_eq!(order.iter().filter(|p| **p == hidden_ptr).count(), 1);
    assert!(!order.contains(&first.node_pointer()));
    assert!(!order.contains(&second.node_pointer()));
    assert!(order.contains(&root.upcast().node_pointer()));
}

#[test]
fn later_added_sibling_is_walked_first() {
    let mut hub = Hub::new();
    let group = Group::new(&mut hub);
    let first_added = hub.spawn_empty();
    let second_added = hub.spawn_empty();
    group.add(&first_added);
    group.add(&second_added);
    hub.process_messages();
    let order = collect_walk(&mut hub, group.upcast().node_pointer());
    let i1 = order.iter().position(|p| *p == first_added.node_pointer()).unwrap();
    let i2 = order.iter().position(|p| *p == second_added.node_pointer()).unwrap();
    assert!(i2 < i1, "the child added last must be visited first");
}

#[test]
fn message_for_destroyed_node_is_dropped_silently() {
    let mut hub = Hub::new();
    let bystander = hub.spawn_empty();
    let victim = hub.spawn_empty();
    victim.set_visible(false);
    hub.destroy(victim.node_pointer());
    hub.process_messages();
    assert!(hub.node_info(victim.node_pointer()).is_none());
    assert!(hub.node_info(bystander.node_pointer()).unwrap().visible);
    assert!(hub.diagnostics().is_empty());
}

#[test]
fn removing_an_unrelated_child_is_reported() {
    let mut hub = Hub::new();
    let group = Group::new(&mut hub);
    let stranger = hub.spawn_empty();
    group.remove(&stranger);
    hub.process_messages();
    let expected = Diagnostic::ChildNotFound {
        parent: Some(group.upcast().node_pointer()),
        child: stranger.node_pointer(),
    };
    assert!(hub.diagnostics().contains(&expected));
    // The graph itself is untouched: the group still has no children.
    let order = collect_walk(&mut hub, group.upcast().node_pointer());
    assert_eq!(order, vec![group.upcast().node_pointer()]);
}

#[test]
fn empty_transform_message_is_a_noop() {
    let mut hub = Hub::new();
    let handle = hub.spawn_empty();
    handle.set_transform(
        Vector3::new(3 * UNIT, 4, 5),
        Quaternion::new(0, 0, UNIT, 0),
        UNIT / 2,
    );
    hub.process_messages();
    let before = hub.node_info(handle.node_pointer()).unwrap();
    hub.apply_message(Message {
        target: handle.node_pointer(),
        operation: Operation::SetTransform(None, None, None),
    });
    let after = hub.node_info(handle.node_pointer()).unwrap();
    assert_eq!(before, after);
}

#[test]
fn partial_transform_update_does_not_clobber() {
    let mut hub = Hub::new();
    let handle = hub.spawn_empty();
    handle.set_transform(
        Vector3::new(UNIT, 2 * UNIT, 3 * UNIT),
        Quaternion::new(0, UNIT, 0, 0),
        5 * UNIT,
    );
    hub.process_messages();
    hub.apply_message(Message {
        target: handle.node_pointer(),
        operation: Operation::SetTransform(Some(Vector3::new(7, 8, 9)), None, None),
    });
    let node = hub.node_info(handle.node_pointer()).unwrap();
    assert_eq!(node.transform.position, Vector3::new(7, 8, 9));
    assert_eq!(node.transform.orientation, Quaternion::new(0, UNIT, 0, 0));
    assert_eq!(node.transform.scale, 5 * UNIT);
}

#[test]
fn scene_with_group_and_mesh_end_to_end() {
    let mut hub = Hub::new();
    let mut scene = Scene::new();
    let group = Group::new(&mut hub);
    let mesh = Mesh::new(hub.spawn_visual(VisualData {
        material: Material::Basic(Basic { color: WHITE, map: None }),
        skeleton: None,
    }));
    group.add(&mesh);
    mesh.set_position(Vector3::new(UNIT, 0, 0));
    group.set_position(Vector3::new(5 * UNIT, 0, 0));
    group.set_scale(2 * UNIT);
    scene.add(&mut hub, &group);
    hub.process_messages();
    hub.update_graph(&scene);
    let node = hub.node_info(mesh.upcast().node_pointer()).unwrap();
    assert_eq!(node.world_transform.position, Vector3::new(7 * UNIT, 0, 0));
    assert!(node.world_visible);
}

#[test]
fn walker_is_exhausted_after_one_pass() {
    let mut hub = Hub::new();
    let group = Group::new(&mut hub);
    let child = hub.spawn_empty();
    group.add(&child);
    hub.process_messages();
    let mut walker = hub.walk(group.upcast().node_pointer());
    let mut yielded: usize = 0;
    while walker.next().is_some() {
        yielded += 1;
    }
    assert_eq!(yielded, 2);
    assert!(walker.next().is_none());
    assert!(walker.next().is_none());
}

#[test]
fn walker_reports_world_state_as_it_descends() {
    let mut hub = Hub::new();
    let group = Group::new(&mut hub);
    let child = hub.spawn_empty();
    group.add(&child);
    group.set_position(Vector3::new(4 * UNIT, 0, 0));
    child.set_position(Vector3::new(0, 3 * UNIT, 0));
    hub.process_messages();
    let mut walker = hub.walk(group.upcast().node_pointer());
    let top = walker.next().unwrap();
    assert_eq!(top.node, group.upcast().node_pointer());
    assert_eq!(top.world_transform.disp, Vector3::new(4 * UNIT, 0, 0));
    let below = walker.next().unwrap();
    assert_eq!(below.node, child.node_pointer());
    assert_eq!(below.world_transform.disp, Vector3::new(4 * UNIT, 3 * UNIT, 0));
    assert!(below.world_visible);
}

#[test]
fn handles_compare_by_node_identity() {
    let mut hub = Hub::new();
    let one = hub.spawn_empty();
    let two = hub.spawn_empty();
    assert!(one.clone() == one);
    assert!(one != two);
    let group = Group::new(&mut hub);
    let other_group = Group::new(&mut hub);
    assert!(group != other_group);
}

#[test]
fn updating_an_empty_scene_changes_nothing() {
    let mut hub = Hub::new();
    let mut scene = Scene::new();
    let floating = hub.spawn_empty();
    hub.update_graph(&scene);
    assert_eq!(scene.first_child_value(), None);
    // A node never added to the scene keeps its spawn-time world state.
    let node = hub.node_info(floating.node_pointer()).unwrap();
    assert!(!node.world_visible);
    assert!(hub.diagnostics().is_empty());
}

#[test]
fn walking_a_single_node_yields_it_as_a_root() {
    let mut hub = Hub::new();
    let lone = hub.spawn_empty();
    let mut walker = hub.walk(lone.node_pointer());
    let visit = walker.next().unwrap();
    assert_eq!(visit.node, lone.node_pointer());
    assert!(visit.world_visible);
    assert!(walker.next().is_none());
}
