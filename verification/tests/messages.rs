//! The mutation vocabulary: payload updates, diagnostics, reclamation and
//! the renderer's collection pass.

use three::color::{BLACK, RED, WHITE};
use three::diag::{Diagnostic, Severity};
use three::fixed::UNIT;
use three::group::Group;
use three::hub::{Hub, Message, Operation};
use three::material::{Basic, Material, Pbr, Sprite as SpriteMaterial};
use three::mesh::{Mesh, Skeleton, MAX_TARGETS};
use three::node::{
    AudioData, AudioOperation, LightData, PlayState, ShadowMap, SubLight, SubNode, VisualData,
};
use three::object::Object;
use three::scene::Scene;
use three::sprite::Sprite;
use three::texture::{Texel2, Texture};
use three::transform::{Quaternion, Vector3};

fn basic_visual() -> VisualData {
    VisualData { material: Material::Basic(Basic { color: WHITE, map: None }), skeleton: None }
}

#[test]
fn set_material_replaces_only_the_material() {
    let mut hub = Hub::new();
    let mut mesh = Mesh::new(hub.spawn_visual(basic_visual()));
    mesh.set_material(Material::Basic(Basic { color: RED, map: None }));
    hub.process_messages();
    match hub.payload(mesh.upcast().node_pointer()).unwrap() {
        SubNode::Visual(v) => {
            assert_eq!(v.material, Material::Basic(Basic { color: RED, map: None }));
            assert!(v.skeleton.is_none());
        }
        other => panic!("unexpected payload {:?}", other),
    }
}

#[test]
fn set_material_on_wrong_payload_is_fatal_diagnostic() {
    let mut hub = Hub::new();
    let empty = hub.spawn_empty();
    hub.apply_message(Message {
        target: empty.node_pointer(),
        operation: Operation::SetMaterial(Material::Basic(Basic { color: RED, map: None })),
    });
    let expected = Diagnostic::PayloadMismatch { target: empty.node_pointer() };
    assert!(hub.diagnostics().contains(&expected));
    assert_eq!(expected.severity(), Severity::Fatal);
    // The node itself is untouched.
    assert_eq!(hub.payload(empty.node_pointer()).unwrap(), &SubNode::Empty);
}

#[test]
fn set_skeleton_binds_a_skeleton_node() {
    let mut hub = Hub::new();
    let mut mesh = Mesh::new(hub.spawn_visual(basic_visual()));
    let bones = hub.spawn_skeleton(three::node::SkeletonData { bones: Vec::new() });
    let skeleton = Skeleton::new(bones.clone());
    mesh.set_skeleton(&skeleton);
    hub.process_messages();
    match hub.payload(mesh.upcast().node_pointer()).unwrap() {
        SubNode::Visual(v) => assert_eq!(v.skeleton, Some(bones.node_pointer())),
        other => panic!("unexpected payload {:?}", other),
    }
}

#[test]
fn shadow_map_binds_to_a_light() {
    let mut hub = Hub::new();
    let light = hub.spawn_light(LightData {
        color: WHITE,
        intensity: UNIT,
        sub_light: SubLight::Directional,
        shadow: None,
    });
    hub.apply_message(Message {
        target: light.node_pointer(),
        operation: Operation::SetShadow(ShadowMap { resource: 7 }),
    });
    match hub.payload(light.node_pointer()).unwrap() {
        SubNode::Light(l) => assert_eq!(l.shadow, Some(ShadowMap { resource: 7 })),
        other => panic!("unexpected payload {:?}", other),
    }
}

#[test]
fn sprite_texel_range_updates_the_texture_rectangle() {
    let mut hub = Hub::new();
    let sprite = Sprite::new(hub.spawn_visual(VisualData {
        material: Material::Sprite(SpriteMaterial { map: Texture::new(1, 128, 128) }),
        skeleton: None,
    }));
    sprite.set_texel_range(10, 20, 30, 40);
    hub.process_messages();
    match hub.payload(sprite.upcast().node_pointer()).unwrap() {
        SubNode::Visual(v) => match &v.material {
            Material::Sprite(sp) => {
                assert_eq!(sp.map.tex0, Texel2 { x: 10, y: 128 - 20 - 40 });
                assert_eq!(sp.map.tex1, Texel2 { x: 40, y: 128 - 20 });
            }
            other => panic!("unexpected material {:?}", other),
        },
        other => panic!("unexpected payload {:?}", other),
    }
}

#[test]
fn audio_requests_drive_the_playback_state() {
    let mut hub = Hub::new();
    let source = hub.spawn_audio_source(AudioData {
        state: PlayState::Stopped,
        volume: UNIT,
        clips: Vec::new(),
    });
    let target = source.node_pointer();
    let send = |hub: &mut Hub, op: AudioOperation| {
        hub.apply_message(Message { target, operation: Operation::SetAudio(op) });
    };
    send(&mut hub, AudioOperation::Append(42));
    send(&mut hub, AudioOperation::Append(43));
    send(&mut hub, AudioOperation::SetVolume(UNIT / 2));
    match hub.payload(target).unwrap() {
        SubNode::Audio(a) => {
            assert_eq!(a.state, PlayState::Playing);
            assert_eq!(a.clips, vec![42, 43]);
            assert_eq!(a.volume, UNIT / 2);
        }
        other => panic!("unexpected payload {:?}", other),
    }
    send(&mut hub, AudioOperation::Pause);
    match hub.payload(target).unwrap() {
        SubNode::Audio(a) => assert_eq!(a.state, PlayState::Paused),
        _ => unreachable!(),
    }
    send(&mut hub, AudioOperation::Stop);
    match hub.payload(target).unwrap() {
        SubNode::Audio(a) => {
            assert_eq!(a.state, PlayState::Stopped);
            assert!(a.clips.is_empty());
        }
        _ => unreachable!(),
    }
}

#[test]
fn weights_are_reported_unsupported() {
    let mut hub = Hub::new();
    let mesh = Mesh::new(hub.spawn_visual(basic_visual()));
    mesh.upcast().set_weights([0; MAX_TARGETS]);
    hub.process_messages();
    let expected = Diagnostic::Unsupported { target: mesh.upcast().node_pointer() };
    assert!(hub.diagnostics().contains(&expected));
}

#[test]
fn adding_a_dead_child_is_reported() {
    let mut hub = Hub::new();
    let group = Group::new(&mut hub);
    let child = hub.spawn_empty();
    hub.destroy(child.node_pointer());
    group.add(&child);
    hub.process_messages();
    let expected = Diagnostic::StaleChild { child: child.node_pointer() };
    assert!(hub.diagnostics().contains(&expected));
}

#[test]
fn reparenting_without_removal_warns_and_proceeds() {
    let mut hub = Hub::new();
    let first_home = Group::new(&mut hub);
    let second_home = Group::new(&mut hub);
    let nomad = hub.spawn_empty();
    let anchor = hub.spawn_empty();
    first_home.add(&anchor);
    first_home.add(&nomad);
    hub.process_messages();
    // `nomad` still links to `anchor` as its next sibling.
    second_home.add(&nomad);
    hub.process_messages();
    let expected = Diagnostic::DanglingSibling { child: nomad.node_pointer() };
    assert!(hub.diagnostics().contains(&expected));
    assert_eq!(expected.severity(), Severity::Warning);
    // The nomad now sits under its second home.
    let mut walker = hub.walk(second_home.upcast().node_pointer());
    let mut seen = Vec::new();
    while let Some(v) = walker.next() {
        seen.push(v.node);
    }
    assert!(seen.contains(&nomad.node_pointer()));
}

#[test]
fn destroyed_link_cuts_the_chain_with_a_warning() {
    let mut hub = Hub::new();
    let mut scene = Scene::new();
    let group = Group::new(&mut hub);
    let child = hub.spawn_empty();
    group.add(&child);
    scene.add(&mut hub, &group);
    hub.process_messages();
    hub.destroy(child.node_pointer());
    hub.update_graph(&scene);
    let expected = Diagnostic::StaleLink { link: child.node_pointer() };
    assert!(hub.diagnostics().contains(&expected));
}

#[test]
fn slots_are_reused_but_pointers_stay_distinct() {
    let mut hub = Hub::new();
    let first = hub.spawn_empty();
    let first_ptr = first.node_pointer();
    hub.destroy(first_ptr);
    hub.process_messages();
    let second = hub.spawn_empty();
    assert_ne!(first_ptr, second.node_pointer());
    assert!(hub.node_info(first_ptr).is_none());
    assert!(hub.node_info(second.node_pointer()).is_some());
}

#[test]
fn scene_remove_splices_head_and_middle() {
    let mut hub = Hub::new();
    let mut scene = Scene::new();
    let a = hub.spawn_empty();
    let b = hub.spawn_empty();
    let c = hub.spawn_empty();
    scene.add(&mut hub, &a);
    scene.add(&mut hub, &b);
    scene.add(&mut hub, &c);
    // Chain is now c, b, a. Removing the head moves the scene's first
    // child on; removing from the middle splices the predecessor.
    assert_eq!(scene.first_child_value(), Some(c.node_pointer()));
    scene.remove(&mut hub, &c);
    assert_eq!(scene.first_child_value(), Some(b.node_pointer()));
    scene.remove(&mut hub, &a);
    assert_eq!(scene.first_child_value(), Some(b.node_pointer()));
    scene.remove(&mut hub, &b);
    assert_eq!(scene.first_child_value(), None);
    assert!(hub.diagnostics().is_empty());
}

#[test]
fn scene_remove_of_absent_child_is_reported() {
    let mut hub = Hub::new();
    let mut scene = Scene::new();
    let resident = hub.spawn_empty();
    let stranger = hub.spawn_empty();
    scene.add(&mut hub, &resident);
    scene.remove(&mut hub, &stranger);
    let expected = Diagnostic::ChildNotFound { parent: None, child: stranger.node_pointer() };
    assert!(hub.diagnostics().contains(&expected));
    assert_eq!(scene.first_child_value(), Some(resident.node_pointer()));
}

#[test]
fn prepare_graph_collects_visible_visuals_and_lights() {
    let mut hub = Hub::new();
    let mut scene = Scene::new();
    let shown = Mesh::new(hub.spawn_visual(basic_visual()));
    let hidden = Mesh::new(hub.spawn_visual(basic_visual()));
    let lamp = hub.spawn_light(LightData {
        color: WHITE,
        intensity: UNIT,
        sub_light: SubLight::Point,
        shadow: None,
    });
    hidden.set_visible(false);
    scene.add(&mut hub, &shown);
    scene.add(&mut hub, &hidden);
    scene.add(&mut hub, &lamp);
    hub.process_messages();
    let mut visuals = Vec::new();
    let mut lights = Vec::new();
    hub.prepare_graph(&scene, &mut visuals, &mut lights);
    assert_eq!(visuals, vec![shown.upcast().node_pointer()]);
    assert_eq!(lights, vec![lamp.node_pointer()]);
}

#[test]
fn sync_guard_resolves_fresh_world_state() {
    let mut hub = Hub::new();
    let mut scene = Scene::new();
    let mesh = Mesh::new(hub.spawn_visual(basic_visual()));
    mesh.set_position(three::transform::Vector3::new(9 * UNIT, 0, 0));
    scene.add(&mut hub, &mesh);
    hub.process_messages();
    let mut guard = scene.sync_guard(&mut hub);
    let node = guard.resolve(&hub, &mesh).expect("mesh is alive");
    assert_eq!(node.world_transform.position.x, 9 * UNIT);
    assert!(node.world_visible);
    let gone = hub.spawn_empty();
    hub.destroy(gone.node_pointer());
    assert!(guard.resolve(&hub, &gone).is_none());
}

#[test]
fn material_defaults_match_their_documentation() {
    let basic = Basic::default();
    assert_eq!(basic.color, WHITE);
    assert!(basic.map.is_none());
    let pbr = Pbr::default();
    assert_eq!(pbr.base_color_factor, WHITE);
    assert_eq!(pbr.emissive_factor, BLACK);
    assert_eq!(pbr.metallic_factor, UNIT);
    assert_eq!(pbr.roughness_factor, UNIT);
    assert_eq!(pbr.base_color_alpha, UNIT);
    assert_eq!(pbr.normal_scale, UNIT);
}

#[test]
fn dynamic_mesh_reports_its_vertex_count() {
    let mut hub = Hub::new();
    let mut dynamic = three::mesh::Dynamic::new(hub.spawn_visual(basic_visual()), 12);
    assert_eq!(dynamic.vertex_count(), 12);
    dynamic.set_material(Material::Basic(Basic { color: RED, map: None }));
    hub.process_messages();
    match hub.payload(dynamic.upcast().node_pointer()).unwrap() {
        SubNode::Visual(v) => {
            assert_eq!(v.material, Material::Basic(Basic { color: RED, map: None }))
        }
        other => panic!("unexpected payload {:?}", other),
    }
}

#[test]
fn uv_range_normalizes_the_texel_rectangle() {
    let mut texture = Texture::new(1, 128, 64);
    texture.set_texel_range(32, 0, 64, 64);
    let uv = texture.uv_range();
    // x spans a quarter to three quarters of the width; y the full height.
    assert_eq!(uv[0], UNIT / 4);
    assert_eq!(uv[1], 0);
    assert_eq!(uv[2], 3 * UNIT / 4);
    assert_eq!(uv[3], UNIT);
}

#[test]
fn set_pose_leaves_the_scale_untouched() {
    let mut hub = Hub::new();
    let handle = hub.spawn_empty();
    handle.set_scale(3 * UNIT);
    hub.process_messages();
    handle.set_pose(Vector3::new(UNIT, 0, 0), Quaternion::new(0, 0, UNIT, 0));
    hub.process_messages();
    let node = hub.node_info(handle.node_pointer()).unwrap();
    assert_eq!(node.transform.position, Vector3::new(UNIT, 0, 0));
    assert_eq!(node.transform.orientation, Quaternion::new(0, 0, UNIT, 0));
    assert_eq!(node.transform.scale, 3 * UNIT);
}
