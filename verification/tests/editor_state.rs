use flutter_wgpu_texture::geometry::cube_indices;
use flutter_wgpu_texture::gizmo::{
        gizmo_axes, handles_active, highlighted_axis, hover_after_move, DragState, GizmoAxis,
    };
use flutter_wgpu_texture::id_map::{light_kind, seen_ids, EditorIdMap, SceneEntry, SyncStep};
use flutter_wgpu_texture::kinds::{
    entity_kind, light_shadows, light_type, primitive_for, primitive_name, EntityKind, LightKind,
    Primitive,
};
use flutter_wgpu_texture::modes::{
    play_request, view_settings_for, GizmoMode, PlayMode, PlayRequest, PlayState, ViewMode,
    ViewSettings,
};
use flutter_wgpu_texture::reflect_info::{
    field_type_description, kind_str, listed_component_types, opaque_kind, short_name,
    variant_known, OpaqueKind, RegisteredType, TypeKind,
};
use flutter_wgpu_texture::scene_registry::{
    builtin_scene, scene_name_for_code, BuiltinScene, SceneRegistry, SceneSource,
};
use flutter_wgpu_texture::text::{contains_text, last_path_segment, text_eq};
use flutter_wgpu_texture::viewports::{Viewport, ViewportTable};
use std::collections::HashMap;

fn entry(id: &str, kind: &str, parent: Option<&str>) -> SceneEntry {
    SceneEntry { id: id.to_string(), kind: kind.to_string(), parent_id: parent.map(|p| p.to_string()) }
}

#[test]
fn gizmo_and_view_modes() {
    assert_eq!(GizmoMode::from_str("translate"), GizmoMode::Translate);
    assert_eq!(GizmoMode::from_str("rotate"), GizmoMode::Rotate);
    assert_eq!(GizmoMode::from_str("scale"), GizmoMode::Scale);
    assert_eq!(GizmoMode::from_str("none"), GizmoMode::Off);
    assert_eq!(GizmoMode::from_str("Translate"), GizmoMode::Off);
    assert_eq!(ViewMode::from_str("Lit"), Some(ViewMode::Lit));
    assert_eq!(ViewMode::from_str("lit"), None);
    assert_eq!(view_settings_for("Wireframe"), Some(ViewSettings { wireframe: true, unlit: false }));
    assert_eq!(view_settings_for("Unlit"), Some(ViewSettings { wireframe: false, unlit: true }));
    assert_eq!(view_settings_for("Lit"), Some(ViewSettings { wireframe: false, unlit: false }));
    assert_eq!(view_settings_for("Toon"), None);
}

#[test]
fn play_state_machine() {
    assert_eq!(play_request("play"), PlayRequest::Enter);
    assert_eq!(play_request("edit"), PlayRequest::Exit);
    assert_eq!(play_request("pause"), PlayRequest::Unknown);
    let mut s = PlayState::new();
    assert!(!s.is_playing());
    assert_eq!(s.exit_play(), None);
    assert!(!s.enter_play(Err("no registry".to_string())));
    assert!(!s.is_playing());
    assert!(s.enter_play(Ok("snapshot-1".to_string())));
    assert!(s.is_playing());
    assert!(!s.enter_play(Ok("snapshot-2".to_string())));
    assert_eq!(s.exit_play(), Some(Some("snapshot-1".to_string())));
    assert_eq!(s.mode, PlayMode::Editing);
    assert!(s.snapshot.is_none());
}

#[test]
fn text_helpers() {
    assert!(text_eq("abc", "abc"));
    assert!(!text_eq("abc", "abd"));
    assert!(!text_eq("abc", "ab"));
    assert!(contains_text(&vec!["a".to_string(), "b".to_string()], "b"));
    assert!(!contains_text(&vec![], "b"));
    assert_eq!(last_path_segment("bevy_transform::components::Transform"), "Transform");
    assert_eq!(last_path_segment("Plain"), "Plain");
    assert_eq!(last_path_segment("a:::b"), "b");
    assert_eq!(last_path_segment("trailing::"), "");
    assert_eq!(short_name("crate::Foo"), "Foo");
}

#[test]
fn kinds_classify() {
    assert_eq!(entity_kind("mesh:cube"), EntityKind::Mesh(Primitive::Cube));
    assert_eq!(entity_kind("mesh:plane"), EntityKind::Mesh(Primitive::Plane));
    assert_eq!(entity_kind("light:spot"), EntityKind::Light);
    assert_eq!(entity_kind("light:"), EntityKind::Light);
    assert_eq!(entity_kind("sky:atmosphere"), EntityKind::Atmosphere);
    assert_eq!(entity_kind("actor:empty"), EntityKind::Empty);
    assert_eq!(entity_kind("mesh:sphere"), EntityKind::Unknown);
    assert!(light_kind("light:point"));
    assert!(!light_kind("ligh"));
    assert_eq!(light_type("light:directional"), LightKind::Directional);
    assert_eq!(light_type("light:rect"), LightKind::Rect);
    assert_eq!(light_type("light:area"), LightKind::Unknown);
    assert_eq!(light_shadows(LightKind::Directional, None), Some(true));
    assert_eq!(light_shadows(LightKind::Point, None), Some(false));
    assert_eq!(light_shadows(LightKind::Spot, Some(true)), Some(true));
    assert_eq!(light_shadows(LightKind::Rect, Some(true)), None);
    assert_eq!(primitive_for("cube"), Some(Primitive::Cube));
    assert_eq!(primitive_for("sphere"), None);
    assert_eq!(primitive_name(Primitive::Plane), "plane");
}

#[test]
fn scene_registry_and_builtins() {
    let mut reg: SceneRegistry<u32> = SceneRegistry::new();
    assert!(reg.scene_from_registry("gradient").is_none());
    reg.register_scene("gradient".to_string(), 1);
    reg.register_scene("other".to_string(), 2);
    reg.register_scene("gradient".to_string(), 3);
    assert_eq!(reg.scene_from_registry("gradient"), Some(&3));
    assert_eq!(reg.scene_from_registry("other"), Some(&2));
    assert_eq!(builtin_scene("particles"), BuiltinScene::Particles);
    assert_eq!(builtin_scene("shader_playground"), BuiltinScene::ShaderPlayground);
    assert_eq!(builtin_scene("cube"), BuiltinScene::Cube);
    assert_eq!(builtin_scene("gradient"), BuiltinScene::Cube);
    assert_eq!(scene_name_for_code(2), "particles");
    assert_eq!(scene_name_for_code(3), "shader_playground");
    assert_eq!(scene_name_for_code(1), "cube");
    assert_eq!(scene_name_for_code(0), "cube");
}

#[test]
fn registered_scene_takes_priority_over_builtin() {
    let mut reg: SceneRegistry<u32> = SceneRegistry::new();
    assert!(matches!(reg.scene_for_type("particles"), SceneSource::Builtin(BuiltinScene::Particles)));
    assert!(matches!(reg.scene_for_type("gradient"), SceneSource::Builtin(BuiltinScene::Cube)));
    reg.register_scene("particles".to_string(), 7);
    reg.register_scene("gradient".to_string(), 9);
    assert!(matches!(reg.scene_for_type("particles"), SceneSource::Registered(&7)));
    assert!(matches!(reg.scene_for_type("gradient"), SceneSource::Registered(&9)));
    assert!(matches!(reg.scene_for_type("shader_playground"), SceneSource::Builtin(BuiltinScene::ShaderPlayground)));
}

#[test]
fn viewport_table() {
    let mut t = ViewportTable::new();
    t.create(Viewport { image: 10, camera: 100, width: 640, height: 360 });
    t.create(Viewport { image: 11, camera: 101, width: 320, height: 200 });
    assert!(t.resize(11, 800, 600));
    assert_eq!(t.find(11), Some(Viewport { image: 11, camera: 101, width: 800, height: 600 }));
    assert!(!t.resize(12, 1, 1));
    assert_eq!(t.dispose(10), Some(Viewport { image: 10, camera: 100, width: 640, height: 360 }));
    assert_eq!(t.dispose(10), None);
    assert_eq!(t.len(), 1);
}

#[test]
fn scene_sync_steps_and_links() {
    let mut map = EditorIdMap::new();
    let doc = vec![
        entry("cam", "camera", None),
        entry("amb", "light:ambient", None),
        entry("parent", "mesh:cube", None),
        entry("child", "mesh:plane", Some("parent")),
        entry("sun", "light:directional", None),
    ];
    assert_eq!(map.sync_step(&doc[0]), SyncStep::Skip);
    assert_eq!(map.sync_step(&doc[1]), SyncStep::ApplyAmbient);
    assert_eq!(map.sync_step(&doc[2]), SyncStep::Spawn);
    map.link("parent".to_string(), 1);
    map.link("child".to_string(), 2);
    map.link("sun".to_string(), 3);
    map.link("gone".to_string(), 4);
    assert_eq!(map.sync_step(&doc[2]), SyncStep::Update { entity: 1 });
    assert_eq!(map.sync_step(&doc[4]), SyncStep::Respawn { old: 3 });
    map.relink("sun".to_string(), 3, 5);
    assert_eq!(map.fwd_get("sun"), Some(5));
    assert_eq!(map.rev_get(3), None);
    assert_eq!(map.rev_get(5), Some("sun".to_string()));
    assert_eq!(map.parent_links(&doc), vec![(2, 1)]);
    let seen = seen_ids(&doc);
    assert_eq!(seen, vec!["parent".to_string(), "child".to_string(), "sun".to_string()]);
    let removed = map.forget_stale(&seen);
    assert_eq!(removed, vec![("gone".to_string(), 4)]);
    assert_eq!(map.fwd_get("gone"), None);
    assert_eq!(map.rev_get(4), None);
    assert_eq!(map.fwd_get("parent"), Some(1));
    assert_eq!(map.entity_for(&Some("child".to_string())), Some(2));
    assert_eq!(map.entity_for(&None), None);
    map.unlink("child", 2);
    assert_eq!(map.fwd_get("child"), None);
}

#[test]
fn resolve_walks_up_to_a_mapped_ancestor() {
    let mut map = EditorIdMap::new();
    map.link("light".to_string(), 10);
    let mut parents = HashMap::new();
    parents.insert(11u64, 10u64); // proxy child of the light
    parents.insert(12u64, 11u64);
    parents.insert(20u64, 20u64);
    assert_eq!(map.resolve_editor_id(10, &parents), Some("light".to_string()));
    assert_eq!(map.resolve_editor_id(12, &parents), Some("light".to_string()));
    assert_eq!(map.resolve_editor_id(20, &parents), None);
    assert_eq!(map.resolve_editor_id(30, &parents), None);
}

#[test]
fn component_listing_and_kinds() {
    let types = vec![
        RegisteredType { type_path: "bevy_transform::components::Transform".to_string(), is_component: true, is_resource: false },
        RegisteredType { type_path: "bevy_time::Time<()>".to_string(), is_component: true, is_resource: true },
        RegisteredType { type_path: "bevy_asset::Handle<Mesh>".to_string(), is_component: true, is_resource: false },
        RegisteredType { type_path: "f32".to_string(), is_component: false, is_resource: false },
    ];
    let listed = listed_component_types(&types);
    assert_eq!(listed.len(), 1);
    assert_eq!(listed[0].short_name, "Transform");
    assert_eq!(kind_str(TypeKind::TupleStruct), "tuple_struct");
    assert_eq!(kind_str(TypeKind::Opaque), "opaque");
    assert_eq!(field_type_description(&None), (String::new(), "unknown".to_string()));
    assert_eq!(
        field_type_description(&Some(("f32".to_string(), TypeKind::Opaque))),
        ("f32".to_string(), "opaque".to_string())
    );
    assert_eq!(opaque_kind("alloc::string::String"), Some(OpaqueKind::Text));
    assert_eq!(opaque_kind("String"), Some(OpaqueKind::Text));
    assert_eq!(opaque_kind("u32"), Some(OpaqueKind::U32));
    assert_eq!(opaque_kind("u64"), None);
    assert!(variant_known(&vec!["Dynamic".to_string(), "Static".to_string()], "Static"));
    assert!(!variant_known(&vec!["Dynamic".to_string()], "Frozen"));
}

#[test]
fn cube_mesh_indices() {
    let idx = cube_indices();
    assert_eq!(idx.len(), 36);
    assert_eq!(&idx[0..6], &[0, 1, 2, 0, 2, 3]);
    assert_eq!(&idx[30..36], &[20, 21, 22, 20, 22, 23]);
    assert_eq!(*idx.iter().max().unwrap(), 23);
}

#[test]
fn gizmo_interaction_state() {
    assert_eq!(gizmo_axes(), [GizmoAxis::X, GizmoAxis::Y, GizmoAxis::Z]);
    assert!(handles_active(true, GizmoMode::Rotate));
    assert!(!handles_active(true, GizmoMode::Off));
    assert!(!handles_active(false, GizmoMode::Translate));
    let mut drag = DragState::new();
    assert_eq!(drag.dragged_axis(), None);
    assert_eq!(highlighted_axis(&drag, Some(GizmoAxis::Y)), Some(GizmoAxis::Y));
    assert_eq!(hover_after_move(&drag, Some(GizmoAxis::Y), Some(GizmoAxis::Z)), Some(GizmoAxis::Z));
    drag.begin(GizmoAxis::X);
    assert_eq!(drag.dragged_axis(), Some(GizmoAxis::X));
    assert_eq!(highlighted_axis(&drag, Some(GizmoAxis::Y)), Some(GizmoAxis::X));
    assert_eq!(hover_after_move(&drag, Some(GizmoAxis::Y), Some(GizmoAxis::Z)), Some(GizmoAxis::Y));
    drag.end();
    assert_eq!(drag.dragged_axis(), None);
    assert_eq!(highlighted_axis(&drag, None), None);
}

#[test]
fn root_entries_are_detached_and_rebuild_keeps_the_last_pair() {
    let mut ids = EditorIdMap::new();
    ids.link("parent".to_string(), 1);
    ids.link("child".to_string(), 2);
    ids.link("other".to_string(), 3);
    let entries = vec![
        entry("parent", "actor:empty", None),
        entry("child", "mesh:cube", None),
        entry("other", "mesh:cube", Some("parent")),
        entry("new", "mesh:cube", None),
    ];
    assert_eq!(ids.root_entities(&entries), vec![1, 2]);
    assert_eq!(ids.parent_links(&entries), vec![(3, 1)]);

    ids.rebuild(&vec![(7, "a".to_string()), (8, "a".to_string()), (9, "b".to_string())]);
    assert_eq!(ids.fwd_get("a"), Some(8));
    assert_eq!(ids.fwd_get("b"), Some(9));
    assert_eq!(ids.rev_get(7), Some("a".to_string()));
}
