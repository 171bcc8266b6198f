//! Scenarios of the editor's own tests, at the level of the verified state:
//! the play snapshot, the stable-id map, the component listing and the
//! reflected field kinds.
use flutter_wgpu_texture::id_map::{EditorIdMap, SceneEntry};
use flutter_wgpu_texture::kinds::{entity_kind, primitive_for, EntityKind, Primitive};
use flutter_wgpu_texture::modes::PlayState;
use flutter_wgpu_texture::reflect_info::{
    kind_str, listed_component_types, opaque_kind, short_name, variant_known, OpaqueKind,
    RegisteredType, TypeKind,
};

#[test]
fn play_then_stop_restores_authored_transform() {
    // The authored cube (id "cube", name "Cube", y = 5.0) lives as entity 1.
    let mut ids = EditorIdMap::new();
    ids.link("cube".to_string(), 1);
    let authored = "cube|Cube|0.0,5.0,0.0".to_string();

    let mut state = PlayState::new();
    assert!(state.enter_play(Ok(authored.clone())));
    assert!(state.is_playing());

    // Play moves the cube (y = 0.0); leaving play hands back the snapshot.
    let restore = state.exit_play();
    assert!(!state.is_playing());
    assert_eq!(restore, Some(Some(authored.clone())), "authored transform restored on stop");

    // Restoring respawns the entity; the id map is rebuilt from the
    // persisted ids, so "cube" is looked up again.
    ids.rebuild(&vec![(7, "cube".to_string())]);
    assert_eq!(ids.fwd_get("cube"), Some(7));
    assert_eq!(ids.rev_get(1), None);
}

#[test]
fn round_trips_scene_object_id_transform_and_hierarchy() {
    // Saved scene: "parent" (entity 1) and "child" (entity 2, child of 1).
    let mut ids = EditorIdMap::new();
    ids.link("parent".to_string(), 1);
    ids.link("child".to_string(), 2);
    // Loading spawns fresh entities; the map is rebuilt from the persisted ids.
    let mut loaded = EditorIdMap::new();
    loaded.rebuild(&vec![(10, "parent".to_string()), (11, "child".to_string())]);
    let loaded_parent = loaded.fwd_get("parent").unwrap();
    let loaded_child = loaded.fwd_get("child").unwrap();
    assert_ne!(loaded_parent, ids.fwd_get("parent").unwrap(), "entity ids are remapped");
    let doc = vec![
        SceneEntry { id: "parent".to_string(), kind: "actor:empty".to_string(), parent_id: None },
        SceneEntry { id: "child".to_string(), kind: "actor:empty".to_string(), parent_id: Some("parent".to_string()) },
    ];
    assert_eq!(loaded.parent_links(&doc), vec![(loaded_child, loaded_parent)], "hierarchy preserved");
    assert_eq!(loaded.rev_get(loaded_child), Some("child".to_string()));
}

#[test]
fn round_trips_primitive_mesh_and_material_color() {
    let mut loaded = EditorIdMap::new();
    loaded.rebuild(&vec![(3, "cube1".to_string())]);
    assert_eq!(loaded.fwd_get("cube1"), Some(3));
    assert_eq!(entity_kind("mesh:cube"), EntityKind::Mesh(Primitive::Cube));
    // The stored primitive name rebuilds the cube mesh at runtime.
    assert_eq!(primitive_for("cube"), Some(Primitive::Cube));
}

#[test]
fn lists_registered_component() {
    let registry = vec![RegisteredType {
        type_path: "flutter_wgpu_texture::registry::tests::TestComp".to_string(),
        is_component: true,
        is_resource: false,
    }];
    let listed = listed_component_types(&registry);
    let entry = listed.iter().find(|e| e.short_name == "TestComp").expect("TestComp listed");
    assert!(entry.type_path.ends_with("TestComp"));
}

#[test]
fn describes_struct_fields_and_defaults() {
    let path = "flutter_wgpu_texture::registry::tests::TestComp";
    assert_eq!(kind_str(TypeKind::Struct), "struct");
    assert_eq!(short_name(path), "TestComp");
    // field `x: f32` and field `name: String`
    assert_eq!(opaque_kind("f32"), Some(OpaqueKind::F32));
    assert_eq!(opaque_kind("alloc::string::String"), Some(OpaqueKind::Text));
}

#[test]
fn spawns_component_with_unit_enum_field() {
    let body_variants = vec!["Dynamic".to_string(), "Static".to_string(), "Kinematic".to_string()];
    let collider_variants = vec![
        "Auto".to_string(),
        "Cuboid".to_string(),
        "Sphere".to_string(),
        "HalfSpace".to_string(),
    ];
    assert!(variant_known(&body_variants, "Static"));
    assert!(variant_known(&collider_variants, "HalfSpace"));
    assert!(!variant_known(&body_variants, "HalfSpace"));
}

#[test]
fn spawns_reflect_component_from_json() {
    // Foo { x: f32, name: String } set from {"x": 7.5, "name": "hi"}
    assert_eq!(opaque_kind("f32"), Some(OpaqueKind::F32));
    assert_eq!(opaque_kind("alloc::string::String"), Some(OpaqueKind::Text));
    assert_eq!(opaque_kind("Foo"), None);
}

#[test]
fn skips_unknown_type() {
    let registry = vec![RegisteredType {
        type_path: "flutter_wgpu_texture::level::components::SceneObjectId".to_string(),
        is_component: true,
        is_resource: false,
    }];
    let listed = listed_component_types(&registry);
    assert!(listed.iter().all(|e| e.type_path != "nope::Missing"));
}
