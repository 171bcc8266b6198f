use flutter_wgpu_texture::scene_params::{CubeParams, ParticlesParams, PlaygroundParams, SceneParams};
use flutter_wgpu_texture::scene_registry::{builtin_scene, BuiltinScene, SceneRegistry};

fn bits(v: [f32; 4]) -> [u32; 4] {
    v.map(f32::to_bits)
}

fn cube(p: SceneParams) -> CubeParams {
    match p {
        SceneParams::Cube(c) => c,
        other => panic!("not the cube: {other:?}"),
    }
}

fn particles(p: SceneParams) -> ParticlesParams {
    match p {
        SceneParams::Particles(q) => q,
        other => panic!("not the particles: {other:?}"),
    }
}

fn playground(p: SceneParams) -> PlaygroundParams {
    match p {
        SceneParams::ShaderPlayground(g) => g,
        other => panic!("not the playground: {other:?}"),
    }
}

#[test]
fn cube_starts_with_its_defaults() {
    let c = cube(SceneParams::for_scene(builtin_scene("cube")));
    assert!(c.rotation_enabled);
    assert_eq!(c.rotation_speed, 1.2f32.to_bits());
    assert_eq!(c.angle, 0.0f32.to_bits());
    assert_eq!(c.cube_color, bits([1.0, 0.9, 0.1, 1.0]));
}

#[test]
fn particles_and_playground_start_with_their_defaults() {
    let q = particles(SceneParams::for_scene(BuiltinScene::Particles));
    assert_eq!(q.time, 0.0f32.to_bits());
    assert_eq!(q.point_size, 14.0f32.to_bits());
    assert_eq!(q.motion_scale, 1.0f32.to_bits());
    assert_eq!(q.color1, bits([1.0, 0.4, 0.1, 1.0]));
    assert_eq!(q.color2, bits([0.1, 0.6, 1.0, 1.0]));

    let g = playground(SceneParams::for_scene(BuiltinScene::ShaderPlayground));
    assert_eq!(g.time, 0.0f32.to_bits());
    assert_eq!(g.speed, 1.0f32.to_bits());
    assert_eq!(g.noise_scale, 2.4f32.to_bits());
    assert_eq!(g.distortion, 1.0f32.to_bits());
    assert_eq!(g.pointer, bits([0.5, 0.5, 0.0, 1.0]));
    assert_eq!(g.primary_color, bits([1.0, 0.46, 0.16, 1.0]));
    assert_eq!(g.secondary_color, bits([0.14, 0.77, 1.0, 1.0]));
}

#[test]
fn cube_color_and_speed_read_back() {
    let mut p = SceneParams::for_scene(BuiltinScene::Cube);
    let yellow = bits([1.0, 0.83, 0.0, 1.0]);
    p.set_vec4_param("cube_color", yellow);
    p.set_float_param("rotation_speed", 0.8f32.to_bits());
    p.set_bool_param("rotation_enabled", false);
    let c = cube(p);
    assert_eq!(c.cube_color, yellow);
    assert_eq!(c.rotation_speed, 0.8f32.to_bits());
    assert!(!c.rotation_enabled);
}

#[test]
fn unknown_keys_change_nothing() {
    let start = SceneParams::for_scene(BuiltinScene::Particles);
    let mut p = start;
    p.set_float_param("rotation_speed", 3.0f32.to_bits());
    p.set_vec4_param("cube_color", bits([0.0, 0.0, 0.0, 1.0]));
    p.set_bool_param("rotation_enabled", false);
    assert_eq!(p, start);
}

#[test]
fn playground_parameters_are_routed_by_key() {
    let mut p = SceneParams::for_scene(BuiltinScene::ShaderPlayground);
    p.set_vec4_param("pointer", bits([0.25, 0.75, 0.0, 1.0]));
    p.set_float_param("distortion", 2.0f32.to_bits());
    p.set_float_param("time", 9.0f32.to_bits());
    let g = playground(p);
    assert_eq!(g.pointer, bits([0.25, 0.75, 0.0, 1.0]));
    assert_eq!(g.distortion, 2.0f32.to_bits());
    assert_eq!(g.time, 9.0f32.to_bits());
    assert_eq!(g.speed, 1.0f32.to_bits());
}

#[test]
fn reset_scene_restores_defaults_after_changes() {
    for scene in [BuiltinScene::Cube, BuiltinScene::Particles, BuiltinScene::ShaderPlayground] {
        let fresh = SceneParams::for_scene(scene);
        let mut p = fresh;
        p.set_float_param("time", 5.0f32.to_bits());
        p.set_float_param("angle", 5.0f32.to_bits());
        p.set_vec4_param("color1", bits([0.0, 0.0, 0.0, 0.0]));
        p.set_vec4_param("cube_color", bits([0.0, 0.0, 0.0, 0.0]));
        p.set_vec4_param("primary_color", bits([0.0, 0.0, 0.0, 0.0]));
        assert_eq!(p.invoke_command("reset_scene", ""), Ok(()));
        assert_eq!(p, fresh);
    }
}

#[test]
fn other_commands_succeed_and_change_nothing() {
    let mut p = SceneParams::for_scene(BuiltinScene::Cube);
    p.set_float_param("angle", 1.0f32.to_bits());
    let before = p;
    assert_eq!(p.invoke_command("spin", "{}"), Ok(()));
    assert_eq!(p, before);
}

#[test]
fn cube_clock_needs_rotation_enabled() {
    let mut p = SceneParams::for_scene(BuiltinScene::Cube);
    assert!(p.animates(true));
    assert!(!p.animates(false));
    p.set_bool_param("rotation_enabled", false);
    assert!(!p.animates(true));
    let q = SceneParams::for_scene(BuiltinScene::Particles);
    assert!(q.animates(true));
    assert!(!q.animates(false));
}

#[test]
fn particle_field_draws_a_quad_per_particle() {
    assert_eq!(flutter_wgpu_texture::scene_params::particle_vertex_count(), 12000);
}

#[test]
fn registered_names_take_priority_over_builtin_scenes() {
    let mut reg: SceneRegistry<u8> = SceneRegistry::new();
    assert_eq!(SceneParams::for_name(&reg, "particles"), SceneParams::for_scene(BuiltinScene::Particles));
    assert_eq!(SceneParams::for_name(&reg, "gradient"), SceneParams::for_scene(BuiltinScene::Cube));
    reg.register_scene("particles".to_string(), 1);
    reg.register_scene("gradient".to_string(), 2);
    assert_eq!(SceneParams::for_name(&reg, "particles"), SceneParams::Custom);
    assert_eq!(SceneParams::for_name(&reg, "gradient"), SceneParams::Custom);
    assert_eq!(SceneParams::for_name(&reg, "cube"), SceneParams::for_scene(BuiltinScene::Cube));
}

#[test]
fn custom_scene_keeps_no_parameters_here() {
    let mut p = SceneParams::Custom;
    p.set_float_param("rotation_speed", 2.0f32.to_bits());
    p.set_vec4_param("cube_color", bits([0.0, 0.0, 0.0, 1.0]));
    p.set_clock(7);
    assert_eq!(p.invoke_command("reset_scene", ""), Ok(()));
    assert_eq!(p, SceneParams::Custom);
    assert!(p.animates(true));
    assert!(!p.animates(false));
}
