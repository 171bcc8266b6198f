use flutter_wgpu_texture::api::{
    attach_metal_texture, create_dxgi_surface, frame_answer, request_frame, start_animation,
    stop_animation, vec4_from_list, BackendInfo,
};
use flutter_wgpu_texture::engine::{
    attach_metal_texture as engine_attach_metal_texture,
    create_dxgi_surface as engine_create_dxgi_surface, frame_outcome,
};
use flutter_wgpu_texture::scene_params::SceneParams;
use flutter_wgpu_texture::scene_registry::BuiltinScene;
use flutter_wgpu_texture::engine::{
    backend_code, clamp_extent, create_viewport_cmd, dropped_reply_message, receive_reply,
    receive_result_reply, Engine, PresentTarget, RenderCmd, ReplyKind, BACKEND_DX12, BACKEND_METAL,
    BACKEND_UNKNOWN, BACKEND_VULKAN, CLEAR_ALPHA_BITS, CLEAR_BLUE_BITS, CLEAR_GREEN_BITS,
    CLEAR_RED_BITS,
};

fn vulkan() -> BackendInfo {
    BackendInfo {
        backend: "Vulkan".to_string(),
        device_name: "Test GPU".to_string(),
        driver: "test-driver".to_string(),
    }
}

fn cube() -> SceneParams {
    SceneParams::for_scene(BuiltinScene::Cube)
}

fn default_clear() -> [u32; 4] {
    [0.05f32.to_bits(), 0.1f32.to_bits(), 0.15f32.to_bits(), 1.0f32.to_bits()]
}

#[test]
fn clear_color_constants_are_the_default_floats() {
    assert_eq!(
        [CLEAR_RED_BITS, CLEAR_GREEN_BITS, CLEAR_BLUE_BITS, CLEAR_ALPHA_BITS],
        default_clear()
    );
}

#[test]
fn backend_codes() {
    assert_eq!(backend_code("Metal"), BACKEND_METAL);
    assert_eq!(backend_code("Dx12"), BACKEND_DX12);
    assert_eq!(backend_code("Vulkan"), BACKEND_VULKAN);
    assert_eq!(backend_code("Gl"), BACKEND_UNKNOWN);
    assert_eq!(backend_code("vulkan"), BACKEND_UNKNOWN);
    assert_eq!(backend_code(""), BACKEND_UNKNOWN);
}

#[test]
fn extents_are_at_least_one_pixel() {
    assert_eq!(clamp_extent(0), 1);
    assert_eq!(clamp_extent(1), 1);
    assert_eq!(clamp_extent(640), 640);
    assert_eq!(create_viewport_cmd(0, 360), RenderCmd::CreateViewport { width: 1, height: 360 });
}

#[test]
fn handles_start_at_one_and_are_fresh() {
    let mut engine: Engine<()> = Engine::new();
    assert!(engine.has_free_handle());
    let h1 = engine.engine_create(640, 360, vulkan(), BACKEND_VULKAN, 100, cube());
    let h2 = engine.engine_create(0, 0, vulkan(), BACKEND_VULKAN, 101, cube());
    assert_eq!(h1, 1);
    assert_eq!(h2, 2);
    let r1 = engine.lookup_renderer(h1).unwrap();
    assert_eq!((r1.width, r1.height), (640, 360));
    assert!(r1.animation_running);
    assert_eq!(r1.clear_color, default_clear());
    assert!(r1.present.is_none());
    let r2 = engine.lookup_renderer(h2).unwrap();
    assert_eq!((r2.width, r2.height), (1, 1));
    assert_eq!(r2.viewport_image, 101);
    // A disposed handle is not reused.
    assert_eq!(engine.engine_dispose(h2), Some(RenderCmd::DisposeViewport { image: 101 }));
    let h3 = engine.engine_create(10, 10, vulkan(), BACKEND_VULKAN, 102, cube());
    assert_eq!(h3, 3);
}

#[test]
fn create_renderer_reports_handle_and_backend() {
    let mut engine: Engine<()> = Engine::new();
    let info = engine.create_renderer(640, 360, vulkan(), BACKEND_VULKAN, 7, SceneParams::for_scene(BuiltinScene::Particles));
    assert_eq!(info.handle, 1);
    assert_eq!(info.backend.backend, "Vulkan");
    assert_eq!(info.backend.device_name, "Test GPU");
    let again = engine.renderer_backend_info(1).unwrap();
    assert_eq!(again.driver, "test-driver");
    assert_eq!(engine.backend_code_for_handle(1), BACKEND_VULKAN);
    assert!(matches!(engine.lookup_renderer(1).unwrap().scene, SceneParams::Particles(_)));
    assert_eq!(engine.backend_code_for_handle(9), BACKEND_UNKNOWN);
}

#[test]
fn unknown_handle_is_reported() {
    let mut engine: Engine<()> = Engine::new();
    let msg = "renderer handle not found".to_string();
    assert_eq!(engine.render_frame(5), Err(msg.clone()));
    assert_eq!(engine.set_bool_param(5, "animation_running", false), Err(msg.clone()));
    assert_eq!(engine.set_vec4_param(5, "background_color", [0; 4]), Err(msg.clone()));
    assert_eq!(engine.invoke_command(5, "reset_scene", "{}"), Err(msg.clone()));
    assert_eq!(engine.resize_renderer(5, 1, 1), Err(msg.clone()));
    assert_eq!(engine.pick(5, 0, 0), Err(msg.clone()));
    assert_eq!(engine.set_scene(5, "{}"), Err(msg.clone()));
    assert_eq!(engine.ensure_linux_present(5, 1, 1), Err(msg.clone()));
    assert!(engine.export_dmabuf(5).is_err());
    assert_eq!(engine.linux_dmabuf_supported(5), Err(msg.clone()));
    assert_eq!(engine.renderer_backend_info(5).err(), Some(msg.clone()));
    assert_eq!(engine.engine_dispose(5), None);
}

#[test]
fn disposed_handle_is_not_found() {
    let mut engine: Engine<()> = Engine::new();
    let h = engine.engine_create(8, 8, vulkan(), BACKEND_VULKAN, 1, cube());
    assert!(engine.render_frame(h).is_ok());
    engine.engine_dispose(h);
    assert_eq!(engine.render_frame(h), Err("renderer handle not found".to_string()));
    assert!(engine.lookup_renderer(h).is_none());
}

#[test]
fn params_route_to_renderer_state() {
    let mut engine: Engine<()> = Engine::new();
    let h = engine.engine_create(8, 8, vulkan(), BACKEND_VULKAN, 1, cube());
    engine.set_bool_param(h, "animation_running", false).unwrap();
    assert!(!engine.lookup_renderer(h).unwrap().animation_running);
    engine.set_bool_param(h, "rotation_enabled", true).unwrap();
    assert!(!engine.lookup_renderer(h).unwrap().animation_running);
    start_animation(&mut engine, h).unwrap();
    assert!(engine.lookup_renderer(h).unwrap().animation_running);
    stop_animation(&mut engine, h).unwrap();
    assert!(!engine.lookup_renderer(h).unwrap().animation_running);

    let blue = [0.1f32.to_bits(), 0.36f32.to_bits(), 1.0f32.to_bits(), 1.0f32.to_bits()];
    engine.set_vec4_param(h, "background_color", blue).unwrap();
    assert_eq!(engine.lookup_renderer(h).unwrap().clear_color, blue);
    engine.set_vec4_param(h, "cube_color", [0; 4]).unwrap();
    assert_eq!(engine.lookup_renderer(h).unwrap().clear_color, blue);
    engine.set_float_param(h, "rotation_speed", 0.8f32.to_bits()).unwrap();
    match engine.lookup_renderer(h).unwrap().scene {
        SceneParams::Cube(c) => {
            assert_eq!(c.cube_color, [0; 4]);
            assert_eq!(c.rotation_speed, 0.8f32.to_bits());
            assert!(c.rotation_enabled);
        }
        other => panic!("not the cube: {other:?}"),
    }

    engine.invoke_command(h, "reset_scene", "{}").unwrap();
    let r = engine.lookup_renderer(h).unwrap();
    assert!(r.animation_running);
    assert_eq!(r.clear_color, default_clear());
    assert_eq!(r.scene, SceneParams::for_scene(BuiltinScene::Cube));
}

#[test]
fn settings_reach_the_frame_and_stopping_freezes_the_clock() {
    let mut engine: Engine<()> = Engine::new();
    let h = engine.engine_create(64, 64, vulkan(), BACKEND_VULKAN, 5, SceneParams::for_scene(BuiltinScene::Particles));
    engine
        .attach_present(h, PresentTarget { width: 64, height: 64, has_shared_texture: true, has_dma_buf_image: true, resources: () })
        .unwrap();
    let first = engine.render_frame(h).unwrap();
    let blue = [0.1f32.to_bits(), 0.36f32.to_bits(), 1.0f32.to_bits(), 1.0f32.to_bits()];
    stop_animation(&mut engine, h).unwrap();
    engine.set_vec4_param(h, "background_color", blue).unwrap();
    engine.set_float_param(h, "point_size", 20.0f32.to_bits()).unwrap();
    let second = engine.render_frame(h).unwrap();
    assert_ne!(first, second);
    match second.clone() {
        Some(RenderCmd::RenderFrame { animation_running, clear_color, scene: SceneParams::Particles(q), .. }) => {
            assert!(!animation_running);
            assert_eq!(clear_color, blue);
            assert_eq!(q.point_size, 20.0f32.to_bits());
        }
        other => panic!("unexpected frame: {other:?}"),
    }
    // A frame while stopped leaves the clock where it was.
    engine.advance_scene_clock(h, 3.0f32.to_bits()).unwrap();
    assert_eq!(engine.lookup_renderer(h).unwrap().scene, match second.clone() {
        Some(RenderCmd::RenderFrame { scene, .. }) => scene,
        _ => unreachable!(),
    });
    // Running again, the clock advances.
    start_animation(&mut engine, h).unwrap();
    engine.advance_scene_clock(h, 3.0f32.to_bits()).unwrap();
    match engine.lookup_renderer(h).unwrap().scene {
        SceneParams::Particles(q) => assert_eq!(q.time, 3.0f32.to_bits()),
        other => panic!("not the particles: {other:?}"),
    }
}

#[test]
fn frame_answers() {
    assert_eq!(frame_answer(false, None), Ok(false));
    assert_eq!(frame_answer(true, Some(Ok(true))), Ok(true));
    assert_eq!(frame_answer(true, Some(Ok(false))), Ok(false));
    assert_eq!(frame_answer(true, None), Err("render thread dropped frame reply".to_string()));
    assert!(frame_outcome(true, true));
    assert!(!frame_outcome(true, false));
    assert!(!frame_outcome(false, true));
}

#[test]
fn resize_and_frame_commands() {
    let mut engine: Engine<()> = Engine::new();
    let h = engine.engine_create(640, 360, vulkan(), BACKEND_VULKAN, 42, cube());
    // No present target yet: no frame is rendered.
    assert_eq!(request_frame(&engine, h), Ok(None));
    assert_eq!(
        engine.resize_renderer(h, 0, 200),
        Ok(RenderCmd::ResizeViewport { image: 42, width: 1, height: 200 })
    );
    let r = engine.lookup_renderer(h).unwrap();
    assert_eq!((r.width, r.height), (1, 200));
}

#[test]
fn linux_present_is_created_once_per_extent() {
    let mut engine: Engine<&'static str> = Engine::new();
    let h = engine.engine_create(640, 360, vulkan(), BACKEND_VULKAN, 42, cube());
    assert_eq!(engine.export_dmabuf(h).map(|t| t.is_some()), Ok(false));
    let first = engine.ensure_linux_present(h, 800, 600).unwrap();
    assert_eq!(first, Some(RenderCmd::ResizeViewport { image: 42, width: 800, height: 600 }));
    engine
        .attach_present(
            h,
            PresentTarget {
                width: 800,
                height: 600,
                has_shared_texture: true,
                has_dma_buf_image: true,
                resources: "target",
            },
        )
        .unwrap();
    assert_eq!(engine.ensure_linux_present(h, 800, 600), Ok(None));
    assert_eq!(
        engine.render_frame(h),
        Ok(Some(RenderCmd::RenderFrame {
            image: 42,
            copy_to_shared: true,
            width: 800,
            height: 600,
            animation_running: true,
            clear_color: default_clear(),
            scene: SceneParams::for_scene(BuiltinScene::Cube),
        }))
    );
    let target = engine.export_dmabuf(h).unwrap().unwrap();
    assert_eq!(target.resources, "target");
    assert_eq!(
        engine.ensure_linux_present(h, 1024, 600),
        Ok(Some(RenderCmd::ResizeViewport { image: 42, width: 1024, height: 600 }))
    );
}

#[test]
fn editor_commands_carry_viewport_and_values() {
    let mut engine: Engine<()> = Engine::new();
    let h = engine.engine_create(640, 360, vulkan(), BACKEND_VULKAN, 9, cube());
    let x = 320.0f32.to_bits();
    let y = 72.0f32.to_bits();
    assert_eq!(engine.pick(h, x, y), Ok(RenderCmd::Pick { image: 9, x, y }));
    assert_eq!(engine.drag_begin(h, x, y), Ok(RenderCmd::DragBegin { image: 9, x, y }));
    assert_eq!(engine.drag_update(h, x, y), Ok(RenderCmd::DragUpdate { image: 9, x, y }));
    assert_eq!(engine.drag_end(h), Ok(RenderCmd::DragEnd));
    assert_eq!(engine.set_hover(h, x, y), Ok(RenderCmd::SetHover { image: 9, x, y }));
    assert_eq!(engine.camera_orbit(h, x, y), Ok(RenderCmd::CameraOrbit { image: 9, dx: x, dy: y }));
    assert_eq!(engine.camera_pan(h, x, y), Ok(RenderCmd::CameraPan { image: 9, dx: x, dy: y }));
    assert_eq!(engine.camera_zoom(h, x), Ok(RenderCmd::CameraZoom { image: 9, delta: x }));
    assert_eq!(engine.camera_look(h, x, y), Ok(RenderCmd::CameraLook { image: 9, dx: x, dy: y }));
    assert_eq!(
        engine.camera_fly(h, 1, 2, 3, 4),
        Ok(RenderCmd::CameraFly { image: 9, forward: 1, right: 2, up: 3, dt: 4 })
    );
    assert_eq!(
        engine.set_scene(h, "{\"entities\":[]}"),
        Ok(RenderCmd::SetScene { json: "{\"entities\":[]}".to_string() })
    );
    assert_eq!(engine.set_gizmo_mode(h, "translate"), Ok(RenderCmd::SetGizmoMode { mode: "translate".to_string() }));
    assert_eq!(engine.set_play_mode(h, "play"), Ok(RenderCmd::SetPlayMode { mode: "play".to_string() }));
    assert_eq!(engine.set_view_mode(h, "Wireframe"), Ok(RenderCmd::SetViewMode { mode: "Wireframe".to_string() }));
    assert_eq!(engine.select_entity(h, Some("sp".to_string())), Ok(RenderCmd::SelectEntity { id: Some("sp".to_string()) }));
    assert_eq!(engine.save_scene(h, "/tmp/a.scn.ron"), Ok(RenderCmd::SaveScene { path: "/tmp/a.scn.ron".to_string() }));
    assert_eq!(engine.load_scene(h, "/tmp/a.scn.ron"), Ok(RenderCmd::LoadScene { path: "/tmp/a.scn.ron".to_string() }));
    assert_eq!(engine.list_component_types(h), Ok(RenderCmd::ListComponentTypes));
    assert_eq!(engine.describe_component(h, "a::B"), Ok(RenderCmd::DescribeComponent { type_path: "a::B".to_string() }));
    assert_eq!(engine.get_scene(h), Ok(RenderCmd::GetScene));
}

#[test]
fn replies_and_dropped_replies() {
    assert_eq!(RenderCmd::DragEnd.reply_kind(), None);
    assert_eq!(RenderCmd::GetScene.reply_kind(), Some(ReplyKind::GetScene));
    assert_eq!(receive_reply(Some(true), ReplyKind::DragBegin), Ok(true));
    assert_eq!(
        receive_reply::<bool>(None, ReplyKind::DragBegin),
        Err("render thread dropped drag_begin reply".to_string())
    );
    assert_eq!(
        receive_result_reply::<bool>(None, ReplyKind::Frame),
        Err("render thread dropped frame reply".to_string())
    );
    assert_eq!(
        receive_result_reply::<bool>(Some(Err("boom".to_string())), ReplyKind::Frame),
        Err("boom".to_string())
    );
    assert_eq!(dropped_reply_message(ReplyKind::Viewport), "render thread did not return a viewport");
}

#[test]
fn vec4_lists_must_have_four_components() {
    assert_eq!(vec4_from_list(&vec![1, 2, 3, 4]), Ok([1, 2, 3, 4]));
    assert_eq!(
        vec4_from_list(&vec![1, 2, 3]),
        Err("set_vec4_param expects exactly 4 floats".to_string())
    );
}

#[test]
fn platform_paths_not_yet_supported() {
    assert_eq!(
        engine_attach_metal_texture(1, 0, 1, 1, 4),
        Err("Metal present not yet supported with Bevy renderer".to_string())
    );
    assert_eq!(
        engine_create_dxgi_surface(1, 1, 1),
        Err("DXGI present not yet supported with Bevy renderer".to_string())
    );
}

#[test]
fn platform_paths_absent_here() {
    assert_eq!(
        attach_metal_texture(1, 0, 1, 1, 4),
        Err("Metal not available on this platform".to_string())
    );
    assert_eq!(
        create_dxgi_surface(1, 1, 1),
        Err("DXGI not available on this platform".to_string())
    );
}
