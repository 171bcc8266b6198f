//! The renderer registry: handles for viewports, each renderer's local state,
//! and the commands each request sends to the render thread.
//!
//! Floating-point values that only pass through (pointer positions, camera
//! deltas, colours) are carried as their IEEE-754 bit patterns (`u32`).
use vstd::prelude::*;
use std::collections::HashMap;

use crate::api::{BackendInfo, RendererInfo};
use crate::scene_params::{
    advances, bool_applied, clock_set, scene_command_applied, float_applied,
    scene_reset, vec4_applied, SceneParams,
};
use crate::text::text_eq;

verus! {

broadcast use vstd::std_specs::hash::group_hash_axioms;

/// Backend code when the graphics API is not recognised.
pub const BACKEND_UNKNOWN: u8 = 0;
/// Backend code of Metal.
pub const BACKEND_METAL: u8 = 1;
/// Backend code of Direct3D 12.
pub const BACKEND_DX12: u8 = 2;
/// Backend code of Vulkan.
pub const BACKEND_VULKAN: u8 = 3;

/// Bit pattern of `0.05f32`.
pub const CLEAR_RED_BITS: u32 = 0x3d4c_cccd;
/// Bit pattern of `0.1f32`.
pub const CLEAR_GREEN_BITS: u32 = 0x3dcc_cccd;
/// Bit pattern of `0.15f32`.
pub const CLEAR_BLUE_BITS: u32 = 0x3e19_999a;
/// Bit pattern of `1.0f32`.
pub const CLEAR_ALPHA_BITS: u32 = 0x3f80_0000;

/// The backend code of a backend name as the device reports it.
pub open spec fn backend_code_of(name: Seq<char>) -> u8 {
    if name == "Metal"@ {
        BACKEND_METAL
    } else if name == "Dx12"@ {
        BACKEND_DX12
    } else if name == "Vulkan"@ {
        BACKEND_VULKAN
    } else {
        BACKEND_UNKNOWN
    }
}

/// Map a backend name (`"Metal"`, `"Dx12"`, `"Vulkan"`) to its backend code.
pub fn backend_code(name: &str) -> (r: u8)
    ensures
        r == backend_code_of(name@),
{
    if text_eq(name, "Metal") {
        BACKEND_METAL
    } else if text_eq(name, "Dx12") {
        BACKEND_DX12
    } else if text_eq(name, "Vulkan") {
        BACKEND_VULKAN
    } else {
        BACKEND_UNKNOWN
    }
}

/// The default clear colour (0.05, 0.1, 0.15, 1.0) as bit patterns.
pub open spec fn default_clear_color() -> [u32; 4] {
    [CLEAR_RED_BITS, CLEAR_GREEN_BITS, CLEAR_BLUE_BITS, CLEAR_ALPHA_BITS]
}

/// A viewport extent is at least one pixel each way.
pub open spec fn at_least_one(v: u32) -> u32 {
    if v < 1 { 1 } else { v }
}

/// Clamp a requested extent to at least one pixel.
pub fn clamp_extent(v: u32) -> (r: u32)
    ensures
        r == at_least_one(v),
{
    if v < 1 {
        1
    } else {
        v
    }
}

/// A command for the render thread. Values that the render thread reads as
/// `f32` are carried as bit patterns.
#[derive(Clone, Debug, PartialEq, Eq)]
pub enum RenderCmd {
    CreateViewport { width: u32, height: u32 },
    DisposeViewport { image: u64 },
    ResizeViewport { image: u64, width: u32, height: u32 },
    SetScene { json: String },
    SaveScene { path: String },
    LoadScene { path: String },
    ListComponentTypes,
    DescribeComponent { type_path: String },
    Pick { image: u64, x: u32, y: u32 },
    SelectEntity { id: Option<String> },
    SetGizmoMode { mode: String },
    SetPlayMode { mode: String },
    SetViewMode { mode: String },
    GetScene,
    CameraOrbit { image: u64, dx: u32, dy: u32 },
    CameraPan { image: u64, dx: u32, dy: u32 },
    CameraZoom { image: u64, delta: u32 },
    CameraLook { image: u64, dx: u32, dy: u32 },
    CameraFly { image: u64, forward: u32, right: u32, up: u32, dt: u32 },
    DragBegin { image: u64, x: u32, y: u32 },
    DragUpdate { image: u64, x: u32, y: u32 },
    DragEnd,
    SetHover { image: u64, x: u32, y: u32 },
    RenderFrame {
        image: u64,
        copy_to_shared: bool,
        width: u32,
        height: u32,
        animation_running: bool,
        clear_color: [u32; 4],
        scene: SceneParams,
    },
    Shutdown,
}

/// What a command's reply is, for the error reported when the render thread
/// drops it.
#[derive(Clone, Copy, Debug, PartialEq, Eq)]
pub enum ReplyKind {
    Viewport,
    ListComponentTypes,
    DescribeComponent,
    SaveScene,
    LoadScene,
    Pick,
    GetScene,
    DragBegin,
    DragUpdate,
    Frame,
}

/// The reply a command waits for, if any. A command without a reply is sent
/// and its send failure ignored; one with a reply fails when it cannot be sent.
pub open spec fn reply_of(cmd: RenderCmd) -> Option<ReplyKind> {
    match cmd {
        RenderCmd::CreateViewport { .. } => Some(ReplyKind::Viewport),
        RenderCmd::SaveScene { .. } => Some(ReplyKind::SaveScene),
        RenderCmd::LoadScene { .. } => Some(ReplyKind::LoadScene),
        RenderCmd::ListComponentTypes => Some(ReplyKind::ListComponentTypes),
        RenderCmd::DescribeComponent { .. } => Some(ReplyKind::DescribeComponent),
        RenderCmd::Pick { .. } => Some(ReplyKind::Pick),
        RenderCmd::GetScene => Some(ReplyKind::GetScene),
        RenderCmd::DragBegin { .. } => Some(ReplyKind::DragBegin),
        RenderCmd::DragUpdate { .. } => Some(ReplyKind::DragUpdate),
        RenderCmd::RenderFrame { .. } => Some(ReplyKind::Frame),
        _ => None,
    }
}

impl RenderCmd {
    /// The reply this command waits for.
    pub fn reply_kind(&self) -> (r: Option<ReplyKind>)
        ensures
            r == reply_of(*self),
    {
        match self {
            RenderCmd::CreateViewport { .. } => Some(ReplyKind::Viewport),
            RenderCmd::SaveScene { .. } => Some(ReplyKind::SaveScene),
            RenderCmd::LoadScene { .. } => Some(ReplyKind::LoadScene),
            RenderCmd::ListComponentTypes => Some(ReplyKind::ListComponentTypes),
            RenderCmd::DescribeComponent { .. } => Some(ReplyKind::DescribeComponent),
            RenderCmd::Pick { .. } => Some(ReplyKind::Pick),
            RenderCmd::GetScene => Some(ReplyKind::GetScene),
            RenderCmd::DragBegin { .. } => Some(ReplyKind::DragBegin),
            RenderCmd::DragUpdate { .. } => Some(ReplyKind::DragUpdate),
            RenderCmd::RenderFrame { .. } => Some(ReplyKind::Frame),
            _ => None,
        }
    }
}

/// The error reported when the render thread drops a reply of this kind.
pub open spec fn dropped_reply_text(kind: ReplyKind) -> Seq<char> {
    match kind {
        ReplyKind::Viewport => "render thread did not return a viewport"@,
        ReplyKind::ListComponentTypes => "render thread dropped list_component_types reply"@,
        ReplyKind::DescribeComponent => "render thread dropped describe_component reply"@,
        ReplyKind::SaveScene => "render thread dropped save_scene reply"@,
        ReplyKind::LoadScene => "render thread dropped load_scene reply"@,
        ReplyKind::Pick => "render thread dropped pick reply"@,
        ReplyKind::GetScene => "render thread dropped get_scene reply"@,
        ReplyKind::DragBegin => "render thread dropped drag_begin reply"@,
        ReplyKind::DragUpdate => "render thread dropped drag_update reply"@,
        ReplyKind::Frame => "render thread dropped frame reply"@,
    }
}

/// The error reported when the render thread drops a reply of this kind.
pub fn dropped_reply_message(kind: ReplyKind) -> (r: String)
    ensures
        r@ == dropped_reply_text(kind),
{
    match kind {
        ReplyKind::Viewport => String::from_str("render thread did not return a viewport"),
        ReplyKind::ListComponentTypes => String::from_str("render thread dropped list_component_types reply"),
        ReplyKind::DescribeComponent => String::from_str("render thread dropped describe_component reply"),
        ReplyKind::SaveScene => String::from_str("render thread dropped save_scene reply"),
        ReplyKind::LoadScene => String::from_str("render thread dropped load_scene reply"),
        ReplyKind::Pick => String::from_str("render thread dropped pick reply"),
        ReplyKind::GetScene => String::from_str("render thread dropped get_scene reply"),
        ReplyKind::DragBegin => String::from_str("render thread dropped drag_begin reply"),
        ReplyKind::DragUpdate => String::from_str("render thread dropped drag_update reply"),
        ReplyKind::Frame => String::from_str("render thread dropped frame reply"),
    }
}

/// The outcome of a request from the reply the render thread sent, `None`
/// when the reply was dropped.
pub fn receive_reply<T>(reply: Option<T>, kind: ReplyKind) -> (r: Result<T, String>)
    ensures
        match reply {
            Some(v) => r == Ok::<T, String>(v),
            None => (r matches Err(e) && e@ == dropped_reply_text(kind)),
        },
{
    match reply {
        Some(v) => Ok(v),
        None => Err(dropped_reply_message(kind)),
    }
}

/// Like [`receive_reply`] for replies that are themselves a result: the inner
/// error passes through.
pub fn receive_result_reply<T>(reply: Option<Result<T, String>>, kind: ReplyKind) -> (r: Result<T, String>)
    ensures
        match reply {
            Some(inner) => r == inner,
            None => (r matches Err(e) && e@ == dropped_reply_text(kind)),
        },
{
    match reply {
        Some(inner) => inner,
        None => Err(dropped_reply_message(kind)),
    }
}

/// The command creating the offscreen viewport of a new renderer.
pub fn create_viewport_cmd(width: u32, height: u32) -> (r: RenderCmd)
    ensures
        r == (RenderCmd::CreateViewport { width: at_least_one(width), height: at_least_one(height) }),
{
    RenderCmd::CreateViewport { width: clamp_extent(width), height: clamp_extent(height) }
}

/// The present target a renderer copies its frames into: its extent, which
/// shared resources it has, and the resources themselves (`P`).
pub struct PresentTarget<P> {
    pub width: u32,
    pub height: u32,
    pub has_shared_texture: bool,
    pub has_dma_buf_image: bool,
    pub resources: P,
}

/// The state a renderer keeps beside its viewport on the render thread: its
/// device, extent, present target, animation flag, clear colour and the
/// parameters of the scene it renders.
pub struct Renderer<P> {
    pub backend: BackendInfo,
    pub backend_code: u8,
    pub width: u32,
    pub height: u32,
    pub present: Option<PresentTarget<P>>,
    pub viewport_image: u64,
    pub animation_running: bool,
    pub clear_color: [u32; 4],
    pub scene: SceneParams,
}

/// A fresh renderer: extent clamped, no present target, animation running,
/// default clear colour, and the scene parameters it was created with.
pub open spec fn fresh_renderer<P>(
    r: Renderer<P>,
    backend: BackendInfo,
    code: u8,
    width: u32,
    height: u32,
    image: u64,
    scene: SceneParams,
) -> bool {
    &&& r.backend == backend
    &&& r.backend_code == code
    &&& r.width == at_least_one(width)
    &&& r.height == at_least_one(height)
    &&& r.present is None
    &&& r.viewport_image == image
    &&& r.animation_running
    &&& r.clear_color == default_clear_color()
    &&& r.scene == scene
}

/// `r2` is `r1` with only the animation flag, clear colour and scene
/// parameters possibly changed.
pub open spec fn same_but_params<P>(r1: Renderer<P>, r2: Renderer<P>) -> bool {
    &&& r2.backend == r1.backend
    &&& r2.backend_code == r1.backend_code
    &&& r2.width == r1.width
    &&& r2.height == r1.height
    &&& r2.present == r1.present
    &&& r2.viewport_image == r1.viewport_image
}

/// The effect of a boolean parameter on a renderer: `animation_running` is the
/// renderer's own, every other key goes to the scene.
pub open spec fn bool_param_applied<P>(old_r: Renderer<P>, new_r: Renderer<P>, key: Seq<char>, value: bool) -> bool {
    &&& same_but_params(old_r, new_r)
    &&& new_r.clear_color == old_r.clear_color
    &&& if key == "animation_running"@ {
        new_r.animation_running == value && new_r.scene == old_r.scene
    } else {
        new_r.animation_running == old_r.animation_running && new_r.scene == bool_applied(old_r.scene, key, value)
    }
}

/// The effect of a float parameter on a renderer: it goes to the scene.
pub open spec fn float_param_applied<P>(old_r: Renderer<P>, new_r: Renderer<P>, key: Seq<char>, value: u32) -> bool {
    &&& same_but_params(old_r, new_r)
    &&& new_r.animation_running == old_r.animation_running
    &&& new_r.clear_color == old_r.clear_color
    &&& new_r.scene == float_applied(old_r.scene, key, value)
}

/// The effect of a four-component parameter on a renderer: `background_color`
/// is the clear colour, every other key goes to the scene.
pub open spec fn vec4_param_applied<P>(old_r: Renderer<P>, new_r: Renderer<P>, key: Seq<char>, value: [u32; 4]) -> bool {
    &&& same_but_params(old_r, new_r)
    &&& new_r.animation_running == old_r.animation_running
    &&& if key == "background_color"@ {
        new_r.clear_color == value && new_r.scene == old_r.scene
    } else {
        new_r.clear_color == old_r.clear_color && new_r.scene == vec4_applied(old_r.scene, key, value)
    }
}

/// The effect of a command on a renderer: `reset_scene` restores the running
/// animation and the default clear colour; every command also goes to the
/// scene (which resets on `reset_scene`).
pub open spec fn command_applied<P>(old_r: Renderer<P>, new_r: Renderer<P>, command: Seq<char>) -> bool {
    &&& same_but_params(old_r, new_r)
    &&& new_r.scene == scene_command_applied(old_r.scene, command)
    &&& if command == "reset_scene"@ {
        new_r.animation_running && new_r.clear_color == default_clear_color()
    } else {
        new_r.animation_running == old_r.animation_running && new_r.clear_color == old_r.clear_color
    }
}

/// The effect of a rendered frame's clock advance: the scene's clock is set to
/// `clock` when the frame animates the scene, and nothing changes otherwise.
pub open spec fn clock_advanced<P>(old_r: Renderer<P>, new_r: Renderer<P>, clock: u32) -> bool {
    &&& same_but_params(old_r, new_r)
    &&& new_r.animation_running == old_r.animation_running
    &&& new_r.clear_color == old_r.clear_color
    &&& new_r.scene == (if advances(old_r.scene, old_r.animation_running) {
        clock_set(old_r.scene, clock)
    } else {
        old_r.scene
    })
}

/// The renderer after a resize to `width` × `height`.
pub open spec fn resized<P>(old_r: Renderer<P>, new_r: Renderer<P>, width: u32, height: u32) -> bool {
    &&& new_r.backend == old_r.backend
    &&& new_r.backend_code == old_r.backend_code
    &&& new_r.width == at_least_one(width)
    &&& new_r.height == at_least_one(height)
    &&& new_r.present == old_r.present
    &&& new_r.viewport_image == old_r.viewport_image
    &&& new_r.animation_running == old_r.animation_running
    &&& new_r.clear_color == old_r.clear_color
    &&& new_r.scene == old_r.scene
}

/// The renderer `new_r` is `old_r` with the present target `target` installed.
pub open spec fn present_attached<P>(old_r: Renderer<P>, new_r: Renderer<P>, target: PresentTarget<P>) -> bool {
    &&& new_r.backend == old_r.backend
    &&& new_r.backend_code == old_r.backend_code
    &&& new_r.width == old_r.width
    &&& new_r.height == old_r.height
    &&& new_r.present == Some(target)
    &&& new_r.viewport_image == old_r.viewport_image
    &&& new_r.animation_running == old_r.animation_running
    &&& new_r.clear_color == old_r.clear_color
    &&& new_r.scene == old_r.scene
}

/// The present target must be (re)created for a `width` × `height` frame:
/// there is none, or its extent differs.
pub open spec fn needs_present_recreate<P>(r: Renderer<P>, width: u32, height: u32) -> bool {
    match r.present {
        Some(t) => t.width != width || t.height != height,
        None => true,
    }
}

/// The frame command of a renderer with a present target: its viewport and
/// extent, whether the frame is copied into a shared present texture, and
/// everything the scene renders with (animation flag, clear colour, scene
/// parameters). Without a present target there is nothing to render into,
/// so no frame is rendered.
pub open spec fn frame_of<P>(r: Renderer<P>) -> Option<RenderCmd> {
    match r.present {
        Some(t) => Some(
            RenderCmd::RenderFrame {
                image: r.viewport_image,
                copy_to_shared: t.has_shared_texture,
                width: r.width,
                height: r.height,
                animation_running: r.animation_running,
                clear_color: r.clear_color,
                scene: r.scene,
            },
        ),
        None => None,
    }
}

/// Whether a rendered frame reached a present target: it had one to copy into
/// and the render thread had the viewport's image ready to copy from.
pub open spec fn frame_reached_target(copy_target: bool, image_ready: bool) -> bool {
    copy_target && image_ready
}

/// The answer of a frame request on the render thread: `true` only when the
/// frame was copied into a present target.
pub fn frame_outcome(copy_target: bool, image_ready: bool) -> (r: bool)
    ensures
        r == frame_reached_target(copy_target, image_ready),
{
    copy_target && image_ready
}

impl<P> Renderer<P> {
    /// A renderer for the viewport `viewport_image` on the given device,
    /// rendering a scene with the parameters `scene` (see
    /// [`SceneParams::for_name`]).
    pub fn new(
        backend: BackendInfo,
        backend_code: u8,
        width: u32,
        height: u32,
        viewport_image: u64,
        scene: SceneParams,
    ) -> (r: Self)
        ensures
            fresh_renderer(r, backend, backend_code, width, height, viewport_image, scene),
    {
        Renderer {
            backend,
            backend_code,
            width: clamp_extent(width),
            height: clamp_extent(height),
            present: None,
            viewport_image,
            animation_running: true,
            clear_color: [CLEAR_RED_BITS, CLEAR_GREEN_BITS, CLEAR_BLUE_BITS, CLEAR_ALPHA_BITS],
            scene,
        }
    }

    /// Resize the viewport; returns the command that resizes its image.
    pub fn resize(&mut self, width: u32, height: u32) -> (cmd: RenderCmd)
        ensures
            resized(*old(self), *final(self), width, height),
            cmd == (RenderCmd::ResizeViewport {
                image: old(self).viewport_image,
                width: at_least_one(width),
                height: at_least_one(height),
            }),
    {
        self.width = clamp_extent(width);
        self.height = clamp_extent(height);
        RenderCmd::ResizeViewport { image: self.viewport_image, width: self.width, height: self.height }
    }

    /// Apply a boolean parameter: `animation_running`, else the scene's.
    pub fn set_bool_param(&mut self, key: &str, value: bool)
        ensures
            bool_param_applied(*old(self), *final(self), key@, value),
    {
        if text_eq(key, "animation_running") {
            self.animation_running = value;
        } else {
            self.scene.set_bool_param(key, value);
        }
    }

    /// Apply a float parameter (its bit pattern) to the scene.
    pub fn set_float_param(&mut self, key: &str, value: u32)
        ensures
            float_param_applied(*old(self), *final(self), key@, value),
    {
        self.scene.set_float_param(key, value);
    }

    /// Apply a four-component parameter: `background_color`, else the scene's.
    pub fn set_vec4_param(&mut self, key: &str, value: [u32; 4])
        ensures
            vec4_param_applied(*old(self), *final(self), key@, value),
    {
        if text_eq(key, "background_color") {
            self.clear_color = value;
        } else {
            self.scene.set_vec4_param(key, value);
        }
    }

    /// Run a named command: `reset_scene` restores the defaults, and the
    /// scene runs every command.
    pub fn invoke_command(&mut self, command: &str, payload: &str)
        ensures
            command_applied(*old(self), *final(self), command@),
    {
        if text_eq(command, "reset_scene") {
            self.animation_running = true;
            self.clear_color = [CLEAR_RED_BITS, CLEAR_GREEN_BITS, CLEAR_BLUE_BITS, CLEAR_ALPHA_BITS];
        }
        let _ = self.scene.invoke_command(command, payload);
    }

    /// Set the scene's clock after a rendered frame, if the frame animates it.
    pub fn advance_clock(&mut self, clock: u32)
        ensures
            clock_advanced(*old(self), *final(self), clock),
    {
        if self.scene.animates(self.animation_running) {
            self.scene.set_clock(clock);
        }
    }

    /// The command rendering one frame of this renderer, `None` without a
    /// present target.
    pub fn render(&self) -> (cmd: Option<RenderCmd>)
        ensures
            cmd == frame_of(*self),
    {
        match &self.present {
            Some(t) => Some(
                RenderCmd::RenderFrame {
                    image: self.viewport_image,
                    copy_to_shared: t.has_shared_texture,
                    width: self.width,
                    height: self.height,
                    animation_running: self.animation_running,
                    clear_color: self.clear_color,
                    scene: self.scene,
                },
            ),
            None => None,
        }
    }
}

/// Error of attaching a Metal texture on macOS: the shared-device renderer
/// has no Metal present path yet.
pub open spec fn metal_present_unsupported() -> Seq<char> {
    "Metal present not yet supported with Bevy renderer"@
}

/// Error of creating a DXGI surface on Windows: the shared-device renderer
/// has no DXGI present path yet.
pub open spec fn dxgi_present_unsupported() -> Seq<char> {
    "DXGI present not yet supported with Bevy renderer"@
}

/// Attaching a Metal texture where Metal exists: not supported by the
/// shared-device renderer, so it always fails.
pub fn attach_metal_texture(handle: u64, mtl_texture_ptr: usize, width: u32, height: u32, bytes_per_row: u32) -> (r: Result<(), String>)
    ensures
        r matches Err(e) && e@ == metal_present_unsupported(),
{
    Err(String::from_str("Metal present not yet supported with Bevy renderer"))
}

/// Creating a DXGI shared surface where DXGI exists: not supported by the
/// shared-device renderer, so it always fails.
pub fn create_dxgi_surface(handle: u64, width: u32, height: u32) -> (r: Result<usize, String>)
    ensures
        r matches Err(e) && e@ == dxgi_present_unsupported(),
{
    Err(String::from_str("DXGI present not yet supported with Bevy renderer"))
}

/// Error for a handle that names no renderer.
pub open spec fn handle_not_found() -> Seq<char> {
    "renderer handle not found"@
}

/// `r` is the error for a handle that names no renderer.
pub open spec fn is_not_found<T>(r: Result<T, String>) -> bool {
    r matches Err(msg) && msg@ == handle_not_found()
}

/// The error for a handle that names no renderer.
pub fn not_found() -> (r: String)
    ensures
        r@ == handle_not_found(),
{
    String::from_str("renderer handle not found")
}

/// The registry of live renderers, keyed by handle. Handles start at 1 and
/// are never reused.
pub struct Engine<P> {
    renderers: HashMap<u64, Renderer<P>>,
    next_handle: u64,
    issued: Ghost<Set<u64>>,
}

/// `r` is the outcome of a request that only needs the handle to be known:
/// `ok` when it is, the not-found error when it is not.
pub open spec fn handled<P, T>(e: Map<u64, Renderer<P>>, handle: u64, r: Result<T, String>, ok: T) -> bool {
    if e.contains_key(handle) {
        r == Ok::<T, String>(ok)
    } else {
        is_not_found(r)
    }
}

/// `r` is the outcome of a request that updates the renderer `handle` as
/// `applied` says: the map changes only there, and an unknown handle changes
/// nothing and is reported.
pub open spec fn updated<P>(
    before: Map<u64, Renderer<P>>,
    after: Map<u64, Renderer<P>>,
    handle: u64,
    r: Result<(), String>,
    applied: spec_fn(Renderer<P>, Renderer<P>) -> bool,
) -> bool {
    if before.contains_key(handle) {
        &&& r == Ok::<(), String>(())
        &&& after.dom() == before.dom()
        &&& applied(before[handle], after[handle])
        &&& forall|h: u64| #[trigger] after.contains_key(h) && h != handle ==> after[h] == before[h]
    } else {
        &&& is_not_found(r)
        &&& after == before
    }
}

/// Replacing the renderer of a live handle keeps the set of handles and every
/// other renderer.
proof fn lemma_replace_renderer<P>(m: Map<u64, Renderer<P>>, handle: u64, r: Renderer<P>)
    requires
        m.contains_key(handle),
    ensures
        m.remove(handle).insert(handle, r).dom() == m.dom(),
        m.remove(handle).insert(handle, r)[handle] == r,
        forall|h: u64| #[trigger] m.remove(handle).insert(handle, r).contains_key(h) && h != handle
            ==> m.remove(handle).insert(handle, r)[h] == m[h],
{
    assert(m.remove(handle).insert(handle, r).dom() =~= m.dom());
}

impl<P> Engine<P> {
    #[verifier::type_invariant]
    spec fn handles_below_next(&self) -> bool {
        &&& self.next_handle >= 1
        &&& forall|h: u64| #[trigger] self.renderers@.contains_key(h) ==> self.issued@.contains(h)
        &&& forall|h: u64| #[trigger] self.issued@.contains(h) ==> 1 <= h < self.next_handle
    }

    /// Every handle handed out so far, live or disposed.
    pub closed spec fn issued_handles(&self) -> Set<u64> {
        self.issued@
    }

    /// The live renderers by handle.
    pub closed spec fn renderers(&self) -> Map<u64, Renderer<P>> {
        self.renderers@
    }

    /// The handle the next created renderer receives.
    pub closed spec fn next_handle_value(&self) -> u64 {
        self.next_handle
    }

    /// An empty registry whose first handle is 1.
    pub fn new() -> (e: Self)
        ensures
            e.renderers() == Map::<u64, Renderer<P>>::empty(),
            e.next_handle_value() == 1,
            e.issued_handles() == Set::<u64>::empty(),
    {
        Engine { renderers: HashMap::new(), next_handle: 1, issued: Ghost(Set::empty()) }
    }

    /// There is a handle left for another renderer.
    pub fn has_free_handle(&self) -> (r: bool)
        ensures
            r == (self.next_handle_value() < u64::MAX),
    {
        self.next_handle < u64::MAX
    }

    /// Hand out the next handle.
    fn next_handle(&mut self) -> (handle: u64)
        requires
            old(self).next_handle_value() < u64::MAX,
        ensures
            handle == old(self).next_handle_value(),
            final(self).next_handle_value() == handle + 1,
            final(self).renderers() == old(self).renderers(),
            !old(self).renderers().contains_key(handle),
            !old(self).issued_handles().contains(handle),
            handle >= 1,
            final(self).issued_handles() == old(self).issued_handles().insert(handle),
    {
        proof {
            use_type_invariant(&*self);
        }
        let handle = self.next_handle;
        self.next_handle = handle + 1;
        self.issued = Ghost(self.issued@.insert(handle));
        handle
    }

    /// Register a renderer for the viewport `viewport_image` and return its
    /// handle, which no live renderer has.
    pub fn engine_create(
        &mut self,
        width: u32,
        height: u32,
        backend: BackendInfo,
        backend_code: u8,
        viewport_image: u64,
        scene: SceneParams,
    ) -> (handle: u64)
        requires
            old(self).next_handle_value() < u64::MAX,
        ensures
            handle == old(self).next_handle_value(),
            handle >= 1,
            !old(self).renderers().contains_key(handle),
            !old(self).issued_handles().contains(handle),
            final(self).issued_handles() == old(self).issued_handles().insert(handle),
            final(self).next_handle_value() == handle + 1,
            final(self).renderers().dom() == old(self).renderers().dom().insert(handle),
            fresh_renderer(final(self).renderers()[handle], backend, backend_code, width, height, viewport_image, scene),
            forall|h: u64| #[trigger] old(self).renderers().contains_key(h) ==> final(self).renderers()[h]
                == old(self).renderers()[h],
    {
        proof {
            use_type_invariant(&*self);
        }
        let renderer = Renderer::new(backend, backend_code, width, height, viewport_image, scene);
        let handle = self.next_handle();
        let mut map = HashMap::new();
        std::mem::swap(&mut map, &mut self.renderers);
        map.insert(handle, renderer);
        self.renderers = map;
        handle
    }

    /// Register a renderer and describe it, as `create_renderer` answers Dart.
    pub fn create_renderer(
        &mut self,
        width: u32,
        height: u32,
        backend: BackendInfo,
        backend_code: u8,
        viewport_image: u64,
        scene: SceneParams,
    ) -> (info: RendererInfo)
        requires
            old(self).next_handle_value() < u64::MAX,
        ensures
            info.handle == old(self).next_handle_value(),
            info.handle >= 1,
            !old(self).issued_handles().contains(info.handle),
            final(self).issued_handles() == old(self).issued_handles().insert(info.handle),
            info.backend == backend,
            final(self).next_handle_value() == info.handle + 1,
            final(self).renderers().dom() == old(self).renderers().dom().insert(info.handle),
            fresh_renderer(final(self).renderers()[info.handle], backend, backend_code, width, height, viewport_image, scene),
            forall|h: u64| #[trigger] old(self).renderers().contains_key(h) ==> final(self).renderers()[h]
                == old(self).renderers()[h],
    {
        let kept = BackendInfo {
            backend: backend.backend.clone(),
            device_name: backend.device_name.clone(),
            driver: backend.driver.clone(),
        };
        let handle = self.engine_create(width, height, backend, backend_code, viewport_image, scene);
        RendererInfo { handle, backend: kept }
    }

    /// Drop the renderer `handle`; returns the command disposing its viewport
    /// when there was one.
    pub fn engine_dispose(&mut self, handle: u64) -> (cmd: Option<RenderCmd>)
        ensures
            final(self).renderers() == old(self).renderers().remove(handle),
            final(self).next_handle_value() == old(self).next_handle_value(),
            final(self).issued_handles() == old(self).issued_handles(),
            old(self).renderers().contains_key(handle) ==> 1 <= handle < old(self).next_handle_value(),
            match cmd {
                Some(c) => old(self).renderers().contains_key(handle)
                    && c == (RenderCmd::DisposeViewport { image: old(self).renderers()[handle].viewport_image }),
                None => !old(self).renderers().contains_key(handle),
            },
    {
        proof {
            use_type_invariant(&*self);
        }
        match self.take_renderer(handle) {
            Some(r) => Some(RenderCmd::DisposeViewport { image: r.viewport_image }),
            None => None,
        }
    }

    /// The renderer `handle`, if it is live.
    pub fn lookup_renderer(&self, handle: u64) -> (r: Option<&Renderer<P>>)
        ensures
            match r {
                Some(x) => self.renderers().contains_key(handle) && *x == self.renderers()[handle],
                None => !self.renderers().contains_key(handle),
            },
    {
        self.renderers.get(&handle)
    }

    /// The viewport image of the renderer `handle`, or the not-found error.
    fn viewport_of(&self, handle: u64) -> (r: Result<u64, String>)
        ensures
            self.renderers().contains_key(handle) ==> r == Ok::<u64, String>(
                self.renderers()[handle].viewport_image,
            ),
            !self.renderers().contains_key(handle) ==> is_not_found(r),
    {
        match self.renderers.get(&handle) {
            Some(r) => Ok(r.viewport_image),
            None => Err(not_found()),
        }
    }

    /// The renderer's device description.
    pub fn renderer_backend_info(&self, handle: u64) -> (r: Result<BackendInfo, String>)
        ensures
            self.renderers().contains_key(handle) ==> r == Ok::<BackendInfo, String>(
                self.renderers()[handle].backend,
            ),
            !self.renderers().contains_key(handle) ==> is_not_found(r),
    {
        match self.renderers.get(&handle) {
            Some(r) => Ok(
                BackendInfo {
                    backend: r.backend.backend.clone(),
                    device_name: r.backend.device_name.clone(),
                    driver: r.backend.driver.clone(),
                },
            ),
            None => Err(not_found()),
        }
    }

    /// The backend code of the renderer's device, unknown for a dead handle.
    pub fn backend_code_for_handle(&self, handle: u64) -> (r: u8)
        ensures
            r == (if self.renderers().contains_key(handle) {
                self.renderers()[handle].backend_code
            } else {
                BACKEND_UNKNOWN
            }),
    {
        match self.renderers.get(&handle) {
            Some(r) => r.backend_code,
            None => BACKEND_UNKNOWN,
        }
    }

    /// The command rendering one frame of the renderer `handle`: `Ok(None)`
    /// when it has no present target, so no frame is rendered and the request
    /// answers `false`.
    pub fn render_frame(&self, handle: u64) -> (r: Result<Option<RenderCmd>, String>)
        ensures
            self.renderers().contains_key(handle) ==> r == Ok::<Option<RenderCmd>, String>(
                frame_of(self.renderers()[handle]),
            ),
            !self.renderers().contains_key(handle) ==> is_not_found(r),
    {
        match self.renderers.get(&handle) {
            Some(r) => Ok(r.render()),
            None => Err(not_found()),
        }
    }

    /// Take the renderer `handle` out, change it with `f`-like code in the
    /// caller, and put it back: this is the common update path.
    fn take_renderer(&mut self, handle: u64) -> (r: Option<Renderer<P>>)
        ensures
            final(self).next_handle_value() == old(self).next_handle_value(),
            final(self).issued_handles() == old(self).issued_handles(),
            r is Some ==> old(self).issued_handles().contains(handle),
            final(self).renderers() == old(self).renderers().remove(handle),
            match r {
                Some(x) => old(self).renderers().contains_key(handle) && x == old(self).renderers()[handle],
                None => !old(self).renderers().contains_key(handle) && final(self).renderers() == old(
                    self,
                ).renderers(),
            },
    {
        proof {
            use_type_invariant(&*self);
        }
        let mut map = HashMap::new();
        std::mem::swap(&mut map, &mut self.renderers);
        let r = map.remove(&handle);
        proof {
            if r is None {
                assert(map@ =~= old(self).renderers());
            }
        }
        self.renderers = map;
        r
    }

    fn put_renderer(&mut self, handle: u64, r: Renderer<P>)
        requires
            old(self).issued_handles().contains(handle),
        ensures
            final(self).next_handle_value() == old(self).next_handle_value(),
            final(self).issued_handles() == old(self).issued_handles(),
            final(self).renderers() == old(self).renderers().insert(handle, r),
    {
        proof {
            use_type_invariant(&*self);
        }
        let mut map = HashMap::new();
        std::mem::swap(&mut map, &mut self.renderers);
        map.insert(handle, r);
        self.renderers = map;
    }

    /// Apply a boolean parameter to the renderer `handle`.
    pub fn set_bool_param(&mut self, handle: u64, key: &str, value: bool) -> (r: Result<(), String>)
        ensures
            final(self).next_handle_value() == old(self).next_handle_value(),
            final(self).issued_handles() == old(self).issued_handles(),
            updated(
                old(self).renderers(),
                final(self).renderers(),
                handle,
                r,
                |a: Renderer<P>, b: Renderer<P>| bool_param_applied(a, b, key@, value),
            ),
    {
        proof {
            use_type_invariant(&*self);
        }
        match self.take_renderer(handle) {
            Some(mut renderer) => {
                renderer.set_bool_param(key, value);
                proof {
                    lemma_replace_renderer(old(self).renderers(), handle, renderer);
                }
                self.put_renderer(handle, renderer);
                Ok(())
            },
            None => Err(not_found()),
        }
    }

    /// Start or stop the animation of the renderer `handle`.
    pub fn set_animation_running(&mut self, handle: u64, running: bool) -> (r: Result<(), String>)
        ensures
            final(self).next_handle_value() == old(self).next_handle_value(),
            final(self).issued_handles() == old(self).issued_handles(),
            updated(
                old(self).renderers(),
                final(self).renderers(),
                handle,
                r,
                |a: Renderer<P>, b: Renderer<P>| bool_param_applied(a, b, "animation_running"@, running),
            ),
    {
        self.set_bool_param(handle, "animation_running", running)
    }

    /// Apply a float parameter (given as its bit pattern) to the scene of the
    /// renderer `handle`.
    pub fn set_float_param(&mut self, handle: u64, key: &str, value: u32) -> (r: Result<(), String>)
        ensures
            final(self).next_handle_value() == old(self).next_handle_value(),
            final(self).issued_handles() == old(self).issued_handles(),
            updated(
                old(self).renderers(),
                final(self).renderers(),
                handle,
                r,
                |a: Renderer<P>, b: Renderer<P>| float_param_applied(a, b, key@, value),
            ),
    {
        proof {
            use_type_invariant(&*self);
        }
        match self.take_renderer(handle) {
            Some(mut renderer) => {
                renderer.set_float_param(key, value);
                proof {
                    lemma_replace_renderer(old(self).renderers(), handle, renderer);
                }
                self.put_renderer(handle, renderer);
                Ok(())
            },
            None => Err(not_found()),
        }
    }

    /// After a rendered frame, set the scene clock of the renderer `handle` to
    /// `clock` (the bit pattern of the clock the frame advanced to); a frame
    /// that does not animate the scene leaves it as it was.
    pub fn advance_scene_clock(&mut self, handle: u64, clock: u32) -> (r: Result<(), String>)
        ensures
            final(self).next_handle_value() == old(self).next_handle_value(),
            final(self).issued_handles() == old(self).issued_handles(),
            updated(
                old(self).renderers(),
                final(self).renderers(),
                handle,
                r,
                |a: Renderer<P>, b: Renderer<P>| clock_advanced(a, b, clock),
            ),
    {
        proof {
            use_type_invariant(&*self);
        }
        match self.take_renderer(handle) {
            Some(mut renderer) => {
                renderer.advance_clock(clock);
                proof {
                    lemma_replace_renderer(old(self).renderers(), handle, renderer);
                }
                self.put_renderer(handle, renderer);
                Ok(())
            },
            None => Err(not_found()),
        }
    }

    /// Apply a four-component parameter (bit patterns) to the renderer `handle`.
    pub fn set_vec4_param(&mut self, handle: u64, key: &str, value: [u32; 4]) -> (r: Result<(), String>)
        ensures
            final(self).next_handle_value() == old(self).next_handle_value(),
            final(self).issued_handles() == old(self).issued_handles(),
            updated(
                old(self).renderers(),
                final(self).renderers(),
                handle,
                r,
                |a: Renderer<P>, b: Renderer<P>| vec4_param_applied(a, b, key@, value),
            ),
    {
        proof {
            use_type_invariant(&*self);
        }
        match self.take_renderer(handle) {
            Some(mut renderer) => {
                renderer.set_vec4_param(key, value);
                proof {
                    lemma_replace_renderer(old(self).renderers(), handle, renderer);
                }
                self.put_renderer(handle, renderer);
                Ok(())
            },
            None => Err(not_found()),
        }
    }

    /// Run a named command on the renderer `handle`.
    pub fn invoke_command(&mut self, handle: u64, command: &str, payload: &str) -> (r: Result<(), String>)
        ensures
            final(self).next_handle_value() == old(self).next_handle_value(),
            final(self).issued_handles() == old(self).issued_handles(),
            updated(
                old(self).renderers(),
                final(self).renderers(),
                handle,
                r,
                |a: Renderer<P>, b: Renderer<P>| command_applied(a, b, command@),
            ),
    {
        proof {
            use_type_invariant(&*self);
        }
        match self.take_renderer(handle) {
            Some(mut renderer) => {
                renderer.invoke_command(command, payload);
                proof {
                    lemma_replace_renderer(old(self).renderers(), handle, renderer);
                }
                self.put_renderer(handle, renderer);
                Ok(())
            },
            None => Err(not_found()),
        }
    }

    /// Resize the renderer `handle`; returns the command resizing its viewport.
    pub fn resize_renderer(&mut self, handle: u64, width: u32, height: u32) -> (r: Result<RenderCmd, String>)
        ensures
            final(self).next_handle_value() == old(self).next_handle_value(),
            final(self).issued_handles() == old(self).issued_handles(),
            old(self).renderers().contains_key(handle) ==> {
                &&& r == Ok::<RenderCmd, String>(
                    RenderCmd::ResizeViewport {
                        image: old(self).renderers()[handle].viewport_image,
                        width: at_least_one(width),
                        height: at_least_one(height),
                    },
                )
                &&& final(self).renderers().dom() == old(self).renderers().dom()
                &&& resized(old(self).renderers()[handle], final(self).renderers()[handle], width, height)
                &&& forall|h: u64| #[trigger] final(self).renderers().contains_key(h) && h != handle
                    ==> final(self).renderers()[h] == old(self).renderers()[h]
            },
            !old(self).renderers().contains_key(handle) ==> {
                &&& is_not_found(r)
                &&& final(self).renderers() == old(self).renderers()
            },
    {
        proof {
            use_type_invariant(&*self);
        }
        match self.take_renderer(handle) {
            Some(mut renderer) => {
                let cmd = renderer.resize(width, height);
                proof {
                    lemma_replace_renderer(old(self).renderers(), handle, renderer);
                }
                self.put_renderer(handle, renderer);
                Ok(cmd)
            },
            None => Err(not_found()),
        }
    }

    /// First half of making sure the renderer `handle` has a present target of
    /// `width` × `height`: `Ok(None)` when the current one fits; otherwise the
    /// renderer is resized and the viewport resize command returned, after which
    /// the caller creates the target and hands it to [`Engine::attach_present`].
    pub fn ensure_linux_present(&mut self, handle: u64, width: u32, height: u32) -> (r: Result<
        Option<RenderCmd>,
        String,
    >)
        ensures
            final(self).next_handle_value() == old(self).next_handle_value(),
            final(self).issued_handles() == old(self).issued_handles(),
            final(self).renderers().dom() == old(self).renderers().dom(),
            forall|h: u64| #[trigger] final(self).renderers().contains_key(h) && h != handle
                ==> final(self).renderers()[h] == old(self).renderers()[h],
            !old(self).renderers().contains_key(handle) ==> is_not_found(r),
            old(self).renderers().contains_key(handle) && !needs_present_recreate(
                old(self).renderers()[handle],
                width,
                height,
            ) ==> r == Ok::<Option<RenderCmd>, String>(None) && final(self).renderers() == old(
                self,
            ).renderers(),
            old(self).renderers().contains_key(handle) && needs_present_recreate(
                old(self).renderers()[handle],
                width,
                height,
            ) ==> {
                &&& r == Ok::<Option<RenderCmd>, String>(
                    Some(
                        RenderCmd::ResizeViewport {
                            image: old(self).renderers()[handle].viewport_image,
                            width: at_least_one(width),
                            height: at_least_one(height),
                        },
                    ),
                )
                &&& resized(old(self).renderers()[handle], final(self).renderers()[handle], width, height)
            },
    {
        proof {
            use_type_invariant(&*self);
        }
        let needs = match self.renderers.get(&handle) {
            None => {
                return Err(not_found());
            },
            Some(r) => match &r.present {
                Some(t) => t.width != width || t.height != height,
                None => true,
            },
        };
        if !needs {
            return Ok(None);
        }
        match self.take_renderer(handle) {
            Some(mut renderer) => {
                let cmd = renderer.resize(width, height);
                proof {
                    lemma_replace_renderer(old(self).renderers(), handle, renderer);
                }
                self.put_renderer(handle, renderer);
                Ok(Some(cmd))
            },
            None => Err(not_found()),
        }
    }

    /// Second half of [`Engine::ensure_linux_present`]: install the newly
    /// created present target on the renderer `handle`. The target has the
    /// extent the renderer was just resized to.
    pub fn attach_present(&mut self, handle: u64, target: PresentTarget<P>) -> (r: Result<(), String>)
        requires
            old(self).renderers().contains_key(handle) ==> target.width == old(self).renderers()[handle].width
                && target.height == old(self).renderers()[handle].height,
        ensures
            final(self).next_handle_value() == old(self).next_handle_value(),
            final(self).issued_handles() == old(self).issued_handles(),
            updated(
                old(self).renderers(),
                final(self).renderers(),
                handle,
                r,
                |a: Renderer<P>, b: Renderer<P>| present_attached(a, b, target),
            ),
    {
        proof {
            use_type_invariant(&*self);
        }
        match self.take_renderer(handle) {
            Some(mut renderer) => {
                renderer.present = Some(target);
                proof {
                    lemma_replace_renderer(old(self).renderers(), handle, renderer);
                }
                self.put_renderer(handle, renderer);
                Ok(())
            },
            None => Err(not_found()),
        }
    }

    /// The present target to export a DMA-BUF frame from: `Ok(None)` when the
    /// renderer has no target or its target holds no DMA-BUF image.
    pub fn export_dmabuf(&self, handle: u64) -> (r: Result<Option<&PresentTarget<P>>, String>)
        ensures
            !self.renderers().contains_key(handle) ==> is_not_found(r),
            self.renderers().contains_key(handle) ==> match r {
                Ok(Some(t)) => self.renderers()[handle].present == Some(*t) && t.has_dma_buf_image,
                Ok(None) => match self.renderers()[handle].present {
                    Some(t) => !t.has_dma_buf_image,
                    None => true,
                },
                Err(_) => false,
            },
    {
        match self.renderers.get(&handle) {
            None => Err(not_found()),
            Some(r) => match &r.present {
                None => Ok(None),
                Some(t) => if t.has_dma_buf_image {
                    Ok(Some(t))
                } else {
                    Ok(None)
                },
            },
        }
    }

    /// Check the handle before asking the device whether DMA-BUF export is
    /// supported.
    pub fn linux_dmabuf_supported(&self, handle: u64) -> (r: Result<(), String>)
        ensures
            handled(self.renderers(), handle, r, ()),
    {
        match self.renderers.get(&handle) {
            Some(_) => Ok(()),
            None => Err(not_found()),
        }
    }

    /// The command replacing the scene with the editor's JSON scene tree.
    pub fn set_scene(&self, handle: u64, json: &str) -> (r: Result<RenderCmd, String>)
        ensures
            self.renderers().contains_key(handle) ==> (r matches Ok(RenderCmd::SetScene { json: j }) && j@ == json@),
            !self.renderers().contains_key(handle) ==> is_not_found(r),
    {
        match self.renderers.get(&handle) {
            Some(_) => Ok(RenderCmd::SetScene { json: String::from_str(json) }),
            None => Err(not_found()),
        }
    }

    /// The command listing the registered component types.
    pub fn list_component_types(&self, handle: u64) -> (r: Result<RenderCmd, String>)
        ensures
            handled(self.renderers(), handle, r, RenderCmd::ListComponentTypes),
    {
        match self.renderers.get(&handle) {
            Some(_) => Ok(RenderCmd::ListComponentTypes),
            None => Err(not_found()),
        }
    }

    /// The command describing one component type.
    pub fn describe_component(&self, handle: u64, type_path: &str) -> (r: Result<RenderCmd, String>)
        ensures
            self.renderers().contains_key(handle) ==> (r matches Ok(
                RenderCmd::DescribeComponent { type_path: t },
            ) && t@ == type_path@),
            !self.renderers().contains_key(handle) ==> is_not_found(r),
    {
        match self.renderers.get(&handle) {
            Some(_) => Ok(RenderCmd::DescribeComponent { type_path: String::from_str(type_path) }),
            None => Err(not_found()),
        }
    }

    /// The command saving the scene to a file.
    pub fn save_scene(&self, handle: u64, path: &str) -> (r: Result<RenderCmd, String>)
        ensures
            self.renderers().contains_key(handle) ==> (r matches Ok(RenderCmd::SaveScene { path: p }) && p@ == path@),
            !self.renderers().contains_key(handle) ==> is_not_found(r),
    {
        match self.renderers.get(&handle) {
            Some(_) => Ok(RenderCmd::SaveScene { path: String::from_str(path) }),
            None => Err(not_found()),
        }
    }

    /// The command loading a scene file.
    pub fn load_scene(&self, handle: u64, path: &str) -> (r: Result<RenderCmd, String>)
        ensures
            self.renderers().contains_key(handle) ==> (r matches Ok(RenderCmd::LoadScene { path: p }) && p@ == path@),
            !self.renderers().contains_key(handle) ==> is_not_found(r),
    {
        match self.renderers.get(&handle) {
            Some(_) => Ok(RenderCmd::LoadScene { path: String::from_str(path) }),
            None => Err(not_found()),
        }
    }

    /// The command picking the entity under a viewport pixel.
    pub fn pick(&self, handle: u64, x: u32, y: u32) -> (r: Result<RenderCmd, String>)
        ensures
            self.renderers().contains_key(handle) ==> r == Ok::<RenderCmd, String>(
                RenderCmd::Pick { image: self.renderers()[handle].viewport_image, x, y },
            ),
            !self.renderers().contains_key(handle) ==> is_not_found(r),
    {
        let image = self.viewport_of(handle)?;
        Ok(RenderCmd::Pick { image, x, y })
    }

    /// The command selecting an entity by editor id (`None` clears).
    pub fn select_entity(&self, handle: u64, id: Option<String>) -> (r: Result<RenderCmd, String>)
        ensures
            handled(self.renderers(), handle, r, RenderCmd::SelectEntity { id }),
    {
        match self.renderers.get(&handle) {
            Some(_) => Ok(RenderCmd::SelectEntity { id }),
            None => Err(not_found()),
        }
    }

    /// The command setting the transform gizmo mode.
    pub fn set_gizmo_mode(&self, handle: u64, mode: &str) -> (r: Result<RenderCmd, String>)
        ensures
            self.renderers().contains_key(handle) ==> (r matches Ok(RenderCmd::SetGizmoMode { mode: m }) && m@ == mode@),
            !self.renderers().contains_key(handle) ==> is_not_found(r),
    {
        match self.renderers.get(&handle) {
            Some(_) => Ok(RenderCmd::SetGizmoMode { mode: String::from_str(mode) }),
            None => Err(not_found()),
        }
    }

    /// The command switching between editing and playing.
    pub fn set_play_mode(&self, handle: u64, mode: &str) -> (r: Result<RenderCmd, String>)
        ensures
            self.renderers().contains_key(handle) ==> (r matches Ok(RenderCmd::SetPlayMode { mode: m }) && m@ == mode@),
            !self.renderers().contains_key(handle) ==> is_not_found(r),
    {
        match self.renderers.get(&handle) {
            Some(_) => Ok(RenderCmd::SetPlayMode { mode: String::from_str(mode) }),
            None => Err(not_found()),
        }
    }

    /// The command switching the viewport view mode.
    pub fn set_view_mode(&self, handle: u64, mode: &str) -> (r: Result<RenderCmd, String>)
        ensures
            self.renderers().contains_key(handle) ==> (r matches Ok(RenderCmd::SetViewMode { mode: m }) && m@ == mode@),
            !self.renderers().contains_key(handle) ==> is_not_found(r),
    {
        match self.renderers.get(&handle) {
            Some(_) => Ok(RenderCmd::SetViewMode { mode: String::from_str(mode) }),
            None => Err(not_found()),
        }
    }

    /// The command returning the current scene.
    pub fn get_scene(&self, handle: u64) -> (r: Result<RenderCmd, String>)
        ensures
            handled(self.renderers(), handle, r, RenderCmd::GetScene),
    {
        match self.renderers.get(&handle) {
            Some(_) => Ok(RenderCmd::GetScene),
            None => Err(not_found()),
        }
    }

    /// The command orbiting the viewport camera.
    pub fn camera_orbit(&self, handle: u64, dx: u32, dy: u32) -> (r: Result<RenderCmd, String>)
        ensures
            self.renderers().contains_key(handle) ==> r == Ok::<RenderCmd, String>(
                RenderCmd::CameraOrbit { image: self.renderers()[handle].viewport_image, dx, dy },
            ),
            !self.renderers().contains_key(handle) ==> is_not_found(r),
    {
        let image = self.viewport_of(handle)?;
        Ok(RenderCmd::CameraOrbit { image, dx, dy })
    }

    /// The command panning the viewport camera.
    pub fn camera_pan(&self, handle: u64, dx: u32, dy: u32) -> (r: Result<RenderCmd, String>)
        ensures
            self.renderers().contains_key(handle) ==> r == Ok::<RenderCmd, String>(
                RenderCmd::CameraPan { image: self.renderers()[handle].viewport_image, dx, dy },
            ),
            !self.renderers().contains_key(handle) ==> is_not_found(r),
    {
        let image = self.viewport_of(handle)?;
        Ok(RenderCmd::CameraPan { image, dx, dy })
    }

    /// The command zooming the viewport camera.
    pub fn camera_zoom(&self, handle: u64, delta: u32) -> (r: Result<RenderCmd, String>)
        ensures
            self.renderers().contains_key(handle) ==> r == Ok::<RenderCmd, String>(
                RenderCmd::CameraZoom { image: self.renderers()[handle].viewport_image, delta },
            ),
            !self.renderers().contains_key(handle) ==> is_not_found(r),
    {
        let image = self.viewport_of(handle)?;
        Ok(RenderCmd::CameraZoom { image, delta })
    }

    /// The command turning the viewport camera in place.
    pub fn camera_look(&self, handle: u64, dx: u32, dy: u32) -> (r: Result<RenderCmd, String>)
        ensures
            self.renderers().contains_key(handle) ==> r == Ok::<RenderCmd, String>(
                RenderCmd::CameraLook { image: self.renderers()[handle].viewport_image, dx, dy },
            ),
            !self.renderers().contains_key(handle) ==> is_not_found(r),
    {
        let image = self.viewport_of(handle)?;
        Ok(RenderCmd::CameraLook { image, dx, dy })
    }

    /// The command flying the viewport camera along its axes.
    pub fn camera_fly(&self, handle: u64, forward: u32, right: u32, up: u32, dt: u32) -> (r: Result<
        RenderCmd,
        String,
    >)
        ensures
            self.renderers().contains_key(handle) ==> r == Ok::<RenderCmd, String>(
                RenderCmd::CameraFly { image: self.renderers()[handle].viewport_image, forward, right, up, dt },
            ),
            !self.renderers().contains_key(handle) ==> is_not_found(r),
    {
        let image = self.viewport_of(handle)?;
        Ok(RenderCmd::CameraFly { image, forward, right, up, dt })
    }

    /// The command starting a gizmo drag at a viewport pixel.
    pub fn drag_begin(&self, handle: u64, x: u32, y: u32) -> (r: Result<RenderCmd, String>)
        ensures
            self.renderers().contains_key(handle) ==> r == Ok::<RenderCmd, String>(
                RenderCmd::DragBegin { image: self.renderers()[handle].viewport_image, x, y },
            ),
            !self.renderers().contains_key(handle) ==> is_not_found(r),
    {
        let image = self.viewport_of(handle)?;
        Ok(RenderCmd::DragBegin { image, x, y })
    }

    /// The command continuing a gizmo drag.
    pub fn drag_update(&self, handle: u64, x: u32, y: u32) -> (r: Result<RenderCmd, String>)
        ensures
            self.renderers().contains_key(handle) ==> r == Ok::<RenderCmd, String>(
                RenderCmd::DragUpdate { image: self.renderers()[handle].viewport_image, x, y },
            ),
            !self.renderers().contains_key(handle) ==> is_not_found(r),
    {
        let image = self.viewport_of(handle)?;
        Ok(RenderCmd::DragUpdate { image, x, y })
    }

    /// The command ending the gizmo drag.
    pub fn drag_end(&self, handle: u64) -> (r: Result<RenderCmd, String>)
        ensures
            handled(self.renderers(), handle, r, RenderCmd::DragEnd),
    {
        match self.renderers.get(&handle) {
            Some(_) => Ok(RenderCmd::DragEnd),
            None => Err(not_found()),
        }
    }

    /// The command updating the hovered gizmo handle.
    pub fn set_hover(&self, handle: u64, x: u32, y: u32) -> (r: Result<RenderCmd, String>)
        ensures
            self.renderers().contains_key(handle) ==> r == Ok::<RenderCmd, String>(
                RenderCmd::SetHover { image: self.renderers()[handle].viewport_image, x, y },
            ),
            !self.renderers().contains_key(handle) ==> is_not_found(r),
    {
        let image = self.viewport_of(handle)?;
        Ok(RenderCmd::SetHover { image, x, y })
    }
}

/// Two renderers created one after the other (as [`Engine::engine_create`]
/// states each step) get different handles, the second larger than the
/// first, and both are live afterwards beside every renderer live before.
pub proof fn law_created_handles_increase<P>(
    m0: Map<u64, Renderer<P>>,
    n0: u64,
    first: u64,
    m1: Map<u64, Renderer<P>>,
    n1: u64,
    second: u64,
    m2: Map<u64, Renderer<P>>,
)
    requires
        first == n0,
        !m0.contains_key(first),
        n1 == first + 1,
        m1.dom() == m0.dom().insert(first),
        second == n1,
        !m1.contains_key(second),
        m2.dom() == m1.dom().insert(second),
    ensures
        first != second,
        first < second,
        m2.contains_key(first),
        m2.contains_key(second),
        m2.dom() == m0.dom().insert(first).insert(second),
{
}

/// One request's effect on the issued handles: a creation hands out a handle
/// not issued before and records it ([`Engine::engine_create`]); every other
/// request, disposals included, keeps the set.
pub open spec fn issue_step(before: Set<u64>, created: Option<u64>, after: Set<u64>) -> bool {
    match created {
        Some(h) => !before.contains(h) && after == before.insert(h),
        None => after == before,
    }
}

/// Along a run of requests, a handle handed out stays issued.
proof fn lemma_issued_stays(issued: Seq<Set<u64>>, created: Seq<Option<u64>>, i: int, k: int)
    requires
        issued.len() == created.len() + 1,
        forall|j: int| 0 <= j < created.len() ==> issue_step(#[trigger] issued[j], created[j], issued[j + 1]),
        0 <= i < k < issued.len(),
        created[i] is Some,
    ensures
        issued[k].contains(created[i]->0),
    decreases k - i,
{
    if k == i + 1 {
        assert(issue_step(issued[i], created[i], issued[i + 1]));
    } else {
        lemma_issued_stays(issued, created, i, k - 1);
        let m = k - 1;
        assert(issue_step(issued[m], created[m], issued[m + 1]));
    }
}

/// Handles are never reused: over any run of requests (creations,
/// disposals and every other request), the handles that creations hand out
/// are pairwise different, and each stays among the issued handles, so a
/// disposed handle is never handed out again.
pub proof fn law_handles_never_reissued(issued: Seq<Set<u64>>, created: Seq<Option<u64>>)
    requires
        issued.len() == created.len() + 1,
        forall|j: int| 0 <= j < created.len() ==> issue_step(#[trigger] issued[j], created[j], issued[j + 1]),
    ensures
        forall|i: int, j: int| 0 <= i < j < created.len() && created[i] is Some && created[j] is Some
            ==> #[trigger] created[i] != #[trigger] created[j],
        forall|i: int| 0 <= i < created.len() && created[i] is Some
            ==> issued[created.len() as int].contains(#[trigger] created[i]->0),
{
    assert forall|i: int, j: int| 0 <= i < j < created.len() && created[i] is Some && created[j] is Some
        implies #[trigger] created[i] != #[trigger] created[j] by {
        lemma_issued_stays(issued, created, i, j);
        assert(issue_step(issued[j], created[j], issued[j + 1]));
    }
    assert forall|i: int| 0 <= i < created.len() && created[i] is Some
        implies issued[created.len() as int].contains(#[trigger] created[i]->0) by {
        lemma_issued_stays(issued, created, i, created.len() as int);
    }
}

/// Once a handle is disposed, every request naming it is answered with the
/// not-found error and changes nothing.
pub proof fn law_disposed_handle_not_found<P, T>(
    before: Map<u64, Renderer<P>>,
    handle: u64,
    r: Result<T, String>,
    ok: T,
    update: Result<(), String>,
    after: Map<u64, Renderer<P>>,
    applied: spec_fn(Renderer<P>, Renderer<P>) -> bool,
)
    requires
        handled(before.remove(handle), handle, r, ok),
        updated(before.remove(handle), after, handle, update, applied),
    ensures
        is_not_found(r),
        is_not_found(update),
        after == before.remove(handle),
{
}

/// `reset_scene` restores the running animation, the default clear colour and
/// the scene's own defaults, whatever was written before, and running it
/// again changes nothing more.
pub proof fn law_reset_scene_restores_defaults<P>(a: Renderer<P>, b: Renderer<P>, c: Renderer<P>)
    requires
        command_applied(a, b, "reset_scene"@),
        command_applied(b, c, "reset_scene"@),
    ensures
        b.animation_running,
        b.clear_color == default_clear_color(),
        b.scene == scene_reset(a.scene),
        c.animation_running == b.animation_running,
        c.clear_color == b.clear_color,
        c.scene == b.scene,
        same_but_params(a, c),
{
}

/// What is written through the API reaches the next frame: after the
/// background colour, the animation flag and a scene parameter are written,
/// the frame command of a renderer with a present target renders with exactly
/// those values.
pub proof fn law_settings_reach_the_frame<P>(
    a: Renderer<P>,
    b: Renderer<P>,
    c: Renderer<P>,
    d: Renderer<P>,
    color: [u32; 4],
    running: bool,
    key: Seq<char>,
    value: u32,
)
    requires
        a.present is Some,
        vec4_param_applied(a, b, "background_color"@, color),
        bool_param_applied(b, c, "animation_running"@, running),
        float_param_applied(c, d, key, value),
    ensures
        frame_of(d) matches Some(RenderCmd::RenderFrame { clear_color, animation_running, scene, .. })
            && clear_color == color && animation_running == running
            && scene == float_applied(a.scene, key, value),
{
}

/// A stopped animation freezes the scene: a frame rendered while the
/// animation is stopped leaves the scene's clock (and every other scene
/// parameter) as it was, and the frame renders with the animation stopped.
pub proof fn law_stopped_animation_freezes_scene<P>(a: Renderer<P>, b: Renderer<P>, c: Renderer<P>, clock: u32)
    requires
        bool_param_applied(a, b, "animation_running"@, false),
        clock_advanced(b, c, clock),
    ensures
        c.scene == a.scene,
        b.present is Some ==> (frame_of(b) matches Some(RenderCmd::RenderFrame { animation_running, .. })
            && !animation_running),
{
}

/// One request on a renderer other than starting the animation or running
/// `reset_scene`: a boolean parameter other than `animation_running`, a float
/// or four-component parameter, another command, a resize, an attached
/// present target, or the clock advance of a rendered frame.
pub open spec fn step_keeps_animation_flag<P>(a: Renderer<P>, b: Renderer<P>) -> bool {
    ||| exists|key: Seq<char>, v: bool| key != "animation_running"@ && #[trigger] bool_param_applied(a, b, key, v)
    ||| exists|key: Seq<char>, v: u32| #[trigger] float_param_applied(a, b, key, v)
    ||| exists|key: Seq<char>, v: [u32; 4]| #[trigger] vec4_param_applied(a, b, key, v)
    ||| exists|c: Seq<char>| c != "reset_scene"@ && #[trigger] command_applied(a, b, c)
    ||| exists|w: u32, h: u32| #[trigger] resized(a, b, w, h)
    ||| exists|t: PresentTarget<P>| #[trigger] present_attached(a, b, t)
    ||| exists|clock: u32| #[trigger] clock_advanced(a, b, clock)
}

/// Stopping the animation holds over every later request until the animation
/// is started again or `reset_scene` runs: along any run of other requests
/// (`states[0]` just stopped, each next state one such request later), the
/// animation stays stopped, every frame renders with it stopped, and no
/// rendered frame moves the scene's clock or any other scene parameter.
pub proof fn law_stopped_animation_stays_stopped<P>(states: Seq<Renderer<P>>)
    requires
        states.len() > 0,
        !states[0].animation_running,
        forall|i: int| 0 <= i < states.len() - 1 ==> #[trigger] step_keeps_animation_flag(states[i], states[i + 1]),
    ensures
        forall|i: int| 0 <= i < states.len() ==> !(#[trigger] states[i]).animation_running,
        forall|i: int| 0 <= i < states.len() ==> match frame_of(#[trigger] states[i]) {
            Some(RenderCmd::RenderFrame { animation_running, .. }) => !animation_running,
            _ => true,
        },
        forall|i: int, clock: u32| 0 <= i < states.len() - 1 && #[trigger] clock_advanced(states[i], states[i + 1], clock)
            ==> states[i + 1].scene == states[i].scene,
    decreases states.len(),
{
    if states.len() > 1 {
        let prefix = states.drop_last();
        assert forall|i: int| 0 <= i < prefix.len() - 1 implies #[trigger] step_keeps_animation_flag(prefix[i], prefix[i + 1]) by {
            assert(prefix[i] == states[i] && prefix[i + 1] == states[i + 1]);
            assert(step_keeps_animation_flag(states[i], states[i + 1]));
        }
        law_stopped_animation_stays_stopped(prefix);
        let n = states.len() - 1;
        let m = n - 1;
        assert(prefix[m] == states[m]);
        assert(!states[m].animation_running);
        assert(step_keeps_animation_flag(states[m], states[m + 1]));
        assert(states[m + 1] == states[n]);
        assert(!states[n].animation_running);
        assert forall|i: int| 0 <= i < states.len() implies !(#[trigger] states[i]).animation_running by {
            if i < n {
                assert(prefix[i] == states[i]);
            }
        }
        assert forall|i: int, clock: u32| 0 <= i < states.len() - 1 && #[trigger] clock_advanced(states[i], states[i + 1], clock)
            implies states[i + 1].scene == states[i].scene by {
            assert(!states[i].animation_running);
        }
    }
}

/// `ensure_linux_present` is idempotent: once a call for `width` × `height`
/// (a non-empty extent; an empty one fails when the target is created) has
/// resized the renderer and the target made for it is attached, the renderer
/// needs no new target for that extent, so the same call again changes
/// nothing; a call for another extent recreates it.
pub proof fn law_ensure_present_is_idempotent<P>(
    a: Renderer<P>,
    b: Renderer<P>,
    c: Renderer<P>,
    target: PresentTarget<P>,
    width: u32,
    height: u32,
    other_width: u32,
    other_height: u32,
)
    requires
        width >= 1,
        height >= 1,
        resized(a, b, width, height),
        target.width == b.width,
        target.height == b.height,
        present_attached(b, c, target),
    ensures
        !needs_present_recreate(c, width, height),
        other_width != width || other_height != height ==> needs_present_recreate(c, other_width, other_height),
{
}

/// A new renderer has no present target, so a frame request renders nothing
/// and answers `false`; it starts with the scene parameters it was created
/// with.
pub proof fn law_no_target_no_frame<P>(
    r: Renderer<P>,
    backend: BackendInfo,
    code: u8,
    width: u32,
    height: u32,
    image: u64,
    scene: SceneParams,
)
    requires
        fresh_renderer(r, backend, code, width, height, image, scene),
    ensures
        frame_of(r) is None,
        needs_present_recreate(r, width, height),
        r.scene == scene,
{
}

} // verus!
