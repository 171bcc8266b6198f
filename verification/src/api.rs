//! Values exchanged with the Dart side and the C exports: backend and renderer
//! descriptions, the DMA-BUF export record, and the status bytes the C
//! exports return.
use vstd::prelude::*;

use crate::dmabuf::{lemma_modifier_halves_rejoin, modifier_high, modifier_low, split_modifier, DmaBufInfo};
use crate::engine::{bool_param_applied, dropped_reply_text, frame_of, receive_result_reply, ReplyKind, handle_not_found, is_not_found, updated, Engine, RenderCmd, Renderer};

verus! {

/// Graphics backend, adapter name and driver of the shared device.
#[derive(Clone, Debug)]
pub struct BackendInfo {
    pub backend: String,
    pub device_name: String,
    pub driver: String,
}

/// A freshly created renderer: its handle and the device it renders with.
#[derive(Clone, Debug)]
pub struct RendererInfo {
    pub handle: u64,
    pub backend: BackendInfo,
}

/// One exported DMA-BUF frame as handed to Dart, with the 64-bit modifier
/// split into two 32-bit halves.
#[derive(Clone, Debug)]
pub struct DmaBufExport {
    pub fd: i32,
    pub width: u32,
    pub height: u32,
    pub stride: i32,
    pub offset: i32,
    pub fourcc: i32,
    pub modifier_low: u32,
    pub modifier_high: u32,
}

/// The same record as filled in by the C export `engine_export_dmabuf`.
pub struct FfiDmaBufInfo {
    pub fd: i32,
    pub width: u32,
    pub height: u32,
    pub stride: i32,
    pub offset: i32,
    pub fourcc: i32,
    pub modifier_low: u32,
    pub modifier_high: u32,
}

/// `e` carries the fields of `info`, with its modifier split in halves.
pub open spec fn export_matches(e: DmaBufExport, info: DmaBufInfo) -> bool {
    &&& e.fd == info.fd
    &&& e.width == info.width
    &&& e.height == info.height
    &&& e.stride == info.stride
    &&& e.offset == info.offset
    &&& e.fourcc == info.fourcc
    &&& e.modifier_low == modifier_low(info.modifier)
    &&& e.modifier_high == modifier_high(info.modifier)
}

/// `f` carries the fields of `info`, with its modifier split in halves.
pub open spec fn ffi_matches(f: FfiDmaBufInfo, info: DmaBufInfo) -> bool {
    &&& f.fd == info.fd
    &&& f.width == info.width
    &&& f.height == info.height
    &&& f.stride == info.stride
    &&& f.offset == info.offset
    &&& f.fourcc == info.fourcc
    &&& f.modifier_low == modifier_low(info.modifier)
    &&& f.modifier_high == modifier_high(info.modifier)
}

impl DmaBufExport {
    /// The Dart-side record of an exported frame.
    pub fn from_info(info: &DmaBufInfo) -> (r: DmaBufExport)
        ensures
            export_matches(r, *info),
            r.fd == info.fd && r.width == info.width && r.height == info.height,
            r.stride == info.stride && r.offset == info.offset && r.fourcc == info.fourcc,
            ((r.modifier_high as u64) << 32u64) | (r.modifier_low as u64) == info.modifier,
    {
        let (low, high) = split_modifier(info.modifier);
        proof {
            lemma_modifier_halves_rejoin(info.modifier);
        }
        DmaBufExport {
            fd: info.fd,
            width: info.width,
            height: info.height,
            stride: info.stride,
            offset: info.offset,
            fourcc: info.fourcc,
            modifier_low: low,
            modifier_high: high,
        }
    }
}

impl FfiDmaBufInfo {
    /// The C-side record of an exported frame.
    pub fn from_info(info: &DmaBufInfo) -> (r: FfiDmaBufInfo)
        ensures
            ffi_matches(r, *info),
            r.fd == info.fd && r.width == info.width && r.height == info.height,
            r.stride == info.stride && r.offset == info.offset && r.fourcc == info.fourcc,
            ((r.modifier_high as u64) << 32u64) | (r.modifier_low as u64) == info.modifier,
    {
        let (low, high) = split_modifier(info.modifier);
        proof {
            lemma_modifier_halves_rejoin(info.modifier);
        }
        FfiDmaBufInfo {
            fd: info.fd,
            width: info.width,
            height: info.height,
            stride: info.stride,
            offset: info.offset,
            fourcc: info.fourcc,
            modifier_low: low,
            modifier_high: high,
        }
    }
}

/// The export the Dart side receives from the result of an export request:
/// errors pass through, no frame stays no frame.
pub fn export_for_dart(result: Result<Option<DmaBufInfo>, String>) -> (r: Result<Option<DmaBufExport>, String>)
    ensures
        match result {
            Err(e) => r == Err::<Option<DmaBufExport>, String>(e),
            Ok(None) => r == Ok::<Option<DmaBufExport>, String>(None),
            Ok(Some(info)) => r matches Ok(Some(x)) && export_matches(x, info),
        },
{
    match result {
        Err(e) => Err(e),
        Ok(None) => Ok(None),
        Ok(Some(info)) => Ok(Some(DmaBufExport::from_info(&info))),
    }
}

/// Status byte of `engine_export_dmabuf`: `1` and the record filled in when a
/// frame was exported, `0` otherwise (also when no record was supplied).
pub fn ffi_export_status(has_out: bool, result: Result<Option<DmaBufInfo>, String>) -> (r: (u8, Option<FfiDmaBufInfo>))
    ensures
        match result {
            Ok(Some(info)) => if has_out {
                r.0 == 1 && (r.1 matches Some(f) && ffi_matches(f, info))
            } else {
                r.0 == 0 && r.1 is None
            },
            _ => r.0 == 0 && r.1 is None,
        },
{
    if !has_out {
        return (0, None);
    }
    match result {
        Ok(Some(info)) => (1, Some(FfiDmaBufInfo::from_info(&info))),
        _ => (0, None),
    }
}

/// Status byte of a C export that reports success or failure.
pub fn ok_status<T>(result: &Result<T, String>) -> (r: u8)
    ensures
        r == (if result is Ok { 1u8 } else { 0u8 }),
{
    if result.is_ok() {
        1
    } else {
        0
    }
}

/// Status byte of `engine_request_frame`: `1` only when a frame was rendered.
pub fn frame_status(result: &Result<bool, String>) -> (r: u8)
    ensures
        r == (if result == &Ok::<bool, String>(true) { 1u8 } else { 0u8 }),
{
    match result {
        Ok(true) => 1,
        _ => 0,
    }
}

/// Status byte of `engine_dmabuf_supported`: `1` only when export is supported.
pub fn supported_status(result: &Result<bool, String>) -> (r: u8)
    ensures
        r == (if result == &Ok::<bool, String>(true) { 1u8 } else { 0u8 }),
{
    match result {
        Ok(true) => 1,
        _ => 0,
    }
}

/// Answer of `linux_dmabuf_supported`: an unknown handle counts as unsupported.
pub fn supported_or_false(result: &Result<bool, String>) -> (r: bool)
    ensures
        r == (result == &Ok::<bool, String>(true)),
{
    match result {
        Ok(b) => *b,
        Err(_) => false,
    }
}

/// First half of `request_frame`: the frame command for the renderer
/// `handle`, `Ok(None)` when it has no present target to render into; the
/// answer then comes from [`frame_answer`].
pub fn request_frame<P>(engine: &Engine<P>, handle: u64) -> (r: Result<Option<RenderCmd>, String>)
    ensures
        engine.renderers().contains_key(handle) ==> r == Ok::<Option<RenderCmd>, String>(
            frame_of(engine.renderers()[handle]),
        ),
        !engine.renderers().contains_key(handle) ==> is_not_found(r),
{
    engine.render_frame(handle)
}

/// Second half of `request_frame`: `false` when no frame command was sent (no
/// present target); otherwise the render thread's reply (`true` when the frame
/// reached the present target), or the dropped-reply error.
pub fn frame_answer(sent: bool, reply: Option<Result<bool, String>>) -> (r: Result<bool, String>)
    ensures
        !sent ==> r == Ok::<bool, String>(false),
        sent ==> match reply {
            Some(inner) => r == inner,
            None => (r matches Err(e) && e@ == dropped_reply_text(ReplyKind::Frame)),
        },
{
    if !sent {
        return Ok(false);
    }
    receive_result_reply(reply, ReplyKind::Frame)
}

/// Resume the animation of the renderer `handle`.
pub fn start_animation<P>(engine: &mut Engine<P>, handle: u64) -> (r: Result<(), String>)
    ensures
        final(engine).next_handle_value() == old(engine).next_handle_value(),
        final(engine).issued_handles() == old(engine).issued_handles(),
        updated(
            old(engine).renderers(),
            final(engine).renderers(),
            handle,
            r,
            |a: Renderer<P>, b: Renderer<P>| bool_param_applied(a, b, "animation_running"@, true),
        ),
{
    engine.set_animation_running(handle, true)
}

/// Pause the animation of the renderer `handle`.
pub fn stop_animation<P>(engine: &mut Engine<P>, handle: u64) -> (r: Result<(), String>)
    ensures
        final(engine).next_handle_value() == old(engine).next_handle_value(),
        final(engine).issued_handles() == old(engine).issued_handles(),
        updated(
            old(engine).renderers(),
            final(engine).renderers(),
            handle,
            r,
            |a: Renderer<P>, b: Renderer<P>| bool_param_applied(a, b, "animation_running"@, false),
        ),
{
    engine.set_animation_running(handle, false)
}

/// Error for a four-component parameter of the wrong length.
pub open spec fn vec4_length_message() -> Seq<char> {
    "set_vec4_param expects exactly 4 floats"@
}

/// The four components of a parameter given as a list (bit patterns), or the
/// error for a list of another length.
pub fn vec4_from_list(values: &Vec<u32>) -> (r: Result<[u32; 4], String>)
    ensures
        values@.len() == 4 ==> (r matches Ok(a) && a@ == values@),
        values@.len() != 4 ==> (r matches Err(e) && e@ == vec4_length_message()),
{
    if values.len() != 4 {
        return Err(String::from_str("set_vec4_param expects exactly 4 floats"));
    }
    let a = [values[0], values[1], values[2], values[3]];
    assert(a@ =~= values@);
    Ok(a)
}

/// Error of `attach_metal_texture` where Metal is unavailable.
pub open spec fn no_metal_message() -> Seq<char> {
    "Metal not available on this platform"@
}

/// Error of `create_dxgi_surface` where DXGI is unavailable.
pub open spec fn no_dxgi_message() -> Seq<char> {
    "DXGI not available on this platform"@
}

/// Attaching a Metal texture on a platform without Metal: it always fails.
pub fn attach_metal_texture(handle: u64, mtl_texture_ptr: usize, width: u32, height: u32, bytes_per_row: u32) -> (r: Result<(), String>)
    ensures
        r matches Err(e) && e@ == no_metal_message(),
{
    Err(String::from_str("Metal not available on this platform"))
}

/// Creating a DXGI shared surface on a platform without DXGI: it always fails.
pub fn create_dxgi_surface(handle: u64, width: u32, height: u32) -> (r: Result<usize, String>)
    ensures
        r matches Err(e) && e@ == no_dxgi_message(),
{
    Err(String::from_str("DXGI not available on this platform"))
}

/// The handle the C export `engine_create` returns: the new handle, or 0
/// (never a handle) when creation failed.
pub fn handle_or_zero(result: &Result<u64, String>) -> (r: u64)
    ensures
        match result {
            Ok(h) => r == *h,
            Err(_) => r == 0,
        },
{
    match result {
        Ok(h) => *h,
        Err(_) => 0,
    }
}

/// The two modifier halves handed to Dart or C join back into the exported
/// frame's modifier.
pub proof fn law_exported_modifier_rejoins(e: DmaBufExport, f: FfiDmaBufInfo, info: DmaBufInfo)
    requires
        export_matches(e, info),
        ffi_matches(f, info),
    ensures
        ((e.modifier_high as u64) << 32u64) | (e.modifier_low as u64) == info.modifier,
        ((f.modifier_high as u64) << 32u64) | (f.modifier_low as u64) == info.modifier,
{
    lemma_modifier_halves_rejoin(info.modifier);
}

/// The records handed to Dart and to C describe the exported image itself:
/// its descriptor, width, height, stride, offset and fourcc unchanged, and
/// modifier halves that join back into its modifier.
pub proof fn law_exported_records_carry_the_image(e: DmaBufExport, f: FfiDmaBufInfo, info: DmaBufInfo)
    requires
        export_matches(e, info),
        ffi_matches(f, info),
    ensures
        e.fd == info.fd && e.width == info.width && e.height == info.height,
        e.stride == info.stride && e.offset == info.offset && e.fourcc == info.fourcc,
        f.fd == info.fd && f.width == info.width && f.height == info.height,
        f.stride == info.stride && f.offset == info.offset && f.fourcc == info.fourcc,
        ((f.modifier_high as u64) << 32u64) | (f.modifier_low as u64) == info.modifier,
{
    lemma_modifier_halves_rejoin(info.modifier);
}

} // verus!
