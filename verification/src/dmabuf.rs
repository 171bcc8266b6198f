//! Linux DMA-BUF export bookkeeping: choosing the Vulkan memory type and the
//! DRM format modifiers for the shared present image, checking the device
//! extensions the export path needs, and splitting the exported 64-bit
//! modifier for the 32-bit FFI boundary.
use vstd::prelude::*;

use crate::text::{contains_text, texts};

verus! {

/// `DRM_FORMAT_ARGB8888` (fourcc `AR24`), the layout of the shared image.
pub const DRM_FORMAT_ARGB8888: i32 = 0x34325241;

/// `DRM_FORMAT_MOD_LINEAR`: the linear layout, tried last.
pub const DRM_FORMAT_MOD_LINEAR: u64 = 0;

/// `VK_MEMORY_PROPERTY_DEVICE_LOCAL_BIT`.
pub const MEMORY_PROPERTY_DEVICE_LOCAL: u32 = 0x1;

/// `VK_FORMAT_FEATURE_SAMPLED_IMAGE_BIT`.
pub const FORMAT_FEATURE_SAMPLED_IMAGE: u32 = 0x1;

/// `VK_FORMAT_FEATURE_TRANSFER_DST_BIT`.
pub const FORMAT_FEATURE_TRANSFER_DST: u32 = 0x8000;

/// Most memory types a Vulkan physical device can report (`VK_MAX_MEMORY_TYPES`).
pub const MAX_MEMORY_TYPES: u32 = 32;

/// One exported frame: the file descriptor and the plane layout of the image.
#[derive(Clone, Debug)]
pub struct DmaBufInfo {
    pub fd: i32,
    pub width: u32,
    pub height: u32,
    pub stride: i32,
    pub offset: i32,
    pub fourcc: i32,
    pub modifier: u64,
}

/// One entry of `VkDrmFormatModifierPropertiesEXT`.
#[derive(Clone, Copy, Debug, PartialEq, Eq)]
pub struct DrmModifierProperties {
    pub modifier: u64,
    pub plane_count: u32,
    pub tiling_features: u32,
}

/// Bit `index` of a Vulkan `memoryTypeBits` mask is set.
pub open spec fn memory_type_allowed(memory_type_bits: u32, index: u32) -> bool {
    memory_type_bits & (1u32 << index) != 0
}

/// The property flags of a memory type include `DEVICE_LOCAL`.
pub open spec fn is_device_local(property_flags: u32) -> bool {
    property_flags & MEMORY_PROPERTY_DEVICE_LOCAL != 0
}

/// Memory type `i` may back the image and lives in device memory.
pub open spec fn preferred_type(flags: Seq<u32>, bits: u32, i: int) -> bool {
    memory_type_allowed(bits, i as u32) && is_device_local(flags[i])
}

/// The memory type chosen for the shared image, as an index below `count`:
/// the first allowed type that is device local, else the first allowed type,
/// else none.
pub open spec fn chosen_memory_type(flags: Seq<u32>, count: u32, bits: u32, r: Option<u32>) -> bool {
    match r {
        Some(i) => {
            &&& i < count
            &&& memory_type_allowed(bits, i)
            &&& if is_device_local(flags[i as int]) {
                forall|j: int| 0 <= j < i ==> !#[trigger] preferred_type(flags, bits, j)
            } else {
                &&& forall|j: int| 0 <= j < count ==> !#[trigger] preferred_type(flags, bits, j)
                &&& forall|j: u32| j < i ==> !#[trigger] memory_type_allowed(bits, j)
            }
        },
        None => forall|j: u32| j < count ==> !#[trigger] memory_type_allowed(bits, j),
    }
}

/// Pick the memory type for the exported image from the device's memory
/// properties (`property_flags[i]` are the flags of memory type `i`, of which
/// the first `memory_type_count` are valid) and the image's `memory_type_bits`.
pub fn pick_memory_type_index(
    property_flags: &[u32],
    memory_type_count: u32,
    memory_type_bits: u32,
) -> (r: Option<u32>)
    requires
        memory_type_count <= MAX_MEMORY_TYPES,
        memory_type_count as int <= property_flags@.len(),
    ensures
        chosen_memory_type(property_flags@, memory_type_count, memory_type_bits, r),
{
    let mut preferred: Option<u32> = None;
    let mut index: u32 = 0;
    while index < memory_type_count
        invariant
            index <= memory_type_count <= MAX_MEMORY_TYPES,
            memory_type_count as int <= property_flags@.len(),
            forall|j: int| 0 <= j < index ==> !#[trigger] preferred_type(property_flags@, memory_type_bits, j),
            match preferred {
                Some(p) => p < index && memory_type_allowed(memory_type_bits, p)
                    && forall|j: u32| j < p ==> !#[trigger] memory_type_allowed(memory_type_bits, j),
                None => forall|j: u32| j < index ==> !#[trigger] memory_type_allowed(memory_type_bits, j),
            },
        decreases memory_type_count - index,
    {
        let bit = 1u32 << index;
        if memory_type_bits & bit == 0 {
            assert(!memory_type_allowed(memory_type_bits, index));
            index = index + 1;
            continue;
        }
        assert(memory_type_allowed(memory_type_bits, index));
        let flags = property_flags[index as usize];
        if flags & MEMORY_PROPERTY_DEVICE_LOCAL != 0 {
            assert(preferred_type(property_flags@, memory_type_bits, index as int));
            return Some(index);
        }
        assert(!preferred_type(property_flags@, memory_type_bits, index as int));
        if preferred.is_none() {
            preferred = Some(index);
        }
        index = index + 1;
    }
    preferred
}

/// The modifier's tiling supports both transfers into the image and sampling.
pub open spec fn modifier_usable(m: DrmModifierProperties) -> bool {
    &&& m.tiling_features & FORMAT_FEATURE_TRANSFER_DST == FORMAT_FEATURE_TRANSFER_DST
    &&& m.tiling_features & FORMAT_FEATURE_SAMPLED_IMAGE == FORMAT_FEATURE_SAMPLED_IMAGE
}

/// The usable modifiers of `s`, in order, keeping only the linear ones
/// (`linear == true`) or only the tiled ones.
pub open spec fn usable_with_layout(s: Seq<DrmModifierProperties>, linear: bool) -> Seq<DrmModifierProperties>
    decreases s.len(),
{
    if s.len() == 0 {
        Seq::empty()
    } else {
        let rest = usable_with_layout(s.drop_last(), linear);
        let m = s.last();
        if modifier_usable(m) && (m.modifier == DRM_FORMAT_MOD_LINEAR) == linear {
            rest.push(m)
        } else {
            rest
        }
    }
}

/// The usable modifiers of `s` in the order they are offered to the driver:
/// tiled modifiers first, then linear, each group keeping the reported order.
pub open spec fn ordered_usable_modifiers(s: Seq<DrmModifierProperties>) -> Seq<DrmModifierProperties> {
    usable_with_layout(s, false) + usable_with_layout(s, true)
}

/// Error when the driver reports no modifier at all for the image format.
pub open spec fn no_modifiers_message() -> Seq<char> {
    "No DRM format modifiers reported for B8G8R8A8_UNORM"@
}

/// Error when no reported modifier supports the needed usage.
pub open spec fn no_usable_modifier_message() -> Seq<char> {
    "No DRM format modifier supports TRANSFER_DST|SAMPLED_IMAGE for B8G8R8A8_UNORM"@
}

fn collect_usable(reported: &Vec<DrmModifierProperties>, linear: bool, out: &mut Vec<DrmModifierProperties>)
    ensures
        final(out)@ == old(out)@ + usable_with_layout(reported@, linear),
{
    let ghost start = out@;
    let mut i: usize = 0;
    while i < reported.len()
        invariant
            i <= reported.len(),
            out@ == start + usable_with_layout(reported@.take(i as int), linear),
        decreases reported.len() - i,
    {
        let m = reported[i];
        proof {
            assert(reported@.take(i + 1).drop_last() =~= reported@.take(i as int));
            assert(reported@.take(i + 1).last() == m);
        }
        let usable = m.tiling_features & FORMAT_FEATURE_TRANSFER_DST == FORMAT_FEATURE_TRANSFER_DST
            && m.tiling_features & FORMAT_FEATURE_SAMPLED_IMAGE == FORMAT_FEATURE_SAMPLED_IMAGE;
        if usable && (m.modifier == DRM_FORMAT_MOD_LINEAR) == linear {
            out.push(m);
            proof {
                assert(out@ =~= start + usable_with_layout(reported@.take(i + 1), linear));
            }
        }
        i = i + 1;
    }
    assert(reported@.take(reported@.len() as int) =~= reported@);
}

/// From the modifiers the driver reports for `B8G8R8A8_UNORM`, keep those that
/// support `TRANSFER_DST` and `SAMPLED_IMAGE` and put the linear layout last.
pub fn select_drm_modifiers(reported: &Vec<DrmModifierProperties>) -> (r: Result<Vec<DrmModifierProperties>, String>)
    ensures
        match r {
            Ok(v) => reported@.len() > 0 && ordered_usable_modifiers(reported@).len() > 0
                && v@ == ordered_usable_modifiers(reported@),
            Err(e) => if reported@.len() == 0 {
                e@ == no_modifiers_message()
            } else {
                ordered_usable_modifiers(reported@).len() == 0 && e@ == no_usable_modifier_message()
            },
        },
{
    if reported.len() == 0 {
        return Err(String::from_str("No DRM format modifiers reported for B8G8R8A8_UNORM"));
    }
    let mut out: Vec<DrmModifierProperties> = Vec::new();
    collect_usable(reported, false, &mut out);
    collect_usable(reported, true, &mut out);
    assert(out@ =~= ordered_usable_modifiers(reported@));
    if out.len() == 0 {
        return Err(
            String::from_str("No DRM format modifier supports TRANSFER_DST|SAMPLED_IMAGE for B8G8R8A8_UNORM"),
        );
    }
    Ok(out)
}

/// Name of the device extension exporting memory as a file descriptor.
pub open spec fn external_memory_fd_extension() -> Seq<char> {
    "VK_KHR_external_memory_fd"@
}

/// Name of the device extension for DMA-BUF external memory.
pub open spec fn external_memory_dma_buf_extension() -> Seq<char> {
    "VK_EXT_external_memory_dma_buf"@
}

/// Name of the device extension for DRM format modifier tiling.
pub open spec fn image_drm_format_modifier_extension() -> Seq<char> {
    "VK_EXT_image_drm_format_modifier"@
}

/// All three device extensions of the export path are among `enabled`.
pub open spec fn export_extensions_enabled(enabled: Seq<String>) -> bool {
    &&& texts(enabled).contains(external_memory_fd_extension())
    &&& texts(enabled).contains(external_memory_dma_buf_extension())
    &&& texts(enabled).contains(image_drm_format_modifier_extension())
}

/// The enabled device extensions include every extension DMA-BUF export needs.
pub fn required_dma_buf_extensions_present(enabled: &Vec<String>) -> (r: bool)
    ensures
        r == export_extensions_enabled(enabled@),
{
    contains_text(enabled, "VK_KHR_external_memory_fd") && contains_text(enabled, "VK_EXT_external_memory_dma_buf")
        && contains_text(enabled, "VK_EXT_image_drm_format_modifier")
}

/// The modifier whose image format properties decide whether export is
/// supported: none when an extension is missing or no modifier is usable,
/// else the first of the ordered usable modifiers.
pub open spec fn export_probe(enabled: Seq<String>, reported: Seq<DrmModifierProperties>) -> Option<u64> {
    if !export_extensions_enabled(enabled) || reported.len() == 0
        || ordered_usable_modifiers(reported).len() == 0 {
        None
    } else {
        Some(ordered_usable_modifiers(reported)[0].modifier)
    }
}

/// Decide, from the enabled device extensions and the reported modifiers,
/// which modifier to ask the driver about for an exportable image; `None`
/// means export is unsupported without asking.
pub fn export_probe_modifier(enabled: &Vec<String>, reported: &Vec<DrmModifierProperties>) -> (r: Option<u64>)
    ensures
        r == export_probe(enabled@, reported@),
{
    if !required_dma_buf_extensions_present(enabled) {
        return None;
    }
    match select_drm_modifiers(reported) {
        Ok(modifiers) => Some(modifiers[0].modifier),
        Err(_) => None,
    }
}

/// Error for a zero-sized shared image.
pub open spec fn zero_size_message() -> Seq<char> {
    "linux dma-buf present target requires non-zero size"@
}

/// Error when the device lacks the export extensions.
pub open spec fn missing_extensions_message() -> Seq<char> {
    "Vulkan device missing VK_KHR_external_memory_fd or VK_EXT_external_memory_dma_buf"@
}

/// Error when no memory type can back the shared image.
pub open spec fn no_memory_type_message() -> Seq<char> {
    "No compatible Vulkan memory type for DMA-BUF image"@
}

/// Check the preconditions of creating the shared DMA-BUF image: a non-zero
/// size first, then the export extensions.
pub fn check_shared_image_request(width: u32, height: u32, enabled: &Vec<String>) -> (r: Result<(), String>)
    ensures
        match r {
            Ok(()) => width != 0 && height != 0 && export_extensions_enabled(enabled@),
            Err(e) => if width == 0 || height == 0 {
                e@ == zero_size_message()
            } else {
                !export_extensions_enabled(enabled@) && e@ == missing_extensions_message()
            },
        },
{
    if width == 0 || height == 0 {
        return Err(String::from_str("linux dma-buf present target requires non-zero size"));
    }
    if !required_dma_buf_extensions_present(enabled) {
        return Err(
            String::from_str("Vulkan device missing VK_KHR_external_memory_fd or VK_EXT_external_memory_dma_buf"),
        );
    }
    Ok(())
}

/// The memory type for the shared image, or the error reported when none fits.
pub fn shared_image_memory_type(
    property_flags: &[u32],
    memory_type_count: u32,
    memory_type_bits: u32,
) -> (r: Result<u32, String>)
    requires
        memory_type_count <= MAX_MEMORY_TYPES,
        memory_type_count as int <= property_flags@.len(),
    ensures
        match r {
            Ok(i) => chosen_memory_type(property_flags@, memory_type_count, memory_type_bits, Some(i)),
            Err(e) => chosen_memory_type(property_flags@, memory_type_count, memory_type_bits, None)
                && e@ == no_memory_type_message(),
        },
{
    match pick_memory_type_index(property_flags, memory_type_count, memory_type_bits) {
        Some(i) => Ok(i),
        None => Err(String::from_str("No compatible Vulkan memory type for DMA-BUF image")),
    }
}

/// The export extensions in the order they are requested from the device.
pub open spec fn export_extension_names() -> Seq<Seq<char>> {
    seq![external_memory_fd_extension(), external_memory_dma_buf_extension(), image_drm_format_modifier_extension()]
}

/// The export extensions, in request order.
pub fn export_extensions() -> (r: Vec<String>)
    ensures
        texts(r@) == export_extension_names(),
{
    let mut v: Vec<String> = Vec::new();
    v.push(String::from_str("VK_KHR_external_memory_fd"));
    v.push(String::from_str("VK_EXT_external_memory_dma_buf"));
    v.push(String::from_str("VK_EXT_image_drm_format_modifier"));
    assert(texts(v@) =~= export_extension_names());
    v
}

/// `s` with each of `wanted` appended in order unless already present.
pub open spec fn with_missing_added(s: Seq<Seq<char>>, wanted: Seq<Seq<char>>) -> Seq<Seq<char>>
    decreases wanted.len(),
{
    if wanted.len() == 0 {
        s
    } else {
        let before = with_missing_added(s, wanted.drop_last());
        if before.contains(wanted.last()) {
            before
        } else {
            before.push(wanted.last())
        }
    }
}

/// Add to the device extensions to enable each export extension it lacks
/// (only ever adding, never removing).
pub fn add_export_extensions(enabled: &mut Vec<String>)
    ensures
        texts(final(enabled)@) == with_missing_added(texts(old(enabled)@), export_extension_names()),
{
    let wanted = export_extensions();
    let ghost start = texts(enabled@);
    let mut i: usize = 0;
    while i < wanted.len()
        invariant
            i <= wanted@.len(),
            texts(wanted@) == export_extension_names(),
            texts(enabled@) == with_missing_added(start, texts(wanted@).take(i as int)),
        decreases wanted.len() - i,
    {
        proof {
            assert(texts(wanted@).take(i + 1).drop_last() =~= texts(wanted@).take(i as int));
            assert(texts(wanted@).take(i + 1).last() == wanted@[i as int]@);
        }
        if !contains_text(enabled, wanted[i].as_str()) {
            enabled.push(wanted[i].clone());
            assert(texts(enabled@) =~= with_missing_added(start, texts(wanted@).take(i + 1)));
        }
        i = i + 1;
    }
    assert(texts(wanted@).take(wanted@.len() as int) =~= texts(wanted@));
}

/// The first export extension the device does not offer, if any; creating
/// the device fails naming it.
pub open spec fn first_unavailable(available: Seq<String>, wanted: Seq<Seq<char>>) -> Option<Seq<char>>
    decreases wanted.len(),
{
    if wanted.len() == 0 {
        None
    } else if !texts(available).contains(wanted[0]) {
        Some(wanted[0])
    } else {
        first_unavailable(available, wanted.drop_first())
    }
}

/// The first export extension missing from the device's available
/// extensions.
pub fn unavailable_export_extension(available: &Vec<String>) -> (r: Option<String>)
    ensures
        match r {
            Some(name) => first_unavailable(available@, export_extension_names()) == Some(name@),
            None => first_unavailable(available@, export_extension_names()) is None,
        },
{
    let wanted = export_extensions();
    assert(texts(wanted@).skip(0) =~= texts(wanted@));
    let mut i: usize = 0;
    while i < wanted.len()
        invariant
            i <= wanted@.len(),
            texts(wanted@) == export_extension_names(),
            first_unavailable(available@, texts(wanted@).skip(i as int)) == first_unavailable(
                available@,
                export_extension_names(),
            ),
        decreases wanted.len() - i,
    {
        proof {
            assert(texts(wanted@).skip(i as int)[0] == wanted@[i as int]@);
            assert(texts(wanted@).skip(i as int).drop_first() =~= texts(wanted@).skip(i + 1));
        }
        if !contains_text(available, wanted[i].as_str()) {
            return Some(wanted[i].clone());
        }
        i = i + 1;
    }
    None
}

/// Every modifier kept for one layout is usable and has that layout.
proof fn lemma_usable_with_layout(s: Seq<DrmModifierProperties>, linear: bool)
    ensures
        forall|i: int| 0 <= i < usable_with_layout(s, linear).len() ==> {
            &&& modifier_usable(#[trigger] usable_with_layout(s, linear)[i])
            &&& (usable_with_layout(s, linear)[i].modifier == DRM_FORMAT_MOD_LINEAR) == linear
        },
    decreases s.len(),
{
    if s.len() > 0 {
        lemma_usable_with_layout(s.drop_last(), linear);
        let rest = usable_with_layout(s.drop_last(), linear);
        let r = usable_with_layout(s, linear);
        assert forall|i: int| 0 <= i < r.len() implies {
            &&& modifier_usable(#[trigger] r[i])
            &&& (r[i].modifier == DRM_FORMAT_MOD_LINEAR) == linear
        } by {
            if i < rest.len() {
                assert(r[i] == rest[i]);
            }
        }
    }
}

/// Every modifier offered to the driver supports transfers and sampling, and
/// the linear layout comes after every tiled one.
pub proof fn law_linear_modifier_tried_last(s: Seq<DrmModifierProperties>)
    ensures
        forall|i: int| 0 <= i < ordered_usable_modifiers(s).len() ==> modifier_usable(
            #[trigger] ordered_usable_modifiers(s)[i],
        ),
        forall|i: int, j: int| 0 <= i < j < ordered_usable_modifiers(s).len()
            && #[trigger] ordered_usable_modifiers(s)[i].modifier == DRM_FORMAT_MOD_LINEAR
            ==> #[trigger] ordered_usable_modifiers(s)[j].modifier == DRM_FORMAT_MOD_LINEAR,
{
    lemma_usable_with_layout(s, false);
    lemma_usable_with_layout(s, true);
    let t = usable_with_layout(s, false);
    let l = usable_with_layout(s, true);
    let o = ordered_usable_modifiers(s);
    assert forall|i: int| 0 <= i < o.len() implies modifier_usable(#[trigger] o[i]) by {
        if i < t.len() {
            assert(o[i] == t[i]);
        } else {
            assert(o[i] == l[i - t.len()]);
        }
    }
    assert forall|i: int, j: int| 0 <= i < j < o.len() && #[trigger] o[i].modifier == DRM_FORMAT_MOD_LINEAR
        implies #[trigger] o[j].modifier == DRM_FORMAT_MOD_LINEAR by {
        if i < t.len() {
            assert(o[i] == t[i]);
        } else {
            assert(o[j] == l[j - t.len()]);
        }
    }
}

/// The low 32 bits of a DRM modifier.
pub open spec fn modifier_low(modifier: u64) -> u32 {
    (modifier & 0xFFFF_FFFFu64) as u32
}

/// The high 32 bits of a DRM modifier.
pub open spec fn modifier_high(modifier: u64) -> u32 {
    (modifier >> 32u64) as u32
}

/// Split a 64-bit DRM modifier into its low and high 32-bit halves.
pub fn split_modifier(modifier: u64) -> (r: (u32, u32))
    ensures
        r.0 == modifier_low(modifier),
        r.1 == modifier_high(modifier),
        r.0 as u64 == modifier % 0x1_0000_0000u64,
        r.1 as u64 == modifier / 0x1_0000_0000u64,
{
    let low = (modifier & 0xFFFF_FFFFu64) as u32;
    let high = (modifier >> 32u64) as u32;
    assert(low as u64 == modifier % 0x1_0000_0000u64 && high as u64 == modifier / 0x1_0000_0000u64) by (bit_vector)
        requires
            low == (modifier & 0xFFFF_FFFFu64) as u32,
            high == (modifier >> 32u64) as u32,
    ;
    (low, high)
}

/// Joining the two halves gives the modifier back.
pub proof fn lemma_modifier_halves_rejoin(modifier: u64)
    ensures
        ((modifier_high(modifier) as u64) << 32u64) | (modifier_low(modifier) as u64) == modifier,
{
    assert((((modifier >> 32u64) as u32 as u64) << 32u64) | ((modifier & 0xFFFF_FFFFu64) as u32 as u64)
        == modifier) by (bit_vector);
}

} // verus!
