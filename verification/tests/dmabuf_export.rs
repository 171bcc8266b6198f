use flutter_wgpu_texture::dmabuf::{add_export_extensions, unavailable_export_extension};
use flutter_wgpu_texture::api::handle_or_zero;
use flutter_wgpu_texture::api::{
    export_for_dart, ffi_export_status, frame_status, ok_status, supported_or_false,
    supported_status, DmaBufExport, FfiDmaBufInfo,
};
use flutter_wgpu_texture::dmabuf::{
    check_shared_image_request, export_probe_modifier, pick_memory_type_index,
    required_dma_buf_extensions_present, select_drm_modifiers, shared_image_memory_type,
    split_modifier, DmaBufInfo, DrmModifierProperties, DRM_FORMAT_ARGB8888,
    FORMAT_FEATURE_SAMPLED_IMAGE, FORMAT_FEATURE_TRANSFER_DST,
};

fn info(modifier: u64) -> DmaBufInfo {
    DmaBufInfo { fd: 17, width: 640, height: 360, stride: 2560, offset: 0, fourcc: DRM_FORMAT_ARGB8888, modifier }
}

fn exts(names: &[&str]) -> Vec<String> {
    names.iter().map(|s| s.to_string()).collect()
}

const USABLE: u32 = FORMAT_FEATURE_TRANSFER_DST | FORMAT_FEATURE_SAMPLED_IMAGE;

#[test]
fn fourcc_is_ar24() {
    assert_eq!(DRM_FORMAT_ARGB8888, i32::from_le_bytes(*b"AR24"));
}

#[test]
fn modifier_splits_into_halves_and_rejoins() {
    let m: u64 = 0x0100_0000_0000_0001;
    let (low, high) = split_modifier(m);
    assert_eq!(low, 1);
    assert_eq!(high, 0x0100_0000);
    assert_eq!(((high as u64) << 32) | low as u64, m);
    assert_eq!(split_modifier(u64::MAX), (u32::MAX, u32::MAX));
}

#[test]
fn exports_carry_fields_and_split_modifier() {
    let e = DmaBufExport::from_info(&info(0x00ff_0000_dead_beef));
    assert_eq!((e.fd, e.width, e.height, e.stride, e.offset), (17, 640, 360, 2560, 0));
    assert_eq!(e.modifier_low, 0xdead_beef);
    assert_eq!(e.modifier_high, 0x00ff_0000);
    let f = FfiDmaBufInfo::from_info(&info(7));
    assert_eq!((f.modifier_low, f.modifier_high, f.fourcc), (7, 0, DRM_FORMAT_ARGB8888));
}

#[test]
fn export_results_for_dart_and_ffi() {
    assert!(matches!(export_for_dart(Ok(None)), Ok(None)));
    assert_eq!(export_for_dart(Err("x".to_string())).err(), Some("x".to_string()));
    let got = export_for_dart(Ok(Some(info(5)))).unwrap().unwrap();
    assert_eq!(got.modifier_low, 5);
    assert_eq!(ffi_export_status(true, Ok(Some(info(5)))).0, 1);
    assert_eq!(ffi_export_status(false, Ok(Some(info(5)))).0, 0);
    assert_eq!(ffi_export_status(true, Ok(None)).0, 0);
    assert_eq!(ffi_export_status(true, Err("e".to_string())).0, 0);
}

#[test]
fn status_bytes() {
    assert_eq!(frame_status(&Ok(true)), 1);
    assert_eq!(frame_status(&Ok(false)), 0);
    assert_eq!(frame_status(&Err("e".to_string())), 0);
    assert_eq!(ok_status(&Ok::<(), String>(())), 1);
    assert_eq!(ok_status(&Err::<(), String>("e".to_string())), 0);
    assert_eq!(supported_status(&Ok(true)), 1);
    assert_eq!(supported_status(&Ok(false)), 0);
    assert!(supported_or_false(&Ok(true)));
    assert!(!supported_or_false(&Err("renderer handle not found".to_string())));
}

#[test]
fn memory_type_prefers_first_device_local() {
    // type 0 host visible, type 1 device local, type 2 device local
    let flags = [0x6u32, 0x1, 0x1];
    assert_eq!(pick_memory_type_index(&flags, 3, 0b111), Some(1));
    assert_eq!(pick_memory_type_index(&flags, 3, 0b101), Some(2));
    assert_eq!(pick_memory_type_index(&flags, 3, 0b001), Some(0));
    assert_eq!(pick_memory_type_index(&flags, 3, 0b000), None);
    // bits beyond the reported count are ignored
    assert_eq!(pick_memory_type_index(&flags, 2, 0b100), None);
    assert_eq!(
        shared_image_memory_type(&flags, 3, 0),
        Err("No compatible Vulkan memory type for DMA-BUF image".to_string())
    );
    assert_eq!(shared_image_memory_type(&flags, 3, 0b110), Ok(1));
}

#[test]
fn modifiers_filtered_and_linear_last() {
    let m = |modifier: u64, features: u32| DrmModifierProperties { modifier, plane_count: 1, tiling_features: features };
    let reported = vec![m(0, USABLE), m(5, USABLE), m(6, FORMAT_FEATURE_SAMPLED_IMAGE), m(7, USABLE | 0x2)];
    let picked = select_drm_modifiers(&reported).unwrap();
    let mods: Vec<u64> = picked.iter().map(|p| p.modifier).collect();
    assert_eq!(mods, vec![5, 7, 0]);
    assert_eq!(
        select_drm_modifiers(&vec![]).err(),
        Some("No DRM format modifiers reported for B8G8R8A8_UNORM".to_string())
    );
    assert_eq!(
        select_drm_modifiers(&vec![m(1, FORMAT_FEATURE_TRANSFER_DST)]).err(),
        Some("No DRM format modifier supports TRANSFER_DST|SAMPLED_IMAGE for B8G8R8A8_UNORM".to_string())
    );
    let only_linear = select_drm_modifiers(&vec![m(0, USABLE)]).unwrap();
    assert_eq!(only_linear.len(), 1);
}

#[test]
fn extensions_and_probe() {
    let all = exts(&[
        "VK_KHR_swapchain",
        "VK_KHR_external_memory_fd",
        "VK_EXT_external_memory_dma_buf",
        "VK_EXT_image_drm_format_modifier",
    ]);
    let partial = exts(&["VK_KHR_external_memory_fd", "VK_EXT_external_memory_dma_buf"]);
    assert!(required_dma_buf_extensions_present(&all));
    assert!(!required_dma_buf_extensions_present(&partial));
    let reported = vec![
        DrmModifierProperties { modifier: 0, plane_count: 1, tiling_features: USABLE },
        DrmModifierProperties { modifier: 9, plane_count: 1, tiling_features: USABLE },
    ];
    assert_eq!(export_probe_modifier(&all, &reported), Some(9));
    assert_eq!(export_probe_modifier(&partial, &reported), None);
    assert_eq!(export_probe_modifier(&all, &vec![]), None);
}

#[test]
fn shared_image_request_checks() {
    let all = exts(&[
        "VK_KHR_external_memory_fd",
        "VK_EXT_external_memory_dma_buf",
        "VK_EXT_image_drm_format_modifier",
    ]);
    assert_eq!(
        check_shared_image_request(0, 10, &all),
        Err("linux dma-buf present target requires non-zero size".to_string())
    );
    assert_eq!(
        check_shared_image_request(10, 10, &vec![]),
        Err("Vulkan device missing VK_KHR_external_memory_fd or VK_EXT_external_memory_dma_buf".to_string())
    );
    assert_eq!(check_shared_image_request(10, 10, &all), Ok(()));
}

#[test]
fn export_extensions_added_only_when_missing() {
    let mut enabled = exts(&["VK_KHR_swapchain", "VK_EXT_external_memory_dma_buf"]);
    add_export_extensions(&mut enabled);
    assert_eq!(
        enabled,
        exts(&[
            "VK_KHR_swapchain",
            "VK_EXT_external_memory_dma_buf",
            "VK_KHR_external_memory_fd",
            "VK_EXT_image_drm_format_modifier",
        ])
    );
    add_export_extensions(&mut enabled);
    assert_eq!(enabled.len(), 4);
    assert!(required_dma_buf_extensions_present(&enabled));
    assert_eq!(unavailable_export_extension(&enabled), None);
    assert_eq!(
        unavailable_export_extension(&exts(&["VK_KHR_external_memory_fd"])),
        Some("VK_EXT_external_memory_dma_buf".to_string())
    );
    assert_eq!(
        unavailable_export_extension(&vec![]),
        Some("VK_KHR_external_memory_fd".to_string())
    );
}

#[test]
fn ffi_create_returns_zero_on_failure() {
    assert_eq!(handle_or_zero(&Ok(3)), 3);
    assert_eq!(handle_or_zero(&Err("wgpu: no compatible adapter found".to_string())), 0);
}
