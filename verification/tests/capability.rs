use sarek::capability::{Capability, CapabilitySet, Scope, MENU_LEN};
use sarek::error::Error;

fn menu() -> Vec<Capability> {
    (0..MENU_LEN).map(|place| Capability::from_index(place).unwrap()).collect()
}

#[test]
fn the_menu_has_a_place_for_every_capability() {
    let menu = menu();
    assert_eq!(menu.len(), 69);
    for (place, capability) in menu.iter().enumerate() {
        assert_eq!(capability.index(), place);
    }
    assert_eq!(Capability::from_index(MENU_LEN), None);
    assert_eq!(Capability::from_index(usize::MAX), None);
    assert_eq!(Capability::KhrSurface.index(), 0);
    assert_eq!(Capability::KhrSwapchain.index(), 1);
    assert_eq!(Capability::KhrSharedPresentableImage.index(), MENU_LEN - 1);
}

#[test]
fn names_are_those_of_the_native_headers() {
    let pairs: Vec<(Capability, &str)> = vec![
        (Capability::KhrSurface, vks::khr_surface::VK_KHR_SURFACE_EXTENSION_NAME_STR),
        (Capability::KhrSwapchain, vks::khr_swapchain::VK_KHR_SWAPCHAIN_EXTENSION_NAME_STR),
        (Capability::KhrDisplay, vks::khr_display::VK_KHR_DISPLAY_EXTENSION_NAME_STR),
        (Capability::KhrDisplaySwapchain, vks::khr_display_swapchain::VK_KHR_DISPLAY_SWAPCHAIN_EXTENSION_NAME_STR),
        (Capability::KhrXlibSurface, vks::khr_xlib_surface::VK_KHR_XLIB_SURFACE_EXTENSION_NAME_STR),
        (Capability::KhrXcbSurface, vks::khr_xcb_surface::VK_KHR_XCB_SURFACE_EXTENSION_NAME_STR),
        (Capability::KhrWaylandSurface, vks::khr_wayland_surface::VK_KHR_WAYLAND_SURFACE_EXTENSION_NAME_STR),
        (Capability::KhrMirSurface, vks::khr_mir_surface::VK_KHR_MIR_SURFACE_EXTENSION_NAME_STR),
        (Capability::KhrAndroidSurface, vks::khr_android_surface::VK_KHR_ANDROID_SURFACE_EXTENSION_NAME_STR),
        (Capability::KhrWin32Surface, vks::khr_win32_surface::VK_KHR_WIN32_SURFACE_EXTENSION_NAME_STR),
        (Capability::KhrSamplerMirrorClampToEdge, vks::khr_sampler_mirror_clamp_to_edge::VK_KHR_SAMPLER_MIRROR_CLAMP_TO_EDGE_EXTENSION_NAME_STR),
        (Capability::KhrGetPhysicalDeviceProperties2, vks::khr_get_physical_device_properties2::VK_KHR_GET_PHYSICAL_DEVICE_PROPERTIES_2_EXTENSION_NAME_STR),
        (Capability::KhrShaderDrawParameters, vks::khr_shader_draw_parameters::VK_KHR_SHADER_DRAW_PARAMETERS_EXTENSION_NAME_STR),
        (Capability::KhrMaintenance1, vks::khr_maintenance1::VK_KHR_MAINTENANCE1_EXTENSION_NAME_STR),
        (Capability::KhrPushDescriptor, vks::khr_push_descriptor::VK_KHR_PUSH_DESCRIPTOR_EXTENSION_NAME_STR),
        (Capability::KhrIncrementalPresent, vks::khr_incremental_present::VK_KHR_INCREMENTAL_PRESENT_EXTENSION_NAME_STR),
        (Capability::KhrDescriptorUpdateTemplate, vks::khr_descriptor_update_template::VK_KHR_DESCRIPTOR_UPDATE_TEMPLATE_EXTENSION_NAME_STR),
        (Capability::ExtDebugReport, vks::ext_debug_report::VK_EXT_DEBUG_REPORT_EXTENSION_NAME_STR),
        (Capability::NvGlslShader, vks::nv_glsl_shader::VK_NV_GLSL_SHADER_EXTENSION_NAME_STR),
        (Capability::ImgFilterCubic, vks::img_filter_cubic::VK_IMG_FILTER_CUBIC_EXTENSION_NAME_STR),
        (Capability::AmdRasterizationOrder, vks::amd_rasterization_order::VK_AMD_RASTERIZATION_ORDER_EXTENSION_NAME_STR),
        (Capability::AmdShaderTrinaryMinmax, vks::amd_shader_trinary_minmax::VK_AMD_SHADER_TRINARY_MINMAX_EXTENSION_NAME_STR),
        (Capability::AmdShaderExplicitVertexParameter, vks::amd_shader_explicit_vertex_parameter::VK_AMD_SHADER_EXPLICIT_VERTEX_PARAMETER_EXTENSION_NAME_STR),
        (Capability::ExtDebugMarker, vks::ext_debug_marker::VK_EXT_DEBUG_MARKER_EXTENSION_NAME_STR),
        (Capability::AmdGcnShader, vks::amd_gcn_shader::VK_AMD_GCN_SHADER_EXTENSION_NAME_STR),
        (Capability::NvDedicatedAllocation, vks::nv_dedicated_allocation::VK_NV_DEDICATED_ALLOCATION_EXTENSION_NAME_STR),
        (Capability::AmdDrawIndirectCount, vks::amd_draw_indirect_count::VK_AMD_DRAW_INDIRECT_COUNT_EXTENSION_NAME_STR),
        (Capability::AmdNegativeViewportHeight, vks::amd_negative_viewport_height::VK_AMD_NEGATIVE_VIEWPORT_HEIGHT_EXTENSION_NAME_STR),
        (Capability::AmdGpuShaderHalfFloat, vks::amd_gpu_shader_half_float::VK_AMD_GPU_SHADER_HALF_FLOAT_EXTENSION_NAME_STR),
        (Capability::AmdShaderBallot, vks::amd_shader_ballot::VK_AMD_SHADER_BALLOT_EXTENSION_NAME_STR),
        (Capability::ImgFormatPvrtc, vks::img_format_pvrtc::VK_IMG_FORMAT_PVRTC_EXTENSION_NAME_STR),
        (Capability::NvExternalMemoryCapabilities, vks::nv_external_memory_capabilities::VK_NV_EXTERNAL_MEMORY_CAPABILITIES_EXTENSION_NAME_STR),
        (Capability::NvExternalMemory, vks::nv_external_memory::VK_NV_EXTERNAL_MEMORY_EXTENSION_NAME_STR),
        (Capability::NvExternalMemoryWin32, vks::nv_external_memory_win32::VK_NV_EXTERNAL_MEMORY_WIN32_EXTENSION_NAME_STR),
        (Capability::NvWin32KeyedMutex, vks::nv_win32_keyed_mutex::VK_NV_WIN32_KEYED_MUTEX_EXTENSION_NAME_STR),
        (Capability::ExtValidationFlags, vks::ext_validation_flags::VK_EXT_VALIDATION_FLAGS_EXTENSION_NAME_STR),
        (Capability::NnViSurface, vks::nn_vi_surface::VK_NN_VI_SURFACE_EXTENSION_NAME_STR),
        (Capability::ExtShaderSubgroupBallot, vks::ext_shader_subgroup_ballot::VK_EXT_SHADER_SUBGROUP_BALLOT_EXTENSION_NAME_STR),
        (Capability::ExtShaderSubgroupVote, vks::ext_shader_subgroup_vote::VK_EXT_SHADER_SUBGROUP_VOTE_EXTENSION_NAME_STR),
        (Capability::NvClipSpaceWScaling, vks::nv_clip_space_w_scaling::VK_NV_CLIP_SPACE_W_SCALING_EXTENSION_NAME_STR),
        (Capability::ExtDirectModeDisplay, vks::ext_direct_mode_display::VK_EXT_DIRECT_MODE_DISPLAY_EXTENSION_NAME_STR),
        (Capability::ExtAcquireXlibDisplay, vks::ext_acquire_xlib_display::VK_EXT_ACQUIRE_XLIB_DISPLAY_EXTENSION_NAME_STR),
        (Capability::ExtDisplaySurfaceCounter, vks::ext_display_surface_counter::VK_EXT_DISPLAY_SURFACE_COUNTER_EXTENSION_NAME_STR),
        (Capability::ExtDisplayControl, vks::ext_display_control::VK_EXT_DISPLAY_CONTROL_EXTENSION_NAME_STR),
        (Capability::GoogleDisplayTiming, vks::google_display_timing::VK_GOOGLE_DISPLAY_TIMING_EXTENSION_NAME_STR),
        (Capability::NvSampleMaskOverrideCoverage, vks::nv_sample_mask_override_coverage::VK_NV_SAMPLE_MASK_OVERRIDE_COVERAGE_EXTENSION_NAME_STR),
        (Capability::NvGeometryShaderPassthrough, vks::nv_geometry_shader_passthrough::VK_NV_GEOMETRY_SHADER_PASSTHROUGH_EXTENSION_NAME_STR),
        (Capability::NvViewportArray2, vks::nv_viewport_array2::VK_NV_VIEWPORT_ARRAY2_EXTENSION_NAME_STR),
        (Capability::NvViewportSwizzle, vks::nv_viewport_swizzle::VK_NV_VIEWPORT_SWIZZLE_EXTENSION_NAME_STR),
        (Capability::ExtDiscardRectangles, vks::ext_discard_rectangles::VK_EXT_DISCARD_RECTANGLES_EXTENSION_NAME_STR),
        (Capability::ExtSwapchainColorspace, vks::ext_swapchain_colorspace::VK_EXT_SWAPCHAIN_COLOR_SPACE_EXTENSION_NAME_STR),
        (Capability::ExtHdrMetadata, vks::ext_hdr_metadata::VK_EXT_HDR_METADATA_EXTENSION_NAME_STR),
        (Capability::MvkIosSurface, vks::mvk_ios_surface::VK_MVK_IOS_SURFACE_EXTENSION_NAME_STR),
        (Capability::MvkMacosSurface, vks::mvk_macos_surface::VK_MVK_MACOS_SURFACE_EXTENSION_NAME_STR),
        (Capability::KhrSharedPresentableImage, vks::khr_shared_presentable_image::VK_KHR_SHARED_PRESENTABLE_IMAGE_EXTENSION_NAME_STR),
    ];
    assert!(pairs.len() > 50);
    for (capability, name) in pairs {
        assert_eq!(capability.name(), name);
    }
}

#[test]
fn every_name_is_spelled_as_the_native_api_spells_it() {
    let expected = [
        "VK_KHR_surface",
        "VK_KHR_swapchain",
        "VK_KHR_display",
        "VK_KHR_display_swapchain",
        "VK_KHR_xlib_surface",
        "VK_KHR_xcb_surface",
        "VK_KHR_wayland_surface",
        "VK_KHR_mir_surface",
        "VK_KHR_android_surface",
        "VK_KHR_win32_surface",
        "VK_KHR_sampler_mirror_clamp_to_edge",
        "VK_KHR_get_physical_device_properties2",
        "VK_KHR_shader_draw_parameters",
        "VK_KHR_maintenance1",
        "VK_KHR_push_descriptor",
        "VK_KHR_incremental_present",
        "VK_KHR_descriptor_update_template",
        "VK_EXT_debug_report",
        "VK_NV_glsl_shader",
        "VK_IMG_filter_cubic",
        "VK_AMD_rasterization_order",
        "VK_AMD_shader_trinary_minmax",
        "VK_AMD_shader_explicit_vertex_parameter",
        "VK_EXT_debug_marker",
        "VK_AMD_gcn_shader",
        "VK_NV_dedicated_allocation",
        "VK_AMD_draw_indirect_count",
        "VK_AMD_negative_viewport_height",
        "VK_AMD_gpu_shader_half_float",
        "VK_AMD_shader_ballot",
        "VK_KHX_multiview",
        "VK_IMG_format_pvrtc",
        "VK_NV_external_memory_capabilities",
        "VK_NV_external_memory",
        "VK_NV_external_memory_win32",
        "VK_NV_win32_keyed_mutex",
        "VK_KHX_device_group",
        "VK_EXT_validation_flags",
        "VK_NN_vi_surface",
        "VK_EXT_shader_subgroup_ballot",
        "VK_EXT_shader_subgroup_vote",
        "VK_KHX_device_group_creation",
        "VK_KHX_external_memory_capabilities",
        "VK_KHX_external_memory",
        "VK_KHX_external_memory_win32",
        "VK_KHX_external_memory_fd",
        "VK_KHX_win32_keyed_mutex",
        "VK_KHX_external_semaphore_capabilities",
        "VK_KHX_external_semaphore",
        "VK_KHX_external_semaphore_win32",
        "VK_KHX_external_semaphore_fd",
        "VK_NVX_device_generated_commands",
        "VK_NV_clip_space_w_scaling",
        "VK_EXT_direct_mode_display",
        "VK_EXT_acquire_xlib_display",
        "VK_EXT_display_surface_counter",
        "VK_EXT_display_control",
        "VK_GOOGLE_display_timing",
        "VK_NV_sample_mask_override_coverage",
        "VK_NV_geometry_shader_passthrough",
        "VK_NV_viewport_array2",
        "VK_NVX_multiview_per_view_attributes",
        "VK_NV_viewport_swizzle",
        "VK_EXT_discard_rectangles",
        "VK_EXT_swapchain_colorspace",
        "VK_EXT_hdr_metadata",
        "VK_MVK_ios_surface",
        "VK_MVK_macos_surface",
        "VK_KHR_shared_presentable_image",
    ];
    let names: Vec<&str> = menu().iter().map(|c| c.name()).collect();
    assert_eq!(names, expected);
}

#[test]
fn names_find_their_capability() {
    for capability in menu() {
        assert_eq!(Capability::from_name(capability.name()), Some(capability));
    }
    assert_eq!(Capability::from_name("VK_KHR_surface"), Some(Capability::KhrSurface));
    assert_eq!(Capability::from_name("VK_EXT_debug_report"), Some(Capability::ExtDebugReport));
}

#[test]
fn a_name_that_is_not_on_the_menu_finds_nothing() {
    for name in [
        "",
        "VK_KHR_surfac",
        "VK_KHR_surface2",
        "vk_khr_surface",
        "VK_KHR_ray_tracing_pipeline",
        "VK_KHR_surface\0",
        " VK_KHR_surface",
    ] {
        assert_eq!(Capability::from_name(name), None);
    }
}

#[test]
fn names_make_a_set_or_fail_on_the_first_unknown_one() {
    let names = vec!["VK_KHR_swapchain".to_string(), "VK_KHR_surface".to_string()];
    let set = CapabilitySet::from_names(&names).unwrap();
    assert_eq!(set.members(), vec![Capability::KhrSurface, Capability::KhrSwapchain]);
    assert_eq!(CapabilitySet::from_names(&Vec::new()), Ok(CapabilitySet::empty()));
    let twice = vec!["VK_KHR_surface".to_string(), "VK_KHR_surface".to_string()];
    assert_eq!(CapabilitySet::from_names(&twice).unwrap().members(), vec![Capability::KhrSurface]);
    let bad = vec![
        "VK_KHR_surface".to_string(),
        "VK_FOO_first".to_string(),
        "VK_FOO_second".to_string(),
    ];
    assert_eq!(
        CapabilitySet::from_names(&bad),
        Err(Error::General("capability is not on the menu: VK_FOO_first".to_string()))
    );
}

#[test]
fn sets_hold_what_was_enabled() {
    let mut set = CapabilitySet::empty();
    assert!(menu().iter().all(|c| !set.contains(*c)));
    assert_eq!(set.members(), Vec::new());
    set.enable(Capability::ExtDebugReport);
    set.enable(Capability::KhrSurface);
    set.enable(Capability::ExtDebugReport);
    assert!(set.contains(Capability::KhrSurface));
    assert!(set.contains(Capability::ExtDebugReport));
    assert!(!set.contains(Capability::KhrSwapchain));
    assert_eq!(set.members(), vec![Capability::KhrSurface, Capability::ExtDebugReport]);
    set.disable(Capability::KhrSurface);
    set.disable(Capability::KhrSwapchain);
    assert_eq!(set.members(), vec![Capability::ExtDebugReport]);
    assert_eq!(CapabilitySet::all().members(), menu());
    assert_eq!(
        CapabilitySet::of(&[Capability::KhrXlibSurface, Capability::KhrSurface]).members(),
        vec![Capability::KhrSurface, Capability::KhrXlibSurface]
    );
    assert_eq!(CapabilitySet::of(&[]), CapabilitySet::empty());
}

#[test]
fn enabled_capabilities_hand_their_names_to_instance_creation_in_menu_order() {
    assert_eq!(CapabilitySet::empty().extension_names(), Vec::<&str>::new());
    let set = CapabilitySet::of(&[
        Capability::ExtDebugReport,
        Capability::KhrXlibSurface,
        Capability::KhrSurface,
        Capability::KhrSharedPresentableImage,
    ]);
    assert_eq!(
        set.extension_names(),
        vec!["VK_KHR_surface", "VK_KHR_xlib_surface", "VK_EXT_debug_report"]
    );
    assert_eq!(
        set.marshalled_extension_names(),
        vec![
            b"VK_KHR_surface\0".to_vec(),
            b"VK_KHR_xlib_surface\0".to_vec(),
            b"VK_EXT_debug_report\0".to_vec(),
        ]
    );
    let all = CapabilitySet::all().extension_names();
    assert_eq!(all.len(), MENU_LEN - 1);
    assert_eq!(all[0], "VK_KHR_surface");
    assert_eq!(all[1], "VK_KHR_swapchain");
    assert_eq!(all[all.len() - 1], "VK_MVK_macos_surface");
    assert!(!all.contains(&"VK_KHR_shared_presentable_image"));
    assert_eq!(Capability::KhrSwapchain.marshalled_name(), b"VK_KHR_swapchain\0".to_vec());
}

#[test]
fn no_name_on_the_menu_holds_a_zero_byte() {
    for capability in menu() {
        assert!(!capability.name().as_bytes().contains(&0));
        let marshalled = capability.marshalled_name();
        assert_eq!(marshalled.len(), capability.name().len() + 1);
        assert_eq!(&marshalled[..marshalled.len() - 1], capability.name().as_bytes());
        assert_eq!(marshalled[marshalled.len() - 1], 0);
    }
}

#[test]
fn capabilities_know_the_scopes_at_which_they_have_entry_points() {
    let instance: Vec<Capability> =
        menu().into_iter().filter(|c| c.is_resolved_at(Scope::Instance)).collect();
    let device: Vec<Capability> =
        menu().into_iter().filter(|c| c.is_resolved_at(Scope::Device)).collect();
    assert_eq!(instance.len(), 39);
    assert_eq!(device.len(), 20);
    assert_eq!(CapabilitySet::all().resolved_at(Scope::Instance), instance);
    assert_eq!(CapabilitySet::all().resolved_at(Scope::Device), device);
    assert!(Capability::KhrSurface.is_resolved_at(Scope::Instance));
    assert!(!Capability::KhrSurface.is_resolved_at(Scope::Device));
    assert!(Capability::KhrSwapchain.is_resolved_at(Scope::Instance));
    assert!(Capability::KhrSwapchain.is_resolved_at(Scope::Device));
    assert!(!Capability::KhrSharedPresentableImage.is_resolved_at(Scope::Instance));
    assert!(Capability::KhrSharedPresentableImage.is_resolved_at(Scope::Device));
    assert!(!Capability::ExtValidationFlags.is_resolved_at(Scope::Instance));
    assert!(!Capability::ExtValidationFlags.is_resolved_at(Scope::Device));
    assert!(!Capability::KhrSharedPresentableImage.is_named_at_instance());
    assert!(Capability::KhrSurface.is_named_at_instance());
    let set = CapabilitySet::of(&[
        Capability::KhrSwapchain,
        Capability::KhrSurface,
        Capability::ExtValidationFlags,
    ]);
    assert_eq!(
        set.resolved_at(Scope::Instance),
        vec![Capability::KhrSurface, Capability::KhrSwapchain]
    );
    assert_eq!(set.resolved_at(Scope::Device), vec![Capability::KhrSwapchain]);
}
