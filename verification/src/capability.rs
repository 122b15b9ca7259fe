//! The capability menu.
//!
//! A capability is a named optional extension of the native API. The menu
//! is closed: what is not on it cannot be enabled. An enabled capability
//! may add its name to the names handed to instance creation, and may add a
//! bundle of entry points to the instance-scope loader, to the device-scope
//! loader, or to both.

use vstd::prelude::*;
use vstd::string::*;
use crate::error::Error;
use vstd::utf8::*;
use crate::text::{
    byte_strings, bytes_of, first_failure, lemma_ascii_nul_free, lemma_no_failure,
    names_to_c_strings, nul_free, same_text, terminated, texts_of_slices, to_c_string,
};

verus! {

/// How many capabilities the menu holds.
pub const MENU_LEN: usize = 69;

/// A capability of the menu. The variants stand in menu order.
#[derive(Debug, Clone, Copy, PartialEq, Eq, Hash, Structural)]
pub enum Capability {
    /// `VK_KHR_surface`
    KhrSurface,
    /// `VK_KHR_swapchain`
    KhrSwapchain,
    /// `VK_KHR_display`
    KhrDisplay,
    /// `VK_KHR_display_swapchain`
    KhrDisplaySwapchain,
    /// `VK_KHR_xlib_surface`
    KhrXlibSurface,
    /// `VK_KHR_xcb_surface`
    KhrXcbSurface,
    /// `VK_KHR_wayland_surface`
    KhrWaylandSurface,
    /// `VK_KHR_mir_surface`
    KhrMirSurface,
    /// `VK_KHR_android_surface`
    KhrAndroidSurface,
    /// `VK_KHR_win32_surface`
    KhrWin32Surface,
    /// `VK_KHR_sampler_mirror_clamp_to_edge`
    KhrSamplerMirrorClampToEdge,
    /// `VK_KHR_get_physical_device_properties2`
    KhrGetPhysicalDeviceProperties2,
    /// `VK_KHR_shader_draw_parameters`
    KhrShaderDrawParameters,
    /// `VK_KHR_maintenance1`
    KhrMaintenance1,
    /// `VK_KHR_push_descriptor`
    KhrPushDescriptor,
    /// `VK_KHR_incremental_present`
    KhrIncrementalPresent,
    /// `VK_KHR_descriptor_update_template`
    KhrDescriptorUpdateTemplate,
    /// `VK_EXT_debug_report`
    ExtDebugReport,
    /// `VK_NV_glsl_shader`
    NvGlslShader,
    /// `VK_IMG_filter_cubic`
    ImgFilterCubic,
    /// `VK_AMD_rasterization_order`
    AmdRasterizationOrder,
    /// `VK_AMD_shader_trinary_minmax`
    AmdShaderTrinaryMinmax,
    /// `VK_AMD_shader_explicit_vertex_parameter`
    AmdShaderExplicitVertexParameter,
    /// `VK_EXT_debug_marker`
    ExtDebugMarker,
    /// `VK_AMD_gcn_shader`
    AmdGcnShader,
    /// `VK_NV_dedicated_allocation`
    NvDedicatedAllocation,
    /// `VK_AMD_draw_indirect_count`
    AmdDrawIndirectCount,
    /// `VK_AMD_negative_viewport_height`
    AmdNegativeViewportHeight,
    /// `VK_AMD_gpu_shader_half_float`
    AmdGpuShaderHalfFloat,
    /// `VK_AMD_shader_ballot`
    AmdShaderBallot,
    /// `VK_KHX_multiview`
    KhxMultiview,
    /// `VK_IMG_format_pvrtc`
    ImgFormatPvrtc,
    /// `VK_NV_external_memory_capabilities`
    NvExternalMemoryCapabilities,
    /// `VK_NV_external_memory`
    NvExternalMemory,
    /// `VK_NV_external_memory_win32`
    NvExternalMemoryWin32,
    /// `VK_NV_win32_keyed_mutex`
    NvWin32KeyedMutex,
    /// `VK_KHX_device_group`
    KhxDeviceGroup,
    /// `VK_EXT_validation_flags`
    ExtValidationFlags,
    /// `VK_NN_vi_surface`
    NnViSurface,
    /// `VK_EXT_shader_subgroup_ballot`
    ExtShaderSubgroupBallot,
    /// `VK_EXT_shader_subgroup_vote`
    ExtShaderSubgroupVote,
    /// `VK_KHX_device_group_creation`
    KhxDeviceGroupCreation,
    /// `VK_KHX_external_memory_capabilities`
    KhxExternalMemoryCapabilities,
    /// `VK_KHX_external_memory`
    KhxExternalMemory,
    /// `VK_KHX_external_memory_win32`
    KhxExternalMemoryWin32,
    /// `VK_KHX_external_memory_fd`
    KhxExternalMemoryFd,
    /// `VK_KHX_win32_keyed_mutex`
    KhxWin32KeyedMutex,
    /// `VK_KHX_external_semaphore_capabilities`
    KhxExternalSemaphoreCapabilities,
    /// `VK_KHX_external_semaphore`
    KhxExternalSemaphore,
    /// `VK_KHX_external_semaphore_win32`
    KhxExternalSemaphoreWin32,
    /// `VK_KHX_external_semaphore_fd`
    KhxExternalSemaphoreFd,
    /// `VK_NVX_device_generated_commands`
    NvxDeviceGeneratedCommands,
    /// `VK_NV_clip_space_w_scaling`
    NvClipSpaceWScaling,
    /// `VK_EXT_direct_mode_display`
    ExtDirectModeDisplay,
    /// `VK_EXT_acquire_xlib_display`
    ExtAcquireXlibDisplay,
    /// `VK_EXT_display_surface_counter`
    ExtDisplaySurfaceCounter,
    /// `VK_EXT_display_control`
    ExtDisplayControl,
    /// `VK_GOOGLE_display_timing`
    GoogleDisplayTiming,
    /// `VK_NV_sample_mask_override_coverage`
    NvSampleMaskOverrideCoverage,
    /// `VK_NV_geometry_shader_passthrough`
    NvGeometryShaderPassthrough,
    /// `VK_NV_viewport_array2`
    NvViewportArray2,
    /// `VK_NVX_multiview_per_view_attributes`
    NvxMultiviewPerViewAttributes,
    /// `VK_NV_viewport_swizzle`
    NvViewportSwizzle,
    /// `VK_EXT_discard_rectangles`
    ExtDiscardRectangles,
    /// `VK_EXT_swapchain_colorspace`
    ExtSwapchainColorspace,
    /// `VK_EXT_hdr_metadata`
    ExtHdrMetadata,
    /// `VK_MVK_ios_surface`
    MvkIosSurface,
    /// `VK_MVK_macos_surface`
    MvkMacosSurface,
    /// `VK_KHR_shared_presentable_image`
    KhrSharedPresentableImage,
}

/// The scope of a loader: the entry points reached through the top-level
/// handle, or those reached through one logical device.
#[derive(Debug, Clone, Copy, PartialEq, Eq, Hash, Structural)]
pub enum Scope {
    /// Entry points resolved against the top-level handle.
    Instance,
    /// Entry points resolved against a logical device.
    Device,
}

impl Capability {
    /// The place of this capability on the menu, counted from zero.
    pub open spec fn ordinal(self) -> int {
        match self {
            Capability::KhrSurface => 0,
            Capability::KhrSwapchain => 1,
            Capability::KhrDisplay => 2,
            Capability::KhrDisplaySwapchain => 3,
            Capability::KhrXlibSurface => 4,
            Capability::KhrXcbSurface => 5,
            Capability::KhrWaylandSurface => 6,
            Capability::KhrMirSurface => 7,
            Capability::KhrAndroidSurface => 8,
            Capability::KhrWin32Surface => 9,
            Capability::KhrSamplerMirrorClampToEdge => 10,
            Capability::KhrGetPhysicalDeviceProperties2 => 11,
            Capability::KhrShaderDrawParameters => 12,
            Capability::KhrMaintenance1 => 13,
            Capability::KhrPushDescriptor => 14,
            Capability::KhrIncrementalPresent => 15,
            Capability::KhrDescriptorUpdateTemplate => 16,
            Capability::ExtDebugReport => 17,
            Capability::NvGlslShader => 18,
            Capability::ImgFilterCubic => 19,
            Capability::AmdRasterizationOrder => 20,
            Capability::AmdShaderTrinaryMinmax => 21,
            Capability::AmdShaderExplicitVertexParameter => 22,
            Capability::ExtDebugMarker => 23,
            Capability::AmdGcnShader => 24,
            Capability::NvDedicatedAllocation => 25,
            Capability::AmdDrawIndirectCount => 26,
            Capability::AmdNegativeViewportHeight => 27,
            Capability::AmdGpuShaderHalfFloat => 28,
            Capability::AmdShaderBallot => 29,
            Capability::KhxMultiview => 30,
            Capability::ImgFormatPvrtc => 31,
            Capability::NvExternalMemoryCapabilities => 32,
            Capability::NvExternalMemory => 33,
            Capability::NvExternalMemoryWin32 => 34,
            Capability::NvWin32KeyedMutex => 35,
            Capability::KhxDeviceGroup => 36,
            Capability::ExtValidationFlags => 37,
            Capability::NnViSurface => 38,
            Capability::ExtShaderSubgroupBallot => 39,
            Capability::ExtShaderSubgroupVote => 40,
            Capability::KhxDeviceGroupCreation => 41,
            Capability::KhxExternalMemoryCapabilities => 42,
            Capability::KhxExternalMemory => 43,
            Capability::KhxExternalMemoryWin32 => 44,
            Capability::KhxExternalMemoryFd => 45,
            Capability::KhxWin32KeyedMutex => 46,
            Capability::KhxExternalSemaphoreCapabilities => 47,
            Capability::KhxExternalSemaphore => 48,
            Capability::KhxExternalSemaphoreWin32 => 49,
            Capability::KhxExternalSemaphoreFd => 50,
            Capability::NvxDeviceGeneratedCommands => 51,
            Capability::NvClipSpaceWScaling => 52,
            Capability::ExtDirectModeDisplay => 53,
            Capability::ExtAcquireXlibDisplay => 54,
            Capability::ExtDisplaySurfaceCounter => 55,
            Capability::ExtDisplayControl => 56,
            Capability::GoogleDisplayTiming => 57,
            Capability::NvSampleMaskOverrideCoverage => 58,
            Capability::NvGeometryShaderPassthrough => 59,
            Capability::NvViewportArray2 => 60,
            Capability::NvxMultiviewPerViewAttributes => 61,
            Capability::NvViewportSwizzle => 62,
            Capability::ExtDiscardRectangles => 63,
            Capability::ExtSwapchainColorspace => 64,
            Capability::ExtHdrMetadata => 65,
            Capability::MvkIosSurface => 66,
            Capability::MvkMacosSurface => 67,
            Capability::KhrSharedPresentableImage => 68,
        }
    }

    /// The capability at a place of the menu.
    pub open spec fn at(place: int) -> Capability {
        if place == 0 {
            Capability::KhrSurface
        } else if place == 1 {
            Capability::KhrSwapchain
        } else if place == 2 {
            Capability::KhrDisplay
        } else if place == 3 {
            Capability::KhrDisplaySwapchain
        } else if place == 4 {
            Capability::KhrXlibSurface
        } else if place == 5 {
            Capability::KhrXcbSurface
        } else if place == 6 {
            Capability::KhrWaylandSurface
        } else if place == 7 {
            Capability::KhrMirSurface
        } else if place == 8 {
            Capability::KhrAndroidSurface
        } else if place == 9 {
            Capability::KhrWin32Surface
        } else if place == 10 {
            Capability::KhrSamplerMirrorClampToEdge
        } else if place == 11 {
            Capability::KhrGetPhysicalDeviceProperties2
        } else if place == 12 {
            Capability::KhrShaderDrawParameters
        } else if place == 13 {
            Capability::KhrMaintenance1
        } else if place == 14 {
            Capability::KhrPushDescriptor
        } else if place == 15 {
            Capability::KhrIncrementalPresent
        } else if place == 16 {
            Capability::KhrDescriptorUpdateTemplate
        } else if place == 17 {
            Capability::ExtDebugReport
        } else if place == 18 {
            Capability::NvGlslShader
        } else if place == 19 {
            Capability::ImgFilterCubic
        } else if place == 20 {
            Capability::AmdRasterizationOrder
        } else if place == 21 {
            Capability::AmdShaderTrinaryMinmax
        } else if place == 22 {
            Capability::AmdShaderExplicitVertexParameter
        } else if place == 23 {
            Capability::ExtDebugMarker
        } else if place == 24 {
            Capability::AmdGcnShader
        } else if place == 25 {
            Capability::NvDedicatedAllocation
        } else if place == 26 {
            Capability::AmdDrawIndirectCount
        } else if place == 27 {
            Capability::AmdNegativeViewportHeight
        } else if place == 28 {
            Capability::AmdGpuShaderHalfFloat
        } else if place == 29 {
            Capability::AmdShaderBallot
        } else if place == 30 {
            Capability::KhxMultiview
        } else if place == 31 {
            Capability::ImgFormatPvrtc
        } else if place == 32 {
            Capability::NvExternalMemoryCapabilities
        } else if place == 33 {
            Capability::NvExternalMemory
        } else if place == 34 {
            Capability::NvExternalMemoryWin32
        } else if place == 35 {
            Capability::NvWin32KeyedMutex
        } else if place == 36 {
            Capability::KhxDeviceGroup
        } else if place == 37 {
            Capability::ExtValidationFlags
        } else if place == 38 {
            Capability::NnViSurface
        } else if place == 39 {
            Capability::ExtShaderSubgroupBallot
        } else if place == 40 {
            Capability::ExtShaderSubgroupVote
        } else if place == 41 {
            Capability::KhxDeviceGroupCreation
        } else if place == 42 {
            Capability::KhxExternalMemoryCapabilities
        } else if place == 43 {
            Capability::KhxExternalMemory
        } else if place == 44 {
            Capability::KhxExternalMemoryWin32
        } else if place == 45 {
            Capability::KhxExternalMemoryFd
        } else if place == 46 {
            Capability::KhxWin32KeyedMutex
        } else if place == 47 {
            Capability::KhxExternalSemaphoreCapabilities
        } else if place == 48 {
            Capability::KhxExternalSemaphore
        } else if place == 49 {
            Capability::KhxExternalSemaphoreWin32
        } else if place == 50 {
            Capability::KhxExternalSemaphoreFd
        } else if place == 51 {
            Capability::NvxDeviceGeneratedCommands
        } else if place == 52 {
            Capability::NvClipSpaceWScaling
        } else if place == 53 {
            Capability::ExtDirectModeDisplay
        } else if place == 54 {
            Capability::ExtAcquireXlibDisplay
        } else if place == 55 {
            Capability::ExtDisplaySurfaceCounter
        } else if place == 56 {
            Capability::ExtDisplayControl
        } else if place == 57 {
            Capability::GoogleDisplayTiming
        } else if place == 58 {
            Capability::NvSampleMaskOverrideCoverage
        } else if place == 59 {
            Capability::NvGeometryShaderPassthrough
        } else if place == 60 {
            Capability::NvViewportArray2
        } else if place == 61 {
            Capability::NvxMultiviewPerViewAttributes
        } else if place == 62 {
            Capability::NvViewportSwizzle
        } else if place == 63 {
            Capability::ExtDiscardRectangles
        } else if place == 64 {
            Capability::ExtSwapchainColorspace
        } else if place == 65 {
            Capability::ExtHdrMetadata
        } else if place == 66 {
            Capability::MvkIosSurface
        } else if place == 67 {
            Capability::MvkMacosSurface
        } else {
            Capability::KhrSharedPresentableImage
        }
    }

    /// The name under which the native API knows this capability.
    pub open spec fn name_text(self) -> Seq<char> {
        match self {
            Capability::KhrSurface => "VK_KHR_surface"@,
            Capability::KhrSwapchain => "VK_KHR_swapchain"@,
            Capability::KhrDisplay => "VK_KHR_display"@,
            Capability::KhrDisplaySwapchain => "VK_KHR_display_swapchain"@,
            Capability::KhrXlibSurface => "VK_KHR_xlib_surface"@,
            Capability::KhrXcbSurface => "VK_KHR_xcb_surface"@,
            Capability::KhrWaylandSurface => "VK_KHR_wayland_surface"@,
            Capability::KhrMirSurface => "VK_KHR_mir_surface"@,
            Capability::KhrAndroidSurface => "VK_KHR_android_surface"@,
            Capability::KhrWin32Surface => "VK_KHR_win32_surface"@,
            Capability::KhrSamplerMirrorClampToEdge => "VK_KHR_sampler_mirror_clamp_to_edge"@,
            Capability::KhrGetPhysicalDeviceProperties2 => "VK_KHR_get_physical_device_properties2"@,
            Capability::KhrShaderDrawParameters => "VK_KHR_shader_draw_parameters"@,
            Capability::KhrMaintenance1 => "VK_KHR_maintenance1"@,
            Capability::KhrPushDescriptor => "VK_KHR_push_descriptor"@,
            Capability::KhrIncrementalPresent => "VK_KHR_incremental_present"@,
            Capability::KhrDescriptorUpdateTemplate => "VK_KHR_descriptor_update_template"@,
            Capability::ExtDebugReport => "VK_EXT_debug_report"@,
            Capability::NvGlslShader => "VK_NV_glsl_shader"@,
            Capability::ImgFilterCubic => "VK_IMG_filter_cubic"@,
            Capability::AmdRasterizationOrder => "VK_AMD_rasterization_order"@,
            Capability::AmdShaderTrinaryMinmax => "VK_AMD_shader_trinary_minmax"@,
            Capability::AmdShaderExplicitVertexParameter => "VK_AMD_shader_explicit_vertex_parameter"@,
            Capability::ExtDebugMarker => "VK_EXT_debug_marker"@,
            Capability::AmdGcnShader => "VK_AMD_gcn_shader"@,
            Capability::NvDedicatedAllocation => "VK_NV_dedicated_allocation"@,
            Capability::AmdDrawIndirectCount => "VK_AMD_draw_indirect_count"@,
            Capability::AmdNegativeViewportHeight => "VK_AMD_negative_viewport_height"@,
            Capability::AmdGpuShaderHalfFloat => "VK_AMD_gpu_shader_half_float"@,
            Capability::AmdShaderBallot => "VK_AMD_shader_ballot"@,
            Capability::KhxMultiview => "VK_KHX_multiview"@,
            Capability::ImgFormatPvrtc => "VK_IMG_format_pvrtc"@,
            Capability::NvExternalMemoryCapabilities => "VK_NV_external_memory_capabilities"@,
            Capability::NvExternalMemory => "VK_NV_external_memory"@,
            Capability::NvExternalMemoryWin32 => "VK_NV_external_memory_win32"@,
            Capability::NvWin32KeyedMutex => "VK_NV_win32_keyed_mutex"@,
            Capability::KhxDeviceGroup => "VK_KHX_device_group"@,
            Capability::ExtValidationFlags => "VK_EXT_validation_flags"@,
            Capability::NnViSurface => "VK_NN_vi_surface"@,
            Capability::ExtShaderSubgroupBallot => "VK_EXT_shader_subgroup_ballot"@,
            Capability::ExtShaderSubgroupVote => "VK_EXT_shader_subgroup_vote"@,
            Capability::KhxDeviceGroupCreation => "VK_KHX_device_group_creation"@,
            Capability::KhxExternalMemoryCapabilities => "VK_KHX_external_memory_capabilities"@,
            Capability::KhxExternalMemory => "VK_KHX_external_memory"@,
            Capability::KhxExternalMemoryWin32 => "VK_KHX_external_memory_win32"@,
            Capability::KhxExternalMemoryFd => "VK_KHX_external_memory_fd"@,
            Capability::KhxWin32KeyedMutex => "VK_KHX_win32_keyed_mutex"@,
            Capability::KhxExternalSemaphoreCapabilities => "VK_KHX_external_semaphore_capabilities"@,
            Capability::KhxExternalSemaphore => "VK_KHX_external_semaphore"@,
            Capability::KhxExternalSemaphoreWin32 => "VK_KHX_external_semaphore_win32"@,
            Capability::KhxExternalSemaphoreFd => "VK_KHX_external_semaphore_fd"@,
            Capability::NvxDeviceGeneratedCommands => "VK_NVX_device_generated_commands"@,
            Capability::NvClipSpaceWScaling => "VK_NV_clip_space_w_scaling"@,
            Capability::ExtDirectModeDisplay => "VK_EXT_direct_mode_display"@,
            Capability::ExtAcquireXlibDisplay => "VK_EXT_acquire_xlib_display"@,
            Capability::ExtDisplaySurfaceCounter => "VK_EXT_display_surface_counter"@,
            Capability::ExtDisplayControl => "VK_EXT_display_control"@,
            Capability::GoogleDisplayTiming => "VK_GOOGLE_display_timing"@,
            Capability::NvSampleMaskOverrideCoverage => "VK_NV_sample_mask_override_coverage"@,
            Capability::NvGeometryShaderPassthrough => "VK_NV_geometry_shader_passthrough"@,
            Capability::NvViewportArray2 => "VK_NV_viewport_array2"@,
            Capability::NvxMultiviewPerViewAttributes => "VK_NVX_multiview_per_view_attributes"@,
            Capability::NvViewportSwizzle => "VK_NV_viewport_swizzle"@,
            Capability::ExtDiscardRectangles => "VK_EXT_discard_rectangles"@,
            Capability::ExtSwapchainColorspace => "VK_EXT_swapchain_colorspace"@,
            Capability::ExtHdrMetadata => "VK_EXT_hdr_metadata"@,
            Capability::MvkIosSurface => "VK_MVK_ios_surface"@,
            Capability::MvkMacosSurface => "VK_MVK_macos_surface"@,
            Capability::KhrSharedPresentableImage => "VK_KHR_shared_presentable_image"@,
        }
    }

    /// This capability adds its name to the names handed to instance
    /// creation.
    pub open spec fn named_at_instance(self) -> bool {
        !(self is KhrSharedPresentableImage)
    }

    /// This capability adds a bundle of entry points to the loader of the
    /// given scope.
    pub open spec fn resolved_at(self, scope: Scope) -> bool {
        match scope {
            Scope::Instance => match self {
                Capability::KhrSurface
                | Capability::KhrSwapchain
                | Capability::KhrDisplay
                | Capability::KhrDisplaySwapchain
                | Capability::KhrXlibSurface
                | Capability::KhrXcbSurface
                | Capability::KhrWaylandSurface
                | Capability::KhrMirSurface
                | Capability::KhrAndroidSurface
                | Capability::KhrWin32Surface
                | Capability::KhrGetPhysicalDeviceProperties2
                | Capability::KhrMaintenance1
                | Capability::KhrPushDescriptor
                | Capability::KhrDescriptorUpdateTemplate
                | Capability::ExtDebugReport
                | Capability::ExtDebugMarker
                | Capability::AmdDrawIndirectCount
                | Capability::NvExternalMemoryCapabilities
                | Capability::NvExternalMemoryWin32
                | Capability::KhxDeviceGroup
                | Capability::NnViSurface
                | Capability::KhxDeviceGroupCreation
                | Capability::KhxExternalMemoryCapabilities
                | Capability::KhxExternalMemoryWin32
                | Capability::KhxExternalMemoryFd
                | Capability::KhxExternalSemaphoreCapabilities
                | Capability::KhxExternalSemaphoreWin32
                | Capability::KhxExternalSemaphoreFd
                | Capability::NvxDeviceGeneratedCommands
                | Capability::NvClipSpaceWScaling
                | Capability::ExtDirectModeDisplay
                | Capability::ExtAcquireXlibDisplay
                | Capability::ExtDisplaySurfaceCounter
                | Capability::ExtDisplayControl
                | Capability::GoogleDisplayTiming
                | Capability::ExtDiscardRectangles
                | Capability::ExtHdrMetadata
                | Capability::MvkIosSurface
                | Capability::MvkMacosSurface => true,
                _ => false,
            },
            Scope::Device => match self {
                Capability::KhrSwapchain
                | Capability::KhrDisplaySwapchain
                | Capability::KhrMaintenance1
                | Capability::KhrPushDescriptor
                | Capability::KhrDescriptorUpdateTemplate
                | Capability::ExtDebugMarker
                | Capability::AmdDrawIndirectCount
                | Capability::NvExternalMemoryWin32
                | Capability::KhxDeviceGroup
                | Capability::KhxExternalMemoryWin32
                | Capability::KhxExternalMemoryFd
                | Capability::KhxExternalSemaphoreWin32
                | Capability::KhxExternalSemaphoreFd
                | Capability::NvxDeviceGeneratedCommands
                | Capability::NvClipSpaceWScaling
                | Capability::ExtDisplayControl
                | Capability::GoogleDisplayTiming
                | Capability::ExtDiscardRectangles
                | Capability::ExtHdrMetadata
                | Capability::KhrSharedPresentableImage => true,
                _ => false,
            },
        }
    }

    /// The place of this capability on the menu.
    pub fn index(self) -> (place: usize)
        ensures
            place == self.ordinal(),
            place < MENU_LEN,
            Capability::at(place as int) == self,
    {
        match self {
            Capability::KhrSurface => 0,
            Capability::KhrSwapchain => 1,
            Capability::KhrDisplay => 2,
            Capability::KhrDisplaySwapchain => 3,
            Capability::KhrXlibSurface => 4,
            Capability::KhrXcbSurface => 5,
            Capability::KhrWaylandSurface => 6,
            Capability::KhrMirSurface => 7,
            Capability::KhrAndroidSurface => 8,
            Capability::KhrWin32Surface => 9,
            Capability::KhrSamplerMirrorClampToEdge => 10,
            Capability::KhrGetPhysicalDeviceProperties2 => 11,
            Capability::KhrShaderDrawParameters => 12,
            Capability::KhrMaintenance1 => 13,
            Capability::KhrPushDescriptor => 14,
            Capability::KhrIncrementalPresent => 15,
            Capability::KhrDescriptorUpdateTemplate => 16,
            Capability::ExtDebugReport => 17,
            Capability::NvGlslShader => 18,
            Capability::ImgFilterCubic => 19,
            Capability::AmdRasterizationOrder => 20,
            Capability::AmdShaderTrinaryMinmax => 21,
            Capability::AmdShaderExplicitVertexParameter => 22,
            Capability::ExtDebugMarker => 23,
            Capability::AmdGcnShader => 24,
            Capability::NvDedicatedAllocation => 25,
            Capability::AmdDrawIndirectCount => 26,
            Capability::AmdNegativeViewportHeight => 27,
            Capability::AmdGpuShaderHalfFloat => 28,
            Capability::AmdShaderBallot => 29,
            Capability::KhxMultiview => 30,
            Capability::ImgFormatPvrtc => 31,
            Capability::NvExternalMemoryCapabilities => 32,
            Capability::NvExternalMemory => 33,
            Capability::NvExternalMemoryWin32 => 34,
            Capability::NvWin32KeyedMutex => 35,
            Capability::KhxDeviceGroup => 36,
            Capability::ExtValidationFlags => 37,
            Capability::NnViSurface => 38,
            Capability::ExtShaderSubgroupBallot => 39,
            Capability::ExtShaderSubgroupVote => 40,
            Capability::KhxDeviceGroupCreation => 41,
            Capability::KhxExternalMemoryCapabilities => 42,
            Capability::KhxExternalMemory => 43,
            Capability::KhxExternalMemoryWin32 => 44,
            Capability::KhxExternalMemoryFd => 45,
            Capability::KhxWin32KeyedMutex => 46,
            Capability::KhxExternalSemaphoreCapabilities => 47,
            Capability::KhxExternalSemaphore => 48,
            Capability::KhxExternalSemaphoreWin32 => 49,
            Capability::KhxExternalSemaphoreFd => 50,
            Capability::NvxDeviceGeneratedCommands => 51,
            Capability::NvClipSpaceWScaling => 52,
            Capability::ExtDirectModeDisplay => 53,
            Capability::ExtAcquireXlibDisplay => 54,
            Capability::ExtDisplaySurfaceCounter => 55,
            Capability::ExtDisplayControl => 56,
            Capability::GoogleDisplayTiming => 57,
            Capability::NvSampleMaskOverrideCoverage => 58,
            Capability::NvGeometryShaderPassthrough => 59,
            Capability::NvViewportArray2 => 60,
            Capability::NvxMultiviewPerViewAttributes => 61,
            Capability::NvViewportSwizzle => 62,
            Capability::ExtDiscardRectangles => 63,
            Capability::ExtSwapchainColorspace => 64,
            Capability::ExtHdrMetadata => 65,
            Capability::MvkIosSurface => 66,
            Capability::MvkMacosSurface => 67,
            Capability::KhrSharedPresentableImage => 68,
        }
    }

    /// The capability at a place of the menu, if the menu is that long.
    pub fn from_index(place: usize) -> (found: Option<Capability>)
        ensures
            place < MENU_LEN ==> found == Some(Capability::at(place as int)),
            place >= MENU_LEN ==> found is None,
            found matches Some(c) ==> c.ordinal() == place,
    {
        match place {
            0 => Some(Capability::KhrSurface),
            1 => Some(Capability::KhrSwapchain),
            2 => Some(Capability::KhrDisplay),
            3 => Some(Capability::KhrDisplaySwapchain),
            4 => Some(Capability::KhrXlibSurface),
            5 => Some(Capability::KhrXcbSurface),
            6 => Some(Capability::KhrWaylandSurface),
            7 => Some(Capability::KhrMirSurface),
            8 => Some(Capability::KhrAndroidSurface),
            9 => Some(Capability::KhrWin32Surface),
            10 => Some(Capability::KhrSamplerMirrorClampToEdge),
            11 => Some(Capability::KhrGetPhysicalDeviceProperties2),
            12 => Some(Capability::KhrShaderDrawParameters),
            13 => Some(Capability::KhrMaintenance1),
            14 => Some(Capability::KhrPushDescriptor),
            15 => Some(Capability::KhrIncrementalPresent),
            16 => Some(Capability::KhrDescriptorUpdateTemplate),
            17 => Some(Capability::ExtDebugReport),
            18 => Some(Capability::NvGlslShader),
            19 => Some(Capability::ImgFilterCubic),
            20 => Some(Capability::AmdRasterizationOrder),
            21 => Some(Capability::AmdShaderTrinaryMinmax),
            22 => Some(Capability::AmdShaderExplicitVertexParameter),
            23 => Some(Capability::ExtDebugMarker),
            24 => Some(Capability::AmdGcnShader),
            25 => Some(Capability::NvDedicatedAllocation),
            26 => Some(Capability::AmdDrawIndirectCount),
            27 => Some(Capability::AmdNegativeViewportHeight),
            28 => Some(Capability::AmdGpuShaderHalfFloat),
            29 => Some(Capability::AmdShaderBallot),
            30 => Some(Capability::KhxMultiview),
            31 => Some(Capability::ImgFormatPvrtc),
            32 => Some(Capability::NvExternalMemoryCapabilities),
            33 => Some(Capability::NvExternalMemory),
            34 => Some(Capability::NvExternalMemoryWin32),
            35 => Some(Capability::NvWin32KeyedMutex),
            36 => Some(Capability::KhxDeviceGroup),
            37 => Some(Capability::ExtValidationFlags),
            38 => Some(Capability::NnViSurface),
            39 => Some(Capability::ExtShaderSubgroupBallot),
            40 => Some(Capability::ExtShaderSubgroupVote),
            41 => Some(Capability::KhxDeviceGroupCreation),
            42 => Some(Capability::KhxExternalMemoryCapabilities),
            43 => Some(Capability::KhxExternalMemory),
            44 => Some(Capability::KhxExternalMemoryWin32),
            45 => Some(Capability::KhxExternalMemoryFd),
            46 => Some(Capability::KhxWin32KeyedMutex),
            47 => Some(Capability::KhxExternalSemaphoreCapabilities),
            48 => Some(Capability::KhxExternalSemaphore),
            49 => Some(Capability::KhxExternalSemaphoreWin32),
            50 => Some(Capability::KhxExternalSemaphoreFd),
            51 => Some(Capability::NvxDeviceGeneratedCommands),
            52 => Some(Capability::NvClipSpaceWScaling),
            53 => Some(Capability::ExtDirectModeDisplay),
            54 => Some(Capability::ExtAcquireXlibDisplay),
            55 => Some(Capability::ExtDisplaySurfaceCounter),
            56 => Some(Capability::ExtDisplayControl),
            57 => Some(Capability::GoogleDisplayTiming),
            58 => Some(Capability::NvSampleMaskOverrideCoverage),
            59 => Some(Capability::NvGeometryShaderPassthrough),
            60 => Some(Capability::NvViewportArray2),
            61 => Some(Capability::NvxMultiviewPerViewAttributes),
            62 => Some(Capability::NvViewportSwizzle),
            63 => Some(Capability::ExtDiscardRectangles),
            64 => Some(Capability::ExtSwapchainColorspace),
            65 => Some(Capability::ExtHdrMetadata),
            66 => Some(Capability::MvkIosSurface),
            67 => Some(Capability::MvkMacosSurface),
            68 => Some(Capability::KhrSharedPresentableImage),
            _ => None,
        }
    }

    /// The name under which the native API knows this capability.
    pub fn name(self) -> (text: &'static str)
        ensures
            text@ == self.name_text(),
    {
        match self {
            Capability::KhrSurface => "VK_KHR_surface",
            Capability::KhrSwapchain => "VK_KHR_swapchain",
            Capability::KhrDisplay => "VK_KHR_display",
            Capability::KhrDisplaySwapchain => "VK_KHR_display_swapchain",
            Capability::KhrXlibSurface => "VK_KHR_xlib_surface",
            Capability::KhrXcbSurface => "VK_KHR_xcb_surface",
            Capability::KhrWaylandSurface => "VK_KHR_wayland_surface",
            Capability::KhrMirSurface => "VK_KHR_mir_surface",
            Capability::KhrAndroidSurface => "VK_KHR_android_surface",
            Capability::KhrWin32Surface => "VK_KHR_win32_surface",
            Capability::KhrSamplerMirrorClampToEdge => "VK_KHR_sampler_mirror_clamp_to_edge",
            Capability::KhrGetPhysicalDeviceProperties2 => "VK_KHR_get_physical_device_properties2",
            Capability::KhrShaderDrawParameters => "VK_KHR_shader_draw_parameters",
            Capability::KhrMaintenance1 => "VK_KHR_maintenance1",
            Capability::KhrPushDescriptor => "VK_KHR_push_descriptor",
            Capability::KhrIncrementalPresent => "VK_KHR_incremental_present",
            Capability::KhrDescriptorUpdateTemplate => "VK_KHR_descriptor_update_template",
            Capability::ExtDebugReport => "VK_EXT_debug_report",
            Capability::NvGlslShader => "VK_NV_glsl_shader",
            Capability::ImgFilterCubic => "VK_IMG_filter_cubic",
            Capability::AmdRasterizationOrder => "VK_AMD_rasterization_order",
            Capability::AmdShaderTrinaryMinmax => "VK_AMD_shader_trinary_minmax",
            Capability::AmdShaderExplicitVertexParameter => "VK_AMD_shader_explicit_vertex_parameter",
            Capability::ExtDebugMarker => "VK_EXT_debug_marker",
            Capability::AmdGcnShader => "VK_AMD_gcn_shader",
            Capability::NvDedicatedAllocation => "VK_NV_dedicated_allocation",
            Capability::AmdDrawIndirectCount => "VK_AMD_draw_indirect_count",
            Capability::AmdNegativeViewportHeight => "VK_AMD_negative_viewport_height",
            Capability::AmdGpuShaderHalfFloat => "VK_AMD_gpu_shader_half_float",
            Capability::AmdShaderBallot => "VK_AMD_shader_ballot",
            Capability::KhxMultiview => "VK_KHX_multiview",
            Capability::ImgFormatPvrtc => "VK_IMG_format_pvrtc",
            Capability::NvExternalMemoryCapabilities => "VK_NV_external_memory_capabilities",
            Capability::NvExternalMemory => "VK_NV_external_memory",
            Capability::NvExternalMemoryWin32 => "VK_NV_external_memory_win32",
            Capability::NvWin32KeyedMutex => "VK_NV_win32_keyed_mutex",
            Capability::KhxDeviceGroup => "VK_KHX_device_group",
            Capability::ExtValidationFlags => "VK_EXT_validation_flags",
            Capability::NnViSurface => "VK_NN_vi_surface",
            Capability::ExtShaderSubgroupBallot => "VK_EXT_shader_subgroup_ballot",
            Capability::ExtShaderSubgroupVote => "VK_EXT_shader_subgroup_vote",
            Capability::KhxDeviceGroupCreation => "VK_KHX_device_group_creation",
            Capability::KhxExternalMemoryCapabilities => "VK_KHX_external_memory_capabilities",
            Capability::KhxExternalMemory => "VK_KHX_external_memory",
            Capability::KhxExternalMemoryWin32 => "VK_KHX_external_memory_win32",
            Capability::KhxExternalMemoryFd => "VK_KHX_external_memory_fd",
            Capability::KhxWin32KeyedMutex => "VK_KHX_win32_keyed_mutex",
            Capability::KhxExternalSemaphoreCapabilities => "VK_KHX_external_semaphore_capabilities",
            Capability::KhxExternalSemaphore => "VK_KHX_external_semaphore",
            Capability::KhxExternalSemaphoreWin32 => "VK_KHX_external_semaphore_win32",
            Capability::KhxExternalSemaphoreFd => "VK_KHX_external_semaphore_fd",
            Capability::NvxDeviceGeneratedCommands => "VK_NVX_device_generated_commands",
            Capability::NvClipSpaceWScaling => "VK_NV_clip_space_w_scaling",
            Capability::ExtDirectModeDisplay => "VK_EXT_direct_mode_display",
            Capability::ExtAcquireXlibDisplay => "VK_EXT_acquire_xlib_display",
            Capability::ExtDisplaySurfaceCounter => "VK_EXT_display_surface_counter",
            Capability::ExtDisplayControl => "VK_EXT_display_control",
            Capability::GoogleDisplayTiming => "VK_GOOGLE_display_timing",
            Capability::NvSampleMaskOverrideCoverage => "VK_NV_sample_mask_override_coverage",
            Capability::NvGeometryShaderPassthrough => "VK_NV_geometry_shader_passthrough",
            Capability::NvViewportArray2 => "VK_NV_viewport_array2",
            Capability::NvxMultiviewPerViewAttributes => "VK_NVX_multiview_per_view_attributes",
            Capability::NvViewportSwizzle => "VK_NV_viewport_swizzle",
            Capability::ExtDiscardRectangles => "VK_EXT_discard_rectangles",
            Capability::ExtSwapchainColorspace => "VK_EXT_swapchain_colorspace",
            Capability::ExtHdrMetadata => "VK_EXT_hdr_metadata",
            Capability::MvkIosSurface => "VK_MVK_ios_surface",
            Capability::MvkMacosSurface => "VK_MVK_macos_surface",
            Capability::KhrSharedPresentableImage => "VK_KHR_shared_presentable_image",
        }
    }

    /// Whether this capability adds its name to the names handed to
    /// instance creation.
    pub fn is_named_at_instance(self) -> (named: bool)
        ensures
            named == self.named_at_instance(),
    {
        match self {
            Capability::KhrSharedPresentableImage => false,
            _ => true,
        }
    }

    /// Whether this capability adds a bundle of entry points to the loader
    /// of the given scope.
    pub fn is_resolved_at(self, scope: Scope) -> (resolved: bool)
        ensures
            resolved == self.resolved_at(scope),
    {
        match scope {
            Scope::Instance => match self {
                Capability::KhrSurface
                | Capability::KhrSwapchain
                | Capability::KhrDisplay
                | Capability::KhrDisplaySwapchain
                | Capability::KhrXlibSurface
                | Capability::KhrXcbSurface
                | Capability::KhrWaylandSurface
                | Capability::KhrMirSurface
                | Capability::KhrAndroidSurface
                | Capability::KhrWin32Surface
                | Capability::KhrGetPhysicalDeviceProperties2
                | Capability::KhrMaintenance1
                | Capability::KhrPushDescriptor
                | Capability::KhrDescriptorUpdateTemplate
                | Capability::ExtDebugReport
                | Capability::ExtDebugMarker
                | Capability::AmdDrawIndirectCount
                | Capability::NvExternalMemoryCapabilities
                | Capability::NvExternalMemoryWin32
                | Capability::KhxDeviceGroup
                | Capability::NnViSurface
                | Capability::KhxDeviceGroupCreation
                | Capability::KhxExternalMemoryCapabilities
                | Capability::KhxExternalMemoryWin32
                | Capability::KhxExternalMemoryFd
                | Capability::KhxExternalSemaphoreCapabilities
                | Capability::KhxExternalSemaphoreWin32
                | Capability::KhxExternalSemaphoreFd
                | Capability::NvxDeviceGeneratedCommands
                | Capability::NvClipSpaceWScaling
                | Capability::ExtDirectModeDisplay
                | Capability::ExtAcquireXlibDisplay
                | Capability::ExtDisplaySurfaceCounter
                | Capability::ExtDisplayControl
                | Capability::GoogleDisplayTiming
                | Capability::ExtDiscardRectangles
                | Capability::ExtHdrMetadata
                | Capability::MvkIosSurface
                | Capability::MvkMacosSurface => true,
                _ => false,
            },
            Scope::Device => match self {
                Capability::KhrSwapchain
                | Capability::KhrDisplaySwapchain
                | Capability::KhrMaintenance1
                | Capability::KhrPushDescriptor
                | Capability::KhrDescriptorUpdateTemplate
                | Capability::ExtDebugMarker
                | Capability::AmdDrawIndirectCount
                | Capability::NvExternalMemoryWin32
                | Capability::KhxDeviceGroup
                | Capability::KhxExternalMemoryWin32
                | Capability::KhxExternalMemoryFd
                | Capability::KhxExternalSemaphoreWin32
                | Capability::KhxExternalSemaphoreFd
                | Capability::NvxDeviceGeneratedCommands
                | Capability::NvClipSpaceWScaling
                | Capability::ExtDisplayControl
                | Capability::GoogleDisplayTiming
                | Capability::ExtDiscardRectangles
                | Capability::ExtHdrMetadata
                | Capability::KhrSharedPresentableImage => true,
                _ => false,
            },
        }
    }

    /// The name of this capability in native form: its bytes and a closing
    /// zero byte. No name on the menu fails to be marshalled.
    pub fn marshalled_name(self) -> (buffer: Vec<u8>)
        ensures
            buffer@ == encode_utf8(self.name_text()).push(0u8),
    {
        proof {
            lemma_name_nul_free(self);
        }
        match to_c_string(self.name().as_bytes()) {
            Ok(buffer) => buffer,
            Err(_) => Vec::new(),
        }
    }

    /// Looks a capability up by its name. A name that is not on the menu
    /// finds nothing: such a capability cannot be enabled.
    pub fn from_name(name: &str) -> (found: Option<Capability>)
        ensures
            found == lookup(name@),
            found is Some <==> on_menu(name@),
            forall|c: Capability| found == Some(c) <==> c.name_text() == name@,
    {
        proof {
            lemma_lookup_from(name@, 0);
            assert forall|c: Capability| lookup(name@) == Some(c) <==> c.name_text()
                == name@ by {
                lemma_name_finds_capability(c);
            }
        }
        let mut place: usize = 0;
        while place < MENU_LEN
            invariant
                0 <= place <= MENU_LEN,
                lookup(name@) == lookup_from(name@, place as int),
                forall|c: Capability| lookup(name@) == Some(c) <==> c.name_text() == name@,
            decreases MENU_LEN - place,
        {
            match Capability::from_index(place) {
                Some(c) => {
                    if same_text(c.name(), name) {
                        return Some(c);
                    }
                },
                None => {},
            }
            place += 1;
        }
        None
    }
}

/// The first capability at or behind a place of the menu that has this
/// name.
pub open spec fn lookup_from(name: Seq<char>, place: int) -> Option<Capability>
    decreases MENU_LEN - place,
{
    if place < 0 || place >= MENU_LEN {
        None
    } else if Capability::at(place).name_text() == name {
        Some(Capability::at(place))
    } else {
        lookup_from(name, place + 1)
    }
}

/// The capability of the menu that has this name.
pub open spec fn lookup(name: Seq<char>) -> Option<Capability> {
    lookup_from(name, 0)
}

/// Some capability of the menu has this name.
pub open spec fn on_menu(name: Seq<char>) -> bool {
    lookup(name) is Some
}

/// What a lookup finds has the name that was looked up, and a lookup
/// finds nothing only where no capability behind the place has the name.
pub proof fn lemma_lookup_from(name: Seq<char>, place: int)
    requires
        0 <= place <= MENU_LEN,
    ensures
        lookup_from(name, place) matches Some(c) ==> c.name_text() == name && place <= c.ordinal(),
        lookup_from(name, place) is None ==> forall|c: Capability|
            place <= c.ordinal() ==> c.name_text() != name,
    decreases MENU_LEN - place,
{
    if place < MENU_LEN {
        lemma_lookup_from(name, place + 1);
        lemma_ordinal_at(place);
        if lookup_from(name, place) is None {
            assert forall|c: Capability| place <= c.ordinal() implies c.name_text() != name by {
                lemma_at_ordinal(c);
            }
        }
    } else {
        assert forall|c: Capability| place <= c.ordinal() implies c.name_text() != name by {
            lemma_at_ordinal(c);
        }
    }
}

/// A name is on the menu exactly if some capability has it. So a name
/// that no capability has cannot be enabled.
pub proof fn lemma_on_menu(name: Seq<char>)
    ensures
        on_menu(name) <==> exists|c: Capability| c.name_text() == name,
{
    lemma_lookup_from(name, 0);
    if on_menu(name) {
        assert(lookup(name)->0.name_text() == name);
    }
    if exists|c: Capability| c.name_text() == name {
        let c = choose|c: Capability| c.name_text() == name;
        lemma_at_ordinal(c);
    }
}

/// Every capability has a place on the menu and stands at that place.
pub proof fn lemma_at_ordinal(c: Capability)
    ensures
        0 <= c.ordinal() < MENU_LEN,
        Capability::at(c.ordinal()) == c,
{
}

/// Every place of the menu holds the capability with that ordinal.
pub proof fn lemma_ordinal_at(place: int)
    requires
        0 <= place < MENU_LEN,
    ensures
        Capability::at(place).ordinal() == place,
{
}

/// What tells the names of the menu apart: the length of a name, and the
/// characters at two places of it.
spec fn mark(name: Seq<char>) -> (nat, char, char) {
    (
        name.len(),
        if name.len() > 9 {
            name[9]
        } else {
            ' '
        },
        if name.len() > 16 {
            name[16]
        } else {
            ' '
        },
    )
}

/// The mark of the name of each capability.
spec fn mark_of(c: Capability) -> (nat, char, char) {
    match c {
        Capability::KhrSurface => (14, 'r', ' '),
        Capability::KhrSwapchain => (16, 'a', ' '),
        Capability::KhrDisplay => (14, 's', ' '),
        Capability::KhrDisplaySwapchain => (24, 's', 'w'),
        Capability::KhrXlibSurface => (19, 'i', 'a'),
        Capability::KhrXcbSurface => (18, 'b', 'c'),
        Capability::KhrWaylandSurface => (22, 'y', 'u'),
        Capability::KhrMirSurface => (18, 'r', 'c'),
        Capability::KhrAndroidSurface => (22, 'd', 'u'),
        Capability::KhrWin32Surface => (20, 'n', 'f'),
        Capability::KhrSamplerMirrorClampToEdge => (35, 'm', 'i'),
        Capability::KhrGetPhysicalDeviceProperties2 => (38, 't', 'c'),
        Capability::KhrShaderDrawParameters => (29, 'a', 'a'),
        Capability::KhrMaintenance1 => (19, 'i', 'c'),
        Capability::KhrPushDescriptor => (22, 's', 'r'),
        Capability::KhrIncrementalPresent => (26, 'c', 'a'),
        Capability::KhrDescriptorUpdateTemplate => (33, 's', 'r'),
        Capability::ExtDebugReport => (19, 'b', 'o'),
        Capability::NvGlslShader => (17, 'l', 'r'),
        Capability::ImgFilterCubic => (19, 'l', 'b'),
        Capability::AmdRasterizationOrder => (26, 's', 't'),
        Capability::AmdShaderTrinaryMinmax => (28, 'a', 'i'),
        Capability::AmdShaderExplicitVertexParameter => (39, 'a', 'p'),
        Capability::ExtDebugMarker => (19, 'b', 'k'),
        Capability::AmdGcnShader => (17, 'n', 'r'),
        Capability::NvDedicatedAllocation => (26, 'i', 'a'),
        Capability::AmdDrawIndirectCount => (26, 'a', 'r'),
        Capability::AmdNegativeViewportHeight => (31, 'g', 'v'),
        Capability::AmdGpuShaderHalfFloat => (28, 'u', 'r'),
        Capability::AmdShaderBallot => (20, 'a', 'l'),
        Capability::KhxMultiview => (16, 'l', ' '),
        Capability::ImgFormatPvrtc => (19, 'r', 'r'),
        Capability::NvExternalMemoryCapabilities => (34, 'e', 'e'),
        Capability::NvExternalMemory => (21, 'e', 'e'),
        Capability::NvExternalMemoryWin32 => (27, 'e', 'e'),
        Capability::NvWin32KeyedMutex => (23, '3', 'd'),
        Capability::KhxDeviceGroup => (19, 'v', 'o'),
        Capability::ExtValidationFlags => (23, 'l', 'n'),
        Capability::NnViSurface => (16, 's', ' '),
        Capability::ExtShaderSubgroupBallot => (29, 'a', 'b'),
        Capability::ExtShaderSubgroupVote => (27, 'a', 'b'),
        Capability::KhxDeviceGroupCreation => (28, 'v', 'o'),
        Capability::KhxExternalMemoryCapabilities => (35, 't', 'm'),
        Capability::KhxExternalMemory => (22, 't', 'm'),
        Capability::KhxExternalMemoryWin32 => (28, 't', 'm'),
        Capability::KhxExternalMemoryFd => (25, 't', 'm'),
        Capability::KhxWin32KeyedMutex => (24, 'n', 'e'),
        Capability::KhxExternalSemaphoreCapabilities => (38, 't', 's'),
        Capability::KhxExternalSemaphore => (25, 't', 's'),
        Capability::KhxExternalSemaphoreWin32 => (31, 't', 's'),
        Capability::KhxExternalSemaphoreFd => (28, 't', 's'),
        Capability::NvxDeviceGeneratedCommands => (32, 'v', 'n'),
        Capability::NvClipSpaceWScaling => (26, 'p', '_'),
        Capability::ExtDirectModeDisplay => (26, 'r', 'd'),
        Capability::ExtAcquireXlibDisplay => (27, 'q', 'l'),
        Capability::ExtDisplaySurfaceCounter => (30, 's', 'u'),
        Capability::ExtDisplayControl => (22, 's', 'o'),
        Capability::GoogleDisplayTiming => (24, '_', 'y'),
        Capability::NvSampleMaskOverrideCoverage => (35, 'p', 'k'),
        Capability::NvGeometryShaderPassthrough => (33, 'm', 'h'),
        Capability::NvViewportArray2 => (21, 'w', 'r'),
        Capability::NvxMultiviewPerViewAttributes => (36, 'l', '_'),
        Capability::NvViewportSwizzle => (22, 'w', 'w'),
        Capability::ExtDiscardRectangles => (25, 's', 'e'),
        Capability::ExtSwapchainColorspace => (27, 'a', '_'),
        Capability::ExtHdrMetadata => (19, 'r', 'a'),
        Capability::MvkIosSurface => (18, 's', 'c'),
        Capability::MvkMacosSurface => (20, 'c', 'f'),
        Capability::KhrSharedPresentableImage => (31, 'a', 'e'),
    }
}

proof fn lemma_mark(c: Capability)
    ensures
        mark(c.name_text()) == mark_of(c),
{
    match c {
        Capability::KhrSurface => {
            reveal_strlit("VK_KHR_surface");
        },
        Capability::KhrSwapchain => {
            reveal_strlit("VK_KHR_swapchain");
        },
        Capability::KhrDisplay => {
            reveal_strlit("VK_KHR_display");
        },
        Capability::KhrDisplaySwapchain => {
            reveal_strlit("VK_KHR_display_swapchain");
        },
        Capability::KhrXlibSurface => {
            reveal_strlit("VK_KHR_xlib_surface");
        },
        Capability::KhrXcbSurface => {
            reveal_strlit("VK_KHR_xcb_surface");
        },
        Capability::KhrWaylandSurface => {
            reveal_strlit("VK_KHR_wayland_surface");
        },
        Capability::KhrMirSurface => {
            reveal_strlit("VK_KHR_mir_surface");
        },
        Capability::KhrAndroidSurface => {
            reveal_strlit("VK_KHR_android_surface");
        },
        Capability::KhrWin32Surface => {
            reveal_strlit("VK_KHR_win32_surface");
        },
        Capability::KhrSamplerMirrorClampToEdge => {
            reveal_strlit("VK_KHR_sampler_mirror_clamp_to_edge");
        },
        Capability::KhrGetPhysicalDeviceProperties2 => {
            reveal_strlit("VK_KHR_get_physical_device_properties2");
        },
        Capability::KhrShaderDrawParameters => {
            reveal_strlit("VK_KHR_shader_draw_parameters");
        },
        Capability::KhrMaintenance1 => {
            reveal_strlit("VK_KHR_maintenance1");
        },
        Capability::KhrPushDescriptor => {
            reveal_strlit("VK_KHR_push_descriptor");
        },
        Capability::KhrIncrementalPresent => {
            reveal_strlit("VK_KHR_incremental_present");
        },
        Capability::KhrDescriptorUpdateTemplate => {
            reveal_strlit("VK_KHR_descriptor_update_template");
        },
        Capability::ExtDebugReport => {
            reveal_strlit("VK_EXT_debug_report");
        },
        Capability::NvGlslShader => {
            reveal_strlit("VK_NV_glsl_shader");
        },
        Capability::ImgFilterCubic => {
            reveal_strlit("VK_IMG_filter_cubic");
        },
        Capability::AmdRasterizationOrder => {
            reveal_strlit("VK_AMD_rasterization_order");
        },
        Capability::AmdShaderTrinaryMinmax => {
            reveal_strlit("VK_AMD_shader_trinary_minmax");
        },
        Capability::AmdShaderExplicitVertexParameter => {
            reveal_strlit("VK_AMD_shader_explicit_vertex_parameter");
        },
        Capability::ExtDebugMarker => {
            reveal_strlit("VK_EXT_debug_marker");
        },
        Capability::AmdGcnShader => {
            reveal_strlit("VK_AMD_gcn_shader");
        },
        Capability::NvDedicatedAllocation => {
            reveal_strlit("VK_NV_dedicated_allocation");
        },
        Capability::AmdDrawIndirectCount => {
            reveal_strlit("VK_AMD_draw_indirect_count");
        },
        Capability::AmdNegativeViewportHeight => {
            reveal_strlit("VK_AMD_negative_viewport_height");
        },
        Capability::AmdGpuShaderHalfFloat => {
            reveal_strlit("VK_AMD_gpu_shader_half_float");
        },
        Capability::AmdShaderBallot => {
            reveal_strlit("VK_AMD_shader_ballot");
        },
        Capability::KhxMultiview => {
            reveal_strlit("VK_KHX_multiview");
        },
        Capability::ImgFormatPvrtc => {
            reveal_strlit("VK_IMG_format_pvrtc");
        },
        Capability::NvExternalMemoryCapabilities => {
            reveal_strlit("VK_NV_external_memory_capabilities");
        },
        Capability::NvExternalMemory => {
            reveal_strlit("VK_NV_external_memory");
        },
        Capability::NvExternalMemoryWin32 => {
            reveal_strlit("VK_NV_external_memory_win32");
        },
        Capability::NvWin32KeyedMutex => {
            reveal_strlit("VK_NV_win32_keyed_mutex");
        },
        Capability::KhxDeviceGroup => {
            reveal_strlit("VK_KHX_device_group");
        },
        Capability::ExtValidationFlags => {
            reveal_strlit("VK_EXT_validation_flags");
        },
        Capability::NnViSurface => {
            reveal_strlit("VK_NN_vi_surface");
        },
        Capability::ExtShaderSubgroupBallot => {
            reveal_strlit("VK_EXT_shader_subgroup_ballot");
        },
        Capability::ExtShaderSubgroupVote => {
            reveal_strlit("VK_EXT_shader_subgroup_vote");
        },
        Capability::KhxDeviceGroupCreation => {
            reveal_strlit("VK_KHX_device_group_creation");
        },
        Capability::KhxExternalMemoryCapabilities => {
            reveal_strlit("VK_KHX_external_memory_capabilities");
        },
        Capability::KhxExternalMemory => {
            reveal_strlit("VK_KHX_external_memory");
        },
        Capability::KhxExternalMemoryWin32 => {
            reveal_strlit("VK_KHX_external_memory_win32");
        },
        Capability::KhxExternalMemoryFd => {
            reveal_strlit("VK_KHX_external_memory_fd");
        },
        Capability::KhxWin32KeyedMutex => {
            reveal_strlit("VK_KHX_win32_keyed_mutex");
        },
        Capability::KhxExternalSemaphoreCapabilities => {
            reveal_strlit("VK_KHX_external_semaphore_capabilities");
        },
        Capability::KhxExternalSemaphore => {
            reveal_strlit("VK_KHX_external_semaphore");
        },
        Capability::KhxExternalSemaphoreWin32 => {
            reveal_strlit("VK_KHX_external_semaphore_win32");
        },
        Capability::KhxExternalSemaphoreFd => {
            reveal_strlit("VK_KHX_external_semaphore_fd");
        },
        Capability::NvxDeviceGeneratedCommands => {
            reveal_strlit("VK_NVX_device_generated_commands");
        },
        Capability::NvClipSpaceWScaling => {
            reveal_strlit("VK_NV_clip_space_w_scaling");
        },
        Capability::ExtDirectModeDisplay => {
            reveal_strlit("VK_EXT_direct_mode_display");
        },
        Capability::ExtAcquireXlibDisplay => {
            reveal_strlit("VK_EXT_acquire_xlib_display");
        },
        Capability::ExtDisplaySurfaceCounter => {
            reveal_strlit("VK_EXT_display_surface_counter");
        },
        Capability::ExtDisplayControl => {
            reveal_strlit("VK_EXT_display_control");
        },
        Capability::GoogleDisplayTiming => {
            reveal_strlit("VK_GOOGLE_display_timing");
        },
        Capability::NvSampleMaskOverrideCoverage => {
            reveal_strlit("VK_NV_sample_mask_override_coverage");
        },
        Capability::NvGeometryShaderPassthrough => {
            reveal_strlit("VK_NV_geometry_shader_passthrough");
        },
        Capability::NvViewportArray2 => {
            reveal_strlit("VK_NV_viewport_array2");
        },
        Capability::NvxMultiviewPerViewAttributes => {
            reveal_strlit("VK_NVX_multiview_per_view_attributes");
        },
        Capability::NvViewportSwizzle => {
            reveal_strlit("VK_NV_viewport_swizzle");
        },
        Capability::ExtDiscardRectangles => {
            reveal_strlit("VK_EXT_discard_rectangles");
        },
        Capability::ExtSwapchainColorspace => {
            reveal_strlit("VK_EXT_swapchain_colorspace");
        },
        Capability::ExtHdrMetadata => {
            reveal_strlit("VK_EXT_hdr_metadata");
        },
        Capability::MvkIosSurface => {
            reveal_strlit("VK_MVK_ios_surface");
        },
        Capability::MvkMacosSurface => {
            reveal_strlit("VK_MVK_macos_surface");
        },
        Capability::KhrSharedPresentableImage => {
            reveal_strlit("VK_KHR_shared_presentable_image");
        },
    }
}

/// No two capabilities share a name.
pub proof fn lemma_names_differ(a: Capability, b: Capability)
    requires
        a != b,
    ensures
        a.name_text() != b.name_text(),
{
    lemma_mark(a);
    lemma_mark(b);
    assert(mark_of(a) != mark_of(b));
}

/// The law of the menu's names: every capability is found by its own
/// name, and by no other capability's.
pub proof fn lemma_name_finds_capability(c: Capability)
    ensures
        lookup(c.name_text()) == Some(c),
        on_menu(c.name_text()),
{
    lemma_lookup_from(c.name_text(), 0);
    lemma_at_ordinal(c);
    let found = lookup(c.name_text());
    assert(found is Some);
    if found->0 != c {
        lemma_names_differ(found->0, c);
    }
}

/// No name on the menu holds a zero byte, so every name can be marshalled.
pub proof fn lemma_name_nul_free(c: Capability)
    ensures
        nul_free(encode_utf8(c.name_text())),
{
    match c {
        Capability::KhrSurface => {
            reveal_strlit("VK_KHR_surface");
            lemma_ascii_nul_free("VK_KHR_surface"@);
        },
        Capability::KhrSwapchain => {
            reveal_strlit("VK_KHR_swapchain");
            lemma_ascii_nul_free("VK_KHR_swapchain"@);
        },
        Capability::KhrDisplay => {
            reveal_strlit("VK_KHR_display");
            lemma_ascii_nul_free("VK_KHR_display"@);
        },
        Capability::KhrDisplaySwapchain => {
            reveal_strlit("VK_KHR_display_swapchain");
            lemma_ascii_nul_free("VK_KHR_display_swapchain"@);
        },
        Capability::KhrXlibSurface => {
            reveal_strlit("VK_KHR_xlib_surface");
            lemma_ascii_nul_free("VK_KHR_xlib_surface"@);
        },
        Capability::KhrXcbSurface => {
            reveal_strlit("VK_KHR_xcb_surface");
            lemma_ascii_nul_free("VK_KHR_xcb_surface"@);
        },
        Capability::KhrWaylandSurface => {
            reveal_strlit("VK_KHR_wayland_surface");
            lemma_ascii_nul_free("VK_KHR_wayland_surface"@);
        },
        Capability::KhrMirSurface => {
            reveal_strlit("VK_KHR_mir_surface");
            lemma_ascii_nul_free("VK_KHR_mir_surface"@);
        },
        Capability::KhrAndroidSurface => {
            reveal_strlit("VK_KHR_android_surface");
            lemma_ascii_nul_free("VK_KHR_android_surface"@);
        },
        Capability::KhrWin32Surface => {
            reveal_strlit("VK_KHR_win32_surface");
            lemma_ascii_nul_free("VK_KHR_win32_surface"@);
        },
        Capability::KhrSamplerMirrorClampToEdge => {
            reveal_strlit("VK_KHR_sampler_mirror_clamp_to_edge");
            lemma_ascii_nul_free("VK_KHR_sampler_mirror_clamp_to_edge"@);
        },
        Capability::KhrGetPhysicalDeviceProperties2 => {
            reveal_strlit("VK_KHR_get_physical_device_properties2");
            lemma_ascii_nul_free("VK_KHR_get_physical_device_properties2"@);
        },
        Capability::KhrShaderDrawParameters => {
            reveal_strlit("VK_KHR_shader_draw_parameters");
            lemma_ascii_nul_free("VK_KHR_shader_draw_parameters"@);
        },
        Capability::KhrMaintenance1 => {
            reveal_strlit("VK_KHR_maintenance1");
            lemma_ascii_nul_free("VK_KHR_maintenance1"@);
        },
        Capability::KhrPushDescriptor => {
            reveal_strlit("VK_KHR_push_descriptor");
            lemma_ascii_nul_free("VK_KHR_push_descriptor"@);
        },
        Capability::KhrIncrementalPresent => {
            reveal_strlit("VK_KHR_incremental_present");
            lemma_ascii_nul_free("VK_KHR_incremental_present"@);
        },
        Capability::KhrDescriptorUpdateTemplate => {
            reveal_strlit("VK_KHR_descriptor_update_template");
            lemma_ascii_nul_free("VK_KHR_descriptor_update_template"@);
        },
        Capability::ExtDebugReport => {
            reveal_strlit("VK_EXT_debug_report");
            lemma_ascii_nul_free("VK_EXT_debug_report"@);
        },
        Capability::NvGlslShader => {
            reveal_strlit("VK_NV_glsl_shader");
            lemma_ascii_nul_free("VK_NV_glsl_shader"@);
        },
        Capability::ImgFilterCubic => {
            reveal_strlit("VK_IMG_filter_cubic");
            lemma_ascii_nul_free("VK_IMG_filter_cubic"@);
        },
        Capability::AmdRasterizationOrder => {
            reveal_strlit("VK_AMD_rasterization_order");
            lemma_ascii_nul_free("VK_AMD_rasterization_order"@);
        },
        Capability::AmdShaderTrinaryMinmax => {
            reveal_strlit("VK_AMD_shader_trinary_minmax");
            lemma_ascii_nul_free("VK_AMD_shader_trinary_minmax"@);
        },
        Capability::AmdShaderExplicitVertexParameter => {
            reveal_strlit("VK_AMD_shader_explicit_vertex_parameter");
            lemma_ascii_nul_free("VK_AMD_shader_explicit_vertex_parameter"@);
        },
        Capability::ExtDebugMarker => {
            reveal_strlit("VK_EXT_debug_marker");
            lemma_ascii_nul_free("VK_EXT_debug_marker"@);
        },
        Capability::AmdGcnShader => {
            reveal_strlit("VK_AMD_gcn_shader");
            lemma_ascii_nul_free("VK_AMD_gcn_shader"@);
        },
        Capability::NvDedicatedAllocation => {
            reveal_strlit("VK_NV_dedicated_allocation");
            lemma_ascii_nul_free("VK_NV_dedicated_allocation"@);
        },
        Capability::AmdDrawIndirectCount => {
            reveal_strlit("VK_AMD_draw_indirect_count");
            lemma_ascii_nul_free("VK_AMD_draw_indirect_count"@);
        },
        Capability::AmdNegativeViewportHeight => {
            reveal_strlit("VK_AMD_negative_viewport_height");
            lemma_ascii_nul_free("VK_AMD_negative_viewport_height"@);
        },
        Capability::AmdGpuShaderHalfFloat => {
            reveal_strlit("VK_AMD_gpu_shader_half_float");
            lemma_ascii_nul_free("VK_AMD_gpu_shader_half_float"@);
        },
        Capability::AmdShaderBallot => {
            reveal_strlit("VK_AMD_shader_ballot");
            lemma_ascii_nul_free("VK_AMD_shader_ballot"@);
        },
        Capability::KhxMultiview => {
            reveal_strlit("VK_KHX_multiview");
            lemma_ascii_nul_free("VK_KHX_multiview"@);
        },
        Capability::ImgFormatPvrtc => {
            reveal_strlit("VK_IMG_format_pvrtc");
            lemma_ascii_nul_free("VK_IMG_format_pvrtc"@);
        },
        Capability::NvExternalMemoryCapabilities => {
            reveal_strlit("VK_NV_external_memory_capabilities");
            lemma_ascii_nul_free("VK_NV_external_memory_capabilities"@);
        },
        Capability::NvExternalMemory => {
            reveal_strlit("VK_NV_external_memory");
            lemma_ascii_nul_free("VK_NV_external_memory"@);
        },
        Capability::NvExternalMemoryWin32 => {
            reveal_strlit("VK_NV_external_memory_win32");
            lemma_ascii_nul_free("VK_NV_external_memory_win32"@);
        },
        Capability::NvWin32KeyedMutex => {
            reveal_strlit("VK_NV_win32_keyed_mutex");
            lemma_ascii_nul_free("VK_NV_win32_keyed_mutex"@);
        },
        Capability::KhxDeviceGroup => {
            reveal_strlit("VK_KHX_device_group");
            lemma_ascii_nul_free("VK_KHX_device_group"@);
        },
        Capability::ExtValidationFlags => {
            reveal_strlit("VK_EXT_validation_flags");
            lemma_ascii_nul_free("VK_EXT_validation_flags"@);
        },
        Capability::NnViSurface => {
            reveal_strlit("VK_NN_vi_surface");
            lemma_ascii_nul_free("VK_NN_vi_surface"@);
        },
        Capability::ExtShaderSubgroupBallot => {
            reveal_strlit("VK_EXT_shader_subgroup_ballot");
            lemma_ascii_nul_free("VK_EXT_shader_subgroup_ballot"@);
        },
        Capability::ExtShaderSubgroupVote => {
            reveal_strlit("VK_EXT_shader_subgroup_vote");
            lemma_ascii_nul_free("VK_EXT_shader_subgroup_vote"@);
        },
        Capability::KhxDeviceGroupCreation => {
            reveal_strlit("VK_KHX_device_group_creation");
            lemma_ascii_nul_free("VK_KHX_device_group_creation"@);
        },
        Capability::KhxExternalMemoryCapabilities => {
            reveal_strlit("VK_KHX_external_memory_capabilities");
            lemma_ascii_nul_free("VK_KHX_external_memory_capabilities"@);
        },
        Capability::KhxExternalMemory => {
            reveal_strlit("VK_KHX_external_memory");
            lemma_ascii_nul_free("VK_KHX_external_memory"@);
        },
        Capability::KhxExternalMemoryWin32 => {
            reveal_strlit("VK_KHX_external_memory_win32");
            lemma_ascii_nul_free("VK_KHX_external_memory_win32"@);
        },
        Capability::KhxExternalMemoryFd => {
            reveal_strlit("VK_KHX_external_memory_fd");
            lemma_ascii_nul_free("VK_KHX_external_memory_fd"@);
        },
        Capability::KhxWin32KeyedMutex => {
            reveal_strlit("VK_KHX_win32_keyed_mutex");
            lemma_ascii_nul_free("VK_KHX_win32_keyed_mutex"@);
        },
        Capability::KhxExternalSemaphoreCapabilities => {
            reveal_strlit("VK_KHX_external_semaphore_capabilities");
            lemma_ascii_nul_free("VK_KHX_external_semaphore_capabilities"@);
        },
        Capability::KhxExternalSemaphore => {
            reveal_strlit("VK_KHX_external_semaphore");
            lemma_ascii_nul_free("VK_KHX_external_semaphore"@);
        },
        Capability::KhxExternalSemaphoreWin32 => {
            reveal_strlit("VK_KHX_external_semaphore_win32");
            lemma_ascii_nul_free("VK_KHX_external_semaphore_win32"@);
        },
        Capability::KhxExternalSemaphoreFd => {
            reveal_strlit("VK_KHX_external_semaphore_fd");
            lemma_ascii_nul_free("VK_KHX_external_semaphore_fd"@);
        },
        Capability::NvxDeviceGeneratedCommands => {
            reveal_strlit("VK_NVX_device_generated_commands");
            lemma_ascii_nul_free("VK_NVX_device_generated_commands"@);
        },
        Capability::NvClipSpaceWScaling => {
            reveal_strlit("VK_NV_clip_space_w_scaling");
            lemma_ascii_nul_free("VK_NV_clip_space_w_scaling"@);
        },
        Capability::ExtDirectModeDisplay => {
            reveal_strlit("VK_EXT_direct_mode_display");
            lemma_ascii_nul_free("VK_EXT_direct_mode_display"@);
        },
        Capability::ExtAcquireXlibDisplay => {
            reveal_strlit("VK_EXT_acquire_xlib_display");
            lemma_ascii_nul_free("VK_EXT_acquire_xlib_display"@);
        },
        Capability::ExtDisplaySurfaceCounter => {
            reveal_strlit("VK_EXT_display_surface_counter");
            lemma_ascii_nul_free("VK_EXT_display_surface_counter"@);
        },
        Capability::ExtDisplayControl => {
            reveal_strlit("VK_EXT_display_control");
            lemma_ascii_nul_free("VK_EXT_display_control"@);
        },
        Capability::GoogleDisplayTiming => {
            reveal_strlit("VK_GOOGLE_display_timing");
            lemma_ascii_nul_free("VK_GOOGLE_display_timing"@);
        },
        Capability::NvSampleMaskOverrideCoverage => {
            reveal_strlit("VK_NV_sample_mask_override_coverage");
            lemma_ascii_nul_free("VK_NV_sample_mask_override_coverage"@);
        },
        Capability::NvGeometryShaderPassthrough => {
            reveal_strlit("VK_NV_geometry_shader_passthrough");
            lemma_ascii_nul_free("VK_NV_geometry_shader_passthrough"@);
        },
        Capability::NvViewportArray2 => {
            reveal_strlit("VK_NV_viewport_array2");
            lemma_ascii_nul_free("VK_NV_viewport_array2"@);
        },
        Capability::NvxMultiviewPerViewAttributes => {
            reveal_strlit("VK_NVX_multiview_per_view_attributes");
            lemma_ascii_nul_free("VK_NVX_multiview_per_view_attributes"@);
        },
        Capability::NvViewportSwizzle => {
            reveal_strlit("VK_NV_viewport_swizzle");
            lemma_ascii_nul_free("VK_NV_viewport_swizzle"@);
        },
        Capability::ExtDiscardRectangles => {
            reveal_strlit("VK_EXT_discard_rectangles");
            lemma_ascii_nul_free("VK_EXT_discard_rectangles"@);
        },
        Capability::ExtSwapchainColorspace => {
            reveal_strlit("VK_EXT_swapchain_colorspace");
            lemma_ascii_nul_free("VK_EXT_swapchain_colorspace"@);
        },
        Capability::ExtHdrMetadata => {
            reveal_strlit("VK_EXT_hdr_metadata");
            lemma_ascii_nul_free("VK_EXT_hdr_metadata"@);
        },
        Capability::MvkIosSurface => {
            reveal_strlit("VK_MVK_ios_surface");
            lemma_ascii_nul_free("VK_MVK_ios_surface"@);
        },
        Capability::MvkMacosSurface => {
            reveal_strlit("VK_MVK_macos_surface");
            lemma_ascii_nul_free("VK_MVK_macos_surface"@);
        },
        Capability::KhrSharedPresentableImage => {
            reveal_strlit("VK_KHR_shared_presentable_image");
            lemma_ascii_nul_free("VK_KHR_shared_presentable_image"@);
        },
    }
}

/// The members of `set` among the first `n` places of the menu, in menu
/// order.
pub open spec fn menu_prefix(set: Set<Capability>, n: int) -> Seq<Capability>
    decreases n,
{
    if n <= 0 {
        Seq::empty()
    } else if set.contains(Capability::at(n - 1)) {
        menu_prefix(set, n - 1).push(Capability::at(n - 1))
    } else {
        menu_prefix(set, n - 1)
    }
}

/// The members of `set` in menu order.
pub open spec fn in_menu_order(set: Set<Capability>) -> Seq<Capability> {
    menu_prefix(set, MENU_LEN as int)
}

/// The names of a sequence of capabilities.
pub open spec fn names_of(capabilities: Seq<Capability>) -> Seq<Seq<char>> {
    capabilities.map_values(|c: Capability| c.name_text())
}

/// What `menu_prefix` holds: members of the set only, each of the first
/// `n` places that is a member, and in strictly rising menu order.
pub proof fn lemma_menu_prefix(set: Set<Capability>, n: int)
    requires
        0 <= n <= MENU_LEN,
    ensures
        forall|i: int|
            0 <= i < menu_prefix(set, n).len() ==> set.contains(#[trigger] menu_prefix(set, n)[i])
                && menu_prefix(set, n)[i].ordinal() < n,
        forall|c: Capability|
            set.contains(c) && c.ordinal() < n ==> menu_prefix(set, n).contains(c),
        forall|i: int, j: int|
            0 <= i < j < menu_prefix(set, n).len() ==> menu_prefix(set, n)[i].ordinal()
                < menu_prefix(set, n)[j].ordinal(),
    decreases n,
{
    if n > 0 {
        lemma_menu_prefix(set, n - 1);
        lemma_ordinal_at(n - 1);
        let shorter = menu_prefix(set, n - 1);
        let here = Capability::at(n - 1);
        assert forall|c: Capability| set.contains(c) && c.ordinal() < n implies menu_prefix(
            set,
            n,
        ).contains(c) by {
            lemma_at_ordinal(c);
            if c.ordinal() < n - 1 {
                let i = choose|i: int| 0 <= i < shorter.len() && shorter[i] == c;
                assert(menu_prefix(set, n)[i] == c);
            } else {
                assert(c == here);
                assert(menu_prefix(set, n)[shorter.len() as int] == c);
            }
        }
    }
}

/// The law of the menu order: the sequence holds exactly the members of
/// the set, each once.
pub proof fn lemma_in_menu_order(set: Set<Capability>)
    ensures
        forall|c: Capability| in_menu_order(set).contains(c) <==> set.contains(c),
        in_menu_order(set).no_duplicates(),
{
    lemma_menu_prefix(set, MENU_LEN as int);
    assert forall|c: Capability| set.contains(c) implies in_menu_order(set).contains(c) by {
        lemma_at_ordinal(c);
    }
}

/// `e` is the diagnostic for a name that is not on the menu.
pub open spec fn off_menu_error(name: Seq<char>, e: Error) -> bool {
    e matches Error::General(text) && text@ == "capability is not on the menu: "@ + name
}

/// The capabilities that a list of names selects.
pub open spec fn named_by(names: Seq<String>) -> Set<Capability> {
    Set::new(
        |c: Capability|
            exists|i: int| 0 <= i < names.len() && lookup(#[trigger] names[i]@) == Some(c),
    )
}

/// The place of the first name of the list that is not on the menu, or the
/// length of the list where every name is.
pub open spec fn first_off_menu(names: Seq<String>) -> int
    decreases names.len(),
{
    if names.len() == 0 {
        0
    } else if first_off_menu(names.drop_last()) < names.len() - 1 {
        first_off_menu(names.drop_last())
    } else if on_menu(names.last()@) {
        names.len() as int
    } else {
        names.len() - 1
    }
}

/// What `first_off_menu` finds: the names before it are on the menu, the
/// name at it is not.
pub proof fn lemma_first_off_menu_found(names: Seq<String>)
    ensures
        0 <= first_off_menu(names) <= names.len(),
        forall|i: int| 0 <= i < first_off_menu(names) ==> on_menu(#[trigger] names[i]@),
        first_off_menu(names) < names.len() ==> !on_menu(names[first_off_menu(names)]@),
    decreases names.len(),
{
    if names.len() > 0 {
        let shorter = names.drop_last();
        lemma_first_off_menu_found(shorter);
        assert forall|i: int| 0 <= i < first_off_menu(names) implies on_menu(
            #[trigger] names[i]@,
        ) by {
            if i < shorter.len() {
                assert(shorter[i] == names[i]);
            }
        }
        if first_off_menu(names) < names.len() - 1 {
            assert(shorter[first_off_menu(names)] == names[first_off_menu(names)]);
        }
    }
}

/// Where a prefix of the list stays on the menu, the search in the whole
/// list goes on behind it.
proof fn lemma_first_off_menu(names: Seq<String>, i: int)
    requires
        0 <= i < names.len(),
        first_off_menu(names.take(i)) == i,
    ensures
        on_menu(names[i]@) ==> first_off_menu(names.take(i + 1)) == i + 1,
        !on_menu(names[i]@) ==> first_off_menu(names) == i,
    decreases names.len() - i,
{
    let longer = names.take(i + 1);
    assert(longer.drop_last() =~= names.take(i));
    assert(longer.last() == names[i]);
    if !on_menu(names[i]@) {
        assert(first_off_menu(longer) == i);
        lemma_first_off_menu_stays(names, i + 1, i);
    }
}

/// Once found within a prefix, the first name off the menu is the same in
/// every longer prefix.
proof fn lemma_first_off_menu_stays(names: Seq<String>, n: int, found: int)
    requires
        0 <= found < n <= names.len(),
        first_off_menu(names.take(n)) == found,
    ensures
        first_off_menu(names) == found,
    decreases names.len() - n,
{
    if n == names.len() {
        assert(names.take(n) =~= names);
    } else {
        let longer = names.take(n + 1);
        assert(longer.drop_last() =~= names.take(n));
        lemma_first_off_menu_stays(names, n + 1, found);
    }
}

/// The members of a selection that add their names to instance creation.
pub open spec fn named_among(set: Set<Capability>) -> Set<Capability> {
    Set::new(|c: Capability| set.contains(c) && c.named_at_instance())
}

/// The members of a selection that add a bundle to the loader of a scope.
pub open spec fn resolved_among(set: Set<Capability>, scope: Scope) -> Set<Capability> {
    Set::new(|c: Capability| set.contains(c) && c.resolved_at(scope))
}

/// The names that a selection hands to instance creation, in menu order.
pub open spec fn instance_extension_names(set: Set<Capability>) -> Seq<Seq<char>> {
    names_of(in_menu_order(named_among(set)))
}

/// A selection from the menu.
#[derive(Debug, Clone, Copy, PartialEq, Eq)]
pub struct CapabilitySet {
    enabled: [bool; MENU_LEN],
}

impl View for CapabilitySet {
    type V = Set<Capability>;

    closed spec fn view(&self) -> Set<Capability> {
        Set::new(|c: Capability| self.enabled@[c.ordinal()])
    }
}

impl CapabilitySet {
    /// The members that add their names to instance creation.
    pub open spec fn named(self) -> Set<Capability> {
        named_among(self@)
    }

    /// The members that add a bundle to the loader of the given scope.
    pub open spec fn resolved(self, scope: Scope) -> Set<Capability> {
        resolved_among(self@, scope)
    }

    /// The selection that holds nothing.
    pub fn empty() -> (set: CapabilitySet)
        ensures
            set@ == Set::<Capability>::empty(),
    {
        let set = CapabilitySet { enabled: [false;MENU_LEN] };
        assert(set@ =~= Set::<Capability>::empty());
        set
    }

    /// The selection that holds the whole menu.
    pub fn all() -> (set: CapabilitySet)
        ensures
            set@ == Set::<Capability>::full(),
    {
        let set = CapabilitySet { enabled: [true;MENU_LEN] };
        assert(set@ =~= Set::<Capability>::full());
        set
    }

    /// Whether the capability is selected.
    pub fn contains(&self, capability: Capability) -> (held: bool)
        ensures
            held == self@.contains(capability),
    {
        self.enabled[capability.index()]
    }

    /// Adds a capability to the selection.
    pub fn enable(&mut self, capability: Capability)
        ensures
            final(self)@ == old(self)@.insert(capability),
    {
        let place = capability.index();
        self.enabled[place] = true;
        assert(self@ =~= old(self)@.insert(capability));
    }

    /// Takes a capability out of the selection.
    pub fn disable(&mut self, capability: Capability)
        ensures
            final(self)@ == old(self)@.remove(capability),
    {
        let place = capability.index();
        self.enabled[place] = false;
        assert(self@ =~= old(self)@.remove(capability));
    }

    /// The selection that holds the given capabilities.
    pub fn of(capabilities: &[Capability]) -> (set: CapabilitySet)
        ensures
            set@ == capabilities@.to_set(),
    {
        let mut set = CapabilitySet::empty();
        let mut i: usize = 0;
        while i < capabilities.len()
            invariant
                0 <= i <= capabilities.len(),
                set@ == capabilities@.take(i as int).to_set(),
            decreases capabilities.len() - i,
        {
            set.enable(capabilities[i]);
            assert(capabilities@.take(i + 1) =~= capabilities@.take(i as int).push(
                capabilities@[i as int],
            ));
            assert(capabilities@.take(i as int).push(capabilities@[i as int]).to_set()
                =~= capabilities@.take(i as int).to_set().insert(capabilities@[i as int])) by {
                let shorter = capabilities@.take(i as int);
                let longer = shorter.push(capabilities@[i as int]);
                assert forall|c: Capability| longer.to_set().contains(c) <==> shorter.to_set().insert(
                    capabilities@[i as int],
                ).contains(c) by {
                    if longer.contains(c) {
                        let k = choose|k: int| 0 <= k < longer.len() && longer[k] == c;
                        if k < shorter.len() {
                            assert(shorter[k] == c);
                        }
                    }
                    if shorter.contains(c) {
                        let k = choose|k: int| 0 <= k < shorter.len() && shorter[k] == c;
                        assert(longer[k] == c);
                    }
                    assert(longer[shorter.len() as int] == capabilities@[i as int]);
                }
            }
            i += 1;
        }
        assert(capabilities@.take(i as int) =~= capabilities@);
        set
    }

    /// The selection named by a configuration. Fails on the first name
    /// that is not on the menu, with a diagnostic that ends in that name.
    pub fn from_names(names: &Vec<String>) -> (res: Result<CapabilitySet, Error>)
        ensures
            res matches Ok(set) ==> first_off_menu(names@) == names@.len() && set@ == named_by(
                names@,
            ),
            res matches Err(e) ==> first_off_menu(names@) < names@.len() && off_menu_error(
                names@[first_off_menu(names@)]@,
                e,
            ),
    {
        let mut set = CapabilitySet::empty();
        let mut i: usize = 0;
        assert(set@ =~= named_by(names@.take(0)));
        while i < names.len()
            invariant
                0 <= i <= names@.len(),
                first_off_menu(names@.take(i as int)) == i,
                set@ == named_by(names@.take(i as int)),
            decreases names@.len() - i,
        {
            let ghost shorter = names@.take(i as int);
            let ghost longer = names@.take(i + 1);
            proof {
                assert(longer =~= shorter.push(names@[i as int]));
                assert(longer.drop_last() =~= shorter);
                lemma_first_off_menu(names@, i as int);
            }
            match Capability::from_name(names[i].as_str()) {
                Some(c) => {
                    set.enable(c);
                    proof {
                        assert forall|d: Capability| set@.contains(d) <==> named_by(longer).contains(
                            d,
                        ) by {
                            if named_by(longer).contains(d) {
                                let k = choose|k: int|
                                    0 <= k < longer.len() && lookup(#[trigger] longer[k]@) == Some(
                                        d,
                                    );
                                if k < i {
                                    assert(lookup(shorter[k]@) == Some(d));
                                }
                            }
                            if named_by(shorter).contains(d) {
                                let k = choose|k: int|
                                    0 <= k < shorter.len() && lookup(#[trigger] shorter[k]@)
                                        == Some(d);
                                assert(lookup(longer[k]@) == Some(d));
                            }
                            if d == c {
                                assert(lookup(longer[i as int]@) == Some(d));
                            }
                        }
                        assert(set@ =~= named_by(longer));
                    }
                },
                None => {
                    let mut text = String::from_str("capability is not on the menu: ");
                    text.append(names[i].as_str());
                    return Err(Error::General(text));
                },
            }
            i += 1;
        }
        assert(names@.take(i as int) =~= names@);
        Ok(set)
    }

    /// The selected capabilities, in menu order.
    pub fn members(&self) -> (list: Vec<Capability>)
        ensures
            list@ == in_menu_order(self@),
    {
        let mut list: Vec<Capability> = Vec::new();
        let mut place: usize = 0;
        while place < MENU_LEN
            invariant
                0 <= place <= MENU_LEN,
                list@ == menu_prefix(self@, place as int),
            decreases MENU_LEN - place,
        {
            match Capability::from_index(place) {
                Some(c) => {
                    if self.contains(c) {
                        list.push(c);
                    }
                },
                None => {},
            }
            place += 1;
        }
        list
    }

    /// The selected capabilities that add a bundle of entry points to the
    /// loader of the given scope, in menu order.
    pub fn resolved_at(&self, scope: Scope) -> (list: Vec<Capability>)
        ensures
            list@ == in_menu_order(self.resolved(scope)),
    {
        let mut list: Vec<Capability> = Vec::new();
        let mut place: usize = 0;
        while place < MENU_LEN
            invariant
                0 <= place <= MENU_LEN,
                list@ == menu_prefix(self.resolved(scope), place as int),
            decreases MENU_LEN - place,
        {
            match Capability::from_index(place) {
                Some(c) => {
                    if self.contains(c) && c.is_resolved_at(scope) {
                        list.push(c);
                    }
                },
                None => {},
            }
            place += 1;
        }
        list
    }

    /// The names that the selection hands to instance creation, in menu
    /// order.
    pub fn extension_names(&self) -> (names: Vec<&'static str>)
        ensures
            names@.map_values(|s: &'static str| s@) == instance_extension_names(self@),
    {
        let mut names: Vec<&'static str> = Vec::new();
        let mut place: usize = 0;
        while place < MENU_LEN
            invariant
                0 <= place <= MENU_LEN,
                names@.len() == menu_prefix(self.named(), place as int).len(),
                forall|i: int|
                    0 <= i < names@.len() ==> (#[trigger] names@[i])@ == menu_prefix(
                        self.named(),
                        place as int,
                    )[i].name_text(),
            decreases MENU_LEN - place,
        {
            match Capability::from_index(place) {
                Some(c) => {
                    if self.contains(c) && c.is_named_at_instance() {
                        names.push(c.name());
                    }
                },
                None => {},
            }
            place += 1;
        }
        assert(names@.map_values(|s: &'static str| s@) =~= instance_extension_names(self@));
        names
    }

    /// The names that the selection hands to instance creation, in native
    /// form and in menu order. No name on the menu fails to be marshalled.
    pub fn marshalled_extension_names(&self) -> (buffers: Vec<Vec<u8>>)
        ensures
            byte_strings(buffers@) == terminated(bytes_of(instance_extension_names(self@))),
    {
        let names = self.extension_names();
        proof {
            lemma_extension_names_marshal(self@);
            assert(texts_of_slices(names@) =~= instance_extension_names(self@));
        }
        match names_to_c_strings(&names) {
            Ok(buffers) => buffers,
            Err(_) => Vec::new(),
        }
    }
}

/// The names that a selection hands to instance creation can all be
/// marshalled.
pub proof fn lemma_extension_names_marshal(set: Set<Capability>)
    ensures
        first_failure(bytes_of(instance_extension_names(set)), 0) is None,
{
    let names = instance_extension_names(set);
    let texts = bytes_of(names);
    assert forall|i: int| 0 <= i < texts.len() implies nul_free(#[trigger] texts[i]) by {
        let c = in_menu_order(named_among(set))[i];
        assert(names[i] == c.name_text());
        lemma_name_nul_free(c);
    }
    lemma_no_failure(texts, 0);
}

} // verus!
