//! The optional features of an adapter.

use vstd::prelude::*;
use crate::native::Bool32;

verus! {

/// How many features there are.
pub const FEATURE_COUNT: usize = 55;

/// The optional features of an adapter, one native boolean each, in the
/// order in which the native record holds them.
#[derive(Debug, Clone, Copy, PartialEq, Eq, Structural)]
pub struct PhysicalDeviceFeatures {
    pub robust_buffer_access: Bool32,
    pub full_draw_index_uint32: Bool32,
    pub image_cube_array: Bool32,
    pub independent_blend: Bool32,
    pub geometry_shader: Bool32,
    pub tessellation_shader: Bool32,
    pub sample_rate_shading: Bool32,
    pub dual_src_blend: Bool32,
    pub logic_op: Bool32,
    pub multi_draw_indirect: Bool32,
    pub draw_indirect_first_instance: Bool32,
    pub depth_clamp: Bool32,
    pub depth_bias_clamp: Bool32,
    pub fill_mode_non_solid: Bool32,
    pub depth_bounds: Bool32,
    pub wide_lines: Bool32,
    pub large_points: Bool32,
    pub alpha_to_one: Bool32,
    pub multi_viewport: Bool32,
    pub sampler_anisotropy: Bool32,
    pub texture_compression_etc2: Bool32,
    pub texture_compression_astc_ldr: Bool32,
    pub texture_compression_bc: Bool32,
    pub occlusion_query_precise: Bool32,
    pub pipeline_statistics_query: Bool32,
    pub vertex_pipeline_stores_and_atomics: Bool32,
    pub fragment_stores_and_atomics: Bool32,
    pub shader_tessellation_and_geometry_point_size: Bool32,
    pub shader_image_gather_extended: Bool32,
    pub shader_storage_image_extended_formats: Bool32,
    pub shader_storage_image_multisample: Bool32,
    pub shader_storage_image_read_without_format: Bool32,
    pub shader_storage_image_write_without_format: Bool32,
    pub shader_uniform_buffer_array_dynamic_indexing: Bool32,
    pub shader_sampled_image_array_dynamic_indexing: Bool32,
    pub shader_storage_buffer_array_dynamic_indexing: Bool32,
    pub shader_storage_image_array_dynamic_indexing: Bool32,
    pub shader_clip_distance: Bool32,
    pub shader_cull_distance: Bool32,
    pub shader_float64: Bool32,
    pub shader_int64: Bool32,
    pub shader_int16: Bool32,
    pub shader_resource_residency: Bool32,
    pub shader_resource_min_lod: Bool32,
    pub sparse_binding: Bool32,
    pub sparse_residency_buffer: Bool32,
    pub sparse_residency_image2d: Bool32,
    pub sparse_residency_image3d: Bool32,
    pub sparse_residency2_samples: Bool32,
    pub sparse_residency4_samples: Bool32,
    pub sparse_residency8_samples: Bool32,
    pub sparse_residency16_samples: Bool32,
    pub sparse_residency_aliased: Bool32,
    pub variable_multisample_rate: Bool32,
    pub inherited_queries: Bool32,
}

impl PhysicalDeviceFeatures {
    /// The words of the record, in the order of the native fields.
    pub open spec fn words(self) -> Seq<Bool32> {
        seq![
            self.robust_buffer_access,
            self.full_draw_index_uint32,
            self.image_cube_array,
            self.independent_blend,
            self.geometry_shader,
            self.tessellation_shader,
            self.sample_rate_shading,
            self.dual_src_blend,
            self.logic_op,
            self.multi_draw_indirect,
            self.draw_indirect_first_instance,
            self.depth_clamp,
            self.depth_bias_clamp,
            self.fill_mode_non_solid,
            self.depth_bounds,
            self.wide_lines,
            self.large_points,
            self.alpha_to_one,
            self.multi_viewport,
            self.sampler_anisotropy,
            self.texture_compression_etc2,
            self.texture_compression_astc_ldr,
            self.texture_compression_bc,
            self.occlusion_query_precise,
            self.pipeline_statistics_query,
            self.vertex_pipeline_stores_and_atomics,
            self.fragment_stores_and_atomics,
            self.shader_tessellation_and_geometry_point_size,
            self.shader_image_gather_extended,
            self.shader_storage_image_extended_formats,
            self.shader_storage_image_multisample,
            self.shader_storage_image_read_without_format,
            self.shader_storage_image_write_without_format,
            self.shader_uniform_buffer_array_dynamic_indexing,
            self.shader_sampled_image_array_dynamic_indexing,
            self.shader_storage_buffer_array_dynamic_indexing,
            self.shader_storage_image_array_dynamic_indexing,
            self.shader_clip_distance,
            self.shader_cull_distance,
            self.shader_float64,
            self.shader_int64,
            self.shader_int16,
            self.shader_resource_residency,
            self.shader_resource_min_lod,
            self.sparse_binding,
            self.sparse_residency_buffer,
            self.sparse_residency_image2d,
            self.sparse_residency_image3d,
            self.sparse_residency2_samples,
            self.sparse_residency4_samples,
            self.sparse_residency8_samples,
            self.sparse_residency16_samples,
            self.sparse_residency_aliased,
            self.variable_multisample_rate,
            self.inherited_queries,
        ]
    }

    /// The record that the native layer wrote as these words.
    pub fn from_vk(vk: &[Bool32; FEATURE_COUNT]) -> (features: PhysicalDeviceFeatures)
        ensures
            features.words() == vk@,
    {
        let features = PhysicalDeviceFeatures {
            robust_buffer_access: vk[0],
            full_draw_index_uint32: vk[1],
            image_cube_array: vk[2],
            independent_blend: vk[3],
            geometry_shader: vk[4],
            tessellation_shader: vk[5],
            sample_rate_shading: vk[6],
            dual_src_blend: vk[7],
            logic_op: vk[8],
            multi_draw_indirect: vk[9],
            draw_indirect_first_instance: vk[10],
            depth_clamp: vk[11],
            depth_bias_clamp: vk[12],
            fill_mode_non_solid: vk[13],
            depth_bounds: vk[14],
            wide_lines: vk[15],
            large_points: vk[16],
            alpha_to_one: vk[17],
            multi_viewport: vk[18],
            sampler_anisotropy: vk[19],
            texture_compression_etc2: vk[20],
            texture_compression_astc_ldr: vk[21],
            texture_compression_bc: vk[22],
            occlusion_query_precise: vk[23],
            pipeline_statistics_query: vk[24],
            vertex_pipeline_stores_and_atomics: vk[25],
            fragment_stores_and_atomics: vk[26],
            shader_tessellation_and_geometry_point_size: vk[27],
            shader_image_gather_extended: vk[28],
            shader_storage_image_extended_formats: vk[29],
            shader_storage_image_multisample: vk[30],
            shader_storage_image_read_without_format: vk[31],
            shader_storage_image_write_without_format: vk[32],
            shader_uniform_buffer_array_dynamic_indexing: vk[33],
            shader_sampled_image_array_dynamic_indexing: vk[34],
            shader_storage_buffer_array_dynamic_indexing: vk[35],
            shader_storage_image_array_dynamic_indexing: vk[36],
            shader_clip_distance: vk[37],
            shader_cull_distance: vk[38],
            shader_float64: vk[39],
            shader_int64: vk[40],
            shader_int16: vk[41],
            shader_resource_residency: vk[42],
            shader_resource_min_lod: vk[43],
            sparse_binding: vk[44],
            sparse_residency_buffer: vk[45],
            sparse_residency_image2d: vk[46],
            sparse_residency_image3d: vk[47],
            sparse_residency2_samples: vk[48],
            sparse_residency4_samples: vk[49],
            sparse_residency8_samples: vk[50],
            sparse_residency16_samples: vk[51],
            sparse_residency_aliased: vk[52],
            variable_multisample_rate: vk[53],
            inherited_queries: vk[54],
        };
        assert(features.words() =~= vk@);
        features
    }

    /// The record as the native layer reads it: one word for each feature,
    /// in the order of the native fields.
    pub fn into_vk(self) -> (vk: [Bool32; FEATURE_COUNT])
        ensures
            vk@ == self.words(),
    {
        let vk = [
            self.robust_buffer_access,
            self.full_draw_index_uint32,
            self.image_cube_array,
            self.independent_blend,
            self.geometry_shader,
            self.tessellation_shader,
            self.sample_rate_shading,
            self.dual_src_blend,
            self.logic_op,
            self.multi_draw_indirect,
            self.draw_indirect_first_instance,
            self.depth_clamp,
            self.depth_bias_clamp,
            self.fill_mode_non_solid,
            self.depth_bounds,
            self.wide_lines,
            self.large_points,
            self.alpha_to_one,
            self.multi_viewport,
            self.sampler_anisotropy,
            self.texture_compression_etc2,
            self.texture_compression_astc_ldr,
            self.texture_compression_bc,
            self.occlusion_query_precise,
            self.pipeline_statistics_query,
            self.vertex_pipeline_stores_and_atomics,
            self.fragment_stores_and_atomics,
            self.shader_tessellation_and_geometry_point_size,
            self.shader_image_gather_extended,
            self.shader_storage_image_extended_formats,
            self.shader_storage_image_multisample,
            self.shader_storage_image_read_without_format,
            self.shader_storage_image_write_without_format,
            self.shader_uniform_buffer_array_dynamic_indexing,
            self.shader_sampled_image_array_dynamic_indexing,
            self.shader_storage_buffer_array_dynamic_indexing,
            self.shader_storage_image_array_dynamic_indexing,
            self.shader_clip_distance,
            self.shader_cull_distance,
            self.shader_float64,
            self.shader_int64,
            self.shader_int16,
            self.shader_resource_residency,
            self.shader_resource_min_lod,
            self.sparse_binding,
            self.sparse_residency_buffer,
            self.sparse_residency_image2d,
            self.sparse_residency_image3d,
            self.sparse_residency2_samples,
            self.sparse_residency4_samples,
            self.sparse_residency8_samples,
            self.sparse_residency16_samples,
            self.sparse_residency_aliased,
            self.variable_multisample_rate,
            self.inherited_queries,
        ];
        assert(vk@ =~= self.words());
        vk
    }
}

impl Default for PhysicalDeviceFeatures {
    /// No feature is enabled.
    fn default() -> (features: PhysicalDeviceFeatures)
        ensures
            forall|i: int| 0 <= i < FEATURE_COUNT ==> features.words()[i] == 0,
    {
        PhysicalDeviceFeatures::from_vk(&[0;FEATURE_COUNT])
    }
}

} // verus!
