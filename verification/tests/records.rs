use sarek::capability::{Capability, CapabilitySet};
use sarek::enumerate::{Counted, Filled};
use sarek::error::{EncodingError, Error, Misuse};
use sarek::format::{Format, FormatFeatureFlags, FormatProperties};
use sarek::image::ImageUsageFlags;
use sarek::instance::physical_device::physical_device_features::FEATURE_COUNT;
use sarek::instance::physical_device::physical_device_memory_properties::{
    MAX_MEMORY_HEAPS, MAX_MEMORY_TYPES,
};
use sarek::instance::physical_device::physical_device_properties::UUID_SIZE;
use sarek::instance::physical_device::{
    ExtensionProperties, MemoryHeap, MemoryHeapFlags, MemoryPropertyFlags, MemoryType,
    NativeExtensionProperties, NativePhysicalDeviceMemoryProperties,
    NativePhysicalDeviceProperties, NativeQueueFamilyProperties, PhysicalDevice,
    PhysicalDeviceFeatures, PhysicalDeviceMemoryProperties, PhysicalDeviceProperties,
    PhysicalDeviceSparseProperties, PhysicalDeviceType, QueueFamilyProperties, QueueFlagBits,
    QueueFlags,
};
use sarek::instance::surface::{
    NativeSurfaceCapabilities, NativeSurfaceFormat, PresentMode, SurfaceCapabilities,
    SurfaceFormat, SurfaceTransformFlags, WindowReference,
};
use sarek::instance::{ApplicationInfo, Instance, InstanceCreateInfo, InstanceLoader};
use sarek::loader::Bundle;
use sarek::native::{Created, Extent2D, Extent3D, ERROR_INCOMPATIBLE_DRIVER, SUCCESS};
use sarek::version::Version;

fn name_buffer(name: &[u8]) -> Vec<u8> {
    let mut buffer = vec![0u8; 256];
    buffer[..name.len()].copy_from_slice(name);
    buffer
}

fn native_properties(name: &[u8], device_type: u32) -> NativePhysicalDeviceProperties {
    let mut uuid = [0u8; UUID_SIZE];
    for (i, byte) in uuid.iter_mut().enumerate() {
        *byte = 0xf0 + i as u8;
    }
    NativePhysicalDeviceProperties {
        api_version: (1 << 22) | 59,
        driver_version: 0xffff_ffff,
        vendor_id: 0x10de,
        device_id: 0x1b80,
        device_type,
        device_name: name_buffer(name),
        pipeline_cache_uuid: uuid,
        sparse_properties: PhysicalDeviceSparseProperties::from_vk([1, 0, 1, 0, 0xffff_ffff]),
    }
}

fn loaded(capabilities: &[Capability]) -> (Instance, InstanceLoader) {
    let info = InstanceCreateInfo {
        application_info: ApplicationInfo {
            application_name: "records".to_string(),
            application_version: Version(0, 0, 1),
            engine_name: "none".to_string(),
            engine_version: Version(0, 0, 1),
        },
        enabled_layer_count: 0,
        enabled_layer_names: Vec::new(),
    };
    let loader = InstanceLoader::new(CapabilitySet::of(capabilities));
    let pending = Instance::prepare(loader, &info, Vec::new()).unwrap();
    Instance::new(pending, Created { code: SUCCESS, handle: 0x5000 }).unwrap()
}

#[test]
fn properties_are_copied_field_by_field() {
    let vk = native_properties(b"GeForce GTX 1080", 2);
    let properties = PhysicalDeviceProperties::from_vk(&vk).unwrap();
    assert_eq!(
        properties,
        PhysicalDeviceProperties {
            api_version: Version(1, 0, 59),
            driver_version: 0xffff_ffff,
            vendor_id: 0x10de,
            device_id: 0x1b80,
            device_type: PhysicalDeviceType::DiscreteGPU,
            device_name: "GeForce GTX 1080".to_string(),
            pipeline_cache_uuid: [
                0xf0, 0xf1, 0xf2, 0xf3, 0xf4, 0xf5, 0xf6, 0xf7, 0xf8, 0xf9, 0xfa, 0xfb, 0xfc,
                0xfd, 0xfe, 0xff
            ],
            sparse_properties: PhysicalDeviceSparseProperties {
                residency_standard_2d_block_shape: 1,
                residency_standard_2d_multisample_block_shape: 0,
                residency_standard_3d_block_shape: 1,
                residency_aligned_mip_size: 0,
                residency_non_resident_strict: 0xffff_ffff,
            },
        }
    );
}

#[test]
fn a_record_with_every_bit_set_lands_field_by_field() {
    let vk = NativePhysicalDeviceProperties {
        api_version: u32::MAX,
        driver_version: u32::MAX,
        vendor_id: u32::MAX,
        device_id: u32::MAX,
        device_type: u32::MAX,
        device_name: vec![0x7f; 256],
        pipeline_cache_uuid: [0xff; UUID_SIZE],
        sparse_properties: PhysicalDeviceSparseProperties::from_vk([u32::MAX; 5]),
    };
    let properties = PhysicalDeviceProperties::from_vk(&vk).unwrap();
    assert_eq!(properties.api_version, Version(1023, 1023, 4095));
    assert_eq!(properties.driver_version, u32::MAX);
    assert_eq!(properties.vendor_id, u32::MAX);
    assert_eq!(properties.device_id, u32::MAX);
    assert_eq!(properties.device_type, PhysicalDeviceType::Other);
    assert_eq!(properties.device_name, "\u{7f}".repeat(256));
    assert_eq!(properties.pipeline_cache_uuid, [0xff; UUID_SIZE]);
    assert_eq!(properties.sparse_properties.residency_standard_2d_block_shape, u32::MAX);
    assert_eq!(properties.sparse_properties.residency_non_resident_strict, u32::MAX);

    let features = PhysicalDeviceFeatures::from_vk(&[u32::MAX; FEATURE_COUNT]);
    assert_eq!(features.into_vk(), [u32::MAX; FEATURE_COUNT]);
    assert_eq!(features.robust_buffer_access, u32::MAX);
    assert_eq!(features.inherited_queries, u32::MAX);

    let family = QueueFamilyProperties::from_vk(&NativeQueueFamilyProperties {
        queue_flags: u32::MAX,
        queue_count: u32::MAX,
        timestamp_valid_bits: u32::MAX,
        min_image_transfer_granularity: Extent3D { width: u32::MAX, height: u32::MAX, depth: u32::MAX },
    });
    assert_eq!(family.queue_flags.bits(), u32::MAX);
    assert_eq!(family.queue_count, u32::MAX);
    assert_eq!(family.timestamp_valid_bits, u32::MAX);
    assert_eq!(family.min_image_transfer_granularity.depth, u32::MAX);
}

#[test]
fn a_device_name_that_is_not_utf8_is_an_encoding_error() {
    let vk = native_properties(b"Radeon \xff\xfe", 1);
    assert_eq!(
        PhysicalDeviceProperties::from_vk(&vk),
        Err(Error::Encoding(EncodingError::InvalidUtf8 { valid_up_to: 7 }))
    );
}

#[test]
fn device_types_are_named_by_their_numbers() {
    let kinds = [
        PhysicalDeviceType::Other,
        PhysicalDeviceType::IntegratedGPU,
        PhysicalDeviceType::DiscreteGPU,
        PhysicalDeviceType::VirtualGPU,
        PhysicalDeviceType::CPU,
    ];
    for (number, kind) in kinds.iter().enumerate() {
        assert_eq!(kind.as_raw(), number as u32);
        assert_eq!(PhysicalDeviceType::from_raw(number as u32), *kind);
    }
    assert_eq!(PhysicalDeviceType::from_raw(5), PhysicalDeviceType::Other);
    assert_eq!(PhysicalDeviceType::from_raw(u32::MAX), PhysicalDeviceType::Other);
    assert_eq!(PhysicalDeviceType::CPU.as_raw(), vks::vk::VK_PHYSICAL_DEVICE_TYPE_CPU);
    assert_eq!(
        PhysicalDeviceType::DiscreteGPU.as_raw(),
        vks::vk::VK_PHYSICAL_DEVICE_TYPE_DISCRETE_GPU
    );
}

#[test]
fn properties_go_through_one_entry_point_per_configuration() {
    let (_instance, plain) = loaded(&[]);
    assert_eq!(PhysicalDevice::properties_entry(&plain), Bundle::Core);
    let (_instance, extended) = loaded(&[Capability::KhrGetPhysicalDeviceProperties2]);
    assert_eq!(
        PhysicalDevice::properties_entry(&extended),
        Bundle::Extension(Capability::KhrGetPhysicalDeviceProperties2)
    );
    let adapter = PhysicalDevice::from_vk(0xa).unwrap();
    let vk = native_properties(b"llvmpipe", 4);
    assert_eq!(adapter.get_properties(&plain, &vk).unwrap().device_type, PhysicalDeviceType::CPU);
    assert_eq!(adapter.get_properties(&extended, &vk).unwrap().device_name, "llvmpipe");
    let fresh = InstanceLoader::new(CapabilitySet::empty());
    assert_eq!(
        adapter.get_properties(&fresh, &vk),
        Err(Error::Misuse(Misuse::LoaderUnpopulated))
    );
}

fn device_extension_answers() -> (Counted, Filled<NativeExtensionProperties>) {
    let records = vec![
        NativeExtensionProperties { extension_name: name_buffer(b"VK_KHR_swapchain"), spec_version: 68 },
        NativeExtensionProperties { extension_name: name_buffer(b"VK_\xffbroken"), spec_version: 1 },
    ];
    (Counted { code: SUCCESS, count: 2 }, Filled { code: SUCCESS, count: 2, records })
}

#[test]
fn a_device_extension_name_that_is_not_utf8_is_an_encoding_error() {
    let (_instance, loader) = loaded(&[]);
    let adapter = PhysicalDevice::from_vk(0xa).unwrap();
    let (first, second) = device_extension_answers();
    assert_eq!(
        adapter.get_extension_properties(&loader, first, second),
        Err(Error::Encoding(EncodingError::InvalidUtf8 { valid_up_to: 3 }))
    );
    assert_eq!(
        ExtensionProperties::from_vk(&NativeExtensionProperties {
            extension_name: name_buffer(b"\xc3"),
            spec_version: 1,
        }),
        Err(Error::Encoding(EncodingError::InvalidUtf8 { valid_up_to: 0 }))
    );
}

#[test]
fn device_extensions_with_utf8_names_come_back_as_they_are() {
    let (_instance, loader) = loaded(&[]);
    let adapter = PhysicalDevice::from_vk(0xa).unwrap();
    let answers = || {
        let (first, mut second) = device_extension_answers();
        second.records[1].extension_name = name_buffer("VK_gr\u{fc}n".as_bytes());
        (first, second)
    };
    let expected = vec![
        ExtensionProperties { extension_name: "VK_KHR_swapchain".to_string(), spec_version: 68 },
        ExtensionProperties { extension_name: "VK_gr\u{fc}n".to_string(), spec_version: 1 },
    ];
    let (first, second) = answers();
    assert_eq!(adapter.get_extension_properties(&loader, first, second), Ok(expected.clone()));
    let (first, second) = answers();
    assert_eq!(adapter.get_extension_properties_lossy(&loader, first, second), Ok(expected));
}

#[test]
fn device_extensions_are_decoded_lossily_where_the_caller_asks_for_it() {
    let (_instance, loader) = loaded(&[]);
    let adapter = PhysicalDevice::from_vk(0xa).unwrap();
    let (first, second) = device_extension_answers();
    let extensions = adapter.get_extension_properties_lossy(&loader, first, second).unwrap();
    assert_eq!(
        extensions,
        vec![
            ExtensionProperties { extension_name: "VK_KHR_swapchain".to_string(), spec_version: 68 },
            ExtensionProperties { extension_name: "VK_\u{fffd}broken".to_string(), spec_version: 1 },
        ]
    );
    assert_eq!(
        ExtensionProperties::from_vk_lossy(&NativeExtensionProperties {
            extension_name: name_buffer(b"\xc3"),
            spec_version: 7,
        }),
        ExtensionProperties { extension_name: "\u{fffd}".to_string(), spec_version: 7 }
    );
}

#[test]
fn the_lossy_enumeration_keeps_to_the_protocol() {
    let (_instance, loader) = loaded(&[]);
    let adapter = PhysicalDevice::from_vk(0xa).unwrap();
    let (_, second) = device_extension_answers();
    assert_eq!(
        adapter.get_extension_properties_lossy(&loader, Counted { code: SUCCESS, count: 1 }, second),
        Err(Error::Native(5))
    );
    let (_, second) = device_extension_answers();
    assert_eq!(
        adapter.get_extension_properties_lossy(&loader, Counted { code: -3, count: 2 }, second),
        Err(Error::Native(-3))
    );
    let (first, mut second) = device_extension_answers();
    second.code = -4;
    assert_eq!(
        adapter.get_extension_properties_lossy(&loader, first, second),
        Err(Error::Native(-4))
    );
    let (first, second) = device_extension_answers();
    let fresh = InstanceLoader::new(CapabilitySet::empty());
    assert_eq!(
        adapter.get_extension_properties_lossy(&fresh, first, second),
        Err(Error::Misuse(Misuse::LoaderUnpopulated))
    );
}

#[test]
fn queue_families_keep_every_bit_of_their_flags() {
    let (_instance, loader) = loaded(&[]);
    let adapter = PhysicalDevice::from_vk(0xa).unwrap();
    let granularity = Extent3D { width: 1, height: 2, depth: 3 };
    let records = vec![
        NativeQueueFamilyProperties {
            queue_flags: 0xf,
            queue_count: 16,
            timestamp_valid_bits: 64,
            min_image_transfer_granularity: granularity,
        },
        NativeQueueFamilyProperties {
            queue_flags: 0x104,
            queue_count: 1,
            timestamp_valid_bits: 0,
            min_image_transfer_granularity: granularity,
        },
    ];
    let families = adapter
        .get_queue_family_properties(
            &loader,
            Counted { code: SUCCESS, count: 2 },
            Filled { code: SUCCESS, count: 2, records },
        )
        .unwrap();
    assert_eq!(families.len(), 2);
    assert_eq!(families[0].queue_flags, QueueFlags::all());
    assert_eq!(families[0].queue_count, 16);
    assert_eq!(families[0].timestamp_valid_bits, 64);
    assert_eq!(families[0].min_image_transfer_granularity, granularity);
    assert_eq!(families[1].queue_flags.bits(), 0x104);
    assert!(families[1].queue_flags.contains(QueueFlags::from_raw(QueueFlagBits::TransferBit.bit())));
    assert!(!families[1].queue_flags.intersects(QueueFlags::from_raw(QueueFlagBits::GraphicsBit.bit())));
    assert_eq!(QueueFlagBits::GraphicsBit.bit(), 1);
    assert_eq!(QueueFlagBits::ComputeBit.bit(), 2);
    assert_eq!(QueueFlagBits::TransferBit.bit(), 4);
    assert_eq!(QueueFlagBits::SparseBindingBit.bit(), 8);
}

#[test]
fn memory_properties_hold_the_slots_in_use() {
    let mut vk = NativePhysicalDeviceMemoryProperties {
        memory_type_count: 3,
        memory_types: [MemoryType::from_vk(0, 0); MAX_MEMORY_TYPES],
        memory_heap_count: 2,
        memory_heaps: [MemoryHeap::from_vk(0, 0); MAX_MEMORY_HEAPS],
    };
    vk.memory_types[0] = MemoryType::from_vk(1, 0);
    vk.memory_types[1] = MemoryType::from_vk(6, 1);
    vk.memory_types[2] = MemoryType::from_vk(0xe, 1);
    vk.memory_types[3] = MemoryType::from_vk(0x1f, 7);
    vk.memory_heaps[0] = MemoryHeap::from_vk(8 << 30, 1);
    vk.memory_heaps[1] = MemoryHeap::from_vk(16 << 30, 0);
    let properties = PhysicalDeviceMemoryProperties::from_vk(&vk);
    assert_eq!(
        properties.memory_types,
        vec![MemoryType::from_vk(1, 0), MemoryType::from_vk(6, 1), MemoryType::from_vk(0xe, 1)]
    );
    assert_eq!(
        properties.memory_heaps,
        vec![MemoryHeap::from_vk(8 << 30, 1), MemoryHeap::from_vk(16 << 30, 0)]
    );
    assert_eq!(properties.memory_types[1].into_vk(), (6, 1));
    assert_eq!(properties.memory_heaps[0].into_vk(), (8 << 30, 1));
    assert_eq!(PhysicalDeviceMemoryProperties::try_from_vk(&vk), Some(properties));

    vk.memory_type_count = 0;
    vk.memory_heap_count = 0;
    let none = PhysicalDeviceMemoryProperties::from_vk(&vk);
    assert!(none.memory_types.is_empty() && none.memory_heaps.is_empty());
    vk.memory_type_count = MAX_MEMORY_TYPES as u32;
    vk.memory_heap_count = MAX_MEMORY_HEAPS as u32;
    let full = PhysicalDeviceMemoryProperties::from_vk(&vk);
    assert_eq!(full.memory_types.len(), 32);
    assert_eq!(full.memory_heaps.len(), 16);
    assert_eq!(MAX_MEMORY_TYPES, vks::vk::VK_MAX_MEMORY_TYPES);
    assert_eq!(MAX_MEMORY_HEAPS, vks::vk::VK_MAX_MEMORY_HEAPS);
}

#[test]
fn memory_counts_outside_the_arrays_are_refused() {
    let mut vk = NativePhysicalDeviceMemoryProperties {
        memory_type_count: 33,
        memory_types: [MemoryType::from_vk(0, 0); MAX_MEMORY_TYPES],
        memory_heap_count: 1,
        memory_heaps: [MemoryHeap::from_vk(0, 0); MAX_MEMORY_HEAPS],
    };
    assert!(!vk.is_within_bounds());
    assert_eq!(PhysicalDeviceMemoryProperties::try_from_vk(&vk), None);
    let (_instance, loader) = loaded(&[]);
    let adapter = PhysicalDevice::from_vk(0xa).unwrap();
    assert_eq!(
        adapter.get_memory_properties(&loader, &vk),
        Err(Error::Native(ERROR_INCOMPATIBLE_DRIVER))
    );
    vk.memory_type_count = 32;
    vk.memory_heap_count = 17;
    assert!(!vk.is_within_bounds());
    assert_eq!(PhysicalDeviceMemoryProperties::try_from_vk(&vk), None);
    vk.memory_heap_count = 16;
    assert!(vk.is_within_bounds());
    assert_eq!(adapter.get_memory_properties(&loader, &vk).unwrap().memory_heaps.len(), 16);
}

#[test]
fn features_are_words_in_the_order_of_the_native_record() {
    let nothing = PhysicalDeviceFeatures::default();
    assert_eq!(nothing.into_vk(), [0u32; FEATURE_COUNT]);
    let mut words = [0u32; FEATURE_COUNT];
    for (i, word) in words.iter_mut().enumerate() {
        *word = 100 + i as u32;
    }
    let features = PhysicalDeviceFeatures::from_vk(&words);
    assert_eq!(features.robust_buffer_access, 100);
    assert_eq!(features.full_draw_index_uint32, 101);
    assert_eq!(features.geometry_shader, 104);
    assert_eq!(features.sampler_anisotropy, 119);
    assert_eq!(features.shader_float64, 139);
    assert_eq!(features.sparse_binding, 144);
    assert_eq!(features.inherited_queries, 154);
    assert_eq!(features.into_vk(), words);
    let mut one = PhysicalDeviceFeatures::default();
    one.tessellation_shader = 1;
    let mut expected = [0u32; FEATURE_COUNT];
    expected[5] = 1;
    assert_eq!(one.into_vk(), expected);
    assert_eq!(
        std::mem::size_of::<vks::vk::VkPhysicalDeviceFeatures>(),
        FEATURE_COUNT * std::mem::size_of::<u32>()
    );
    let (_instance, loader) = loaded(&[]);
    let adapter = PhysicalDevice::from_vk(0xa).unwrap();
    assert_eq!(adapter.get_features(&loader, &words), Ok(features));
}

#[test]
fn formats_are_named_by_their_numbers() {
    assert_eq!(Format::Undefined.as_raw(), 0);
    assert_eq!(Format::R8g8b8a8Unorm.as_raw(), 37);
    assert_eq!(Format::B8g8r8a8Srgb.as_raw(), 50);
    assert_eq!(Format::Astc12x12SrgbBlock.as_raw(), 184);
    assert_eq!(Format::Pvrtc12bppUnormBlockImg.as_raw(), 1000054000);
    assert_eq!(Format::Pvrtc24bppSrgbBlockImg.as_raw(), 1000054007);
    assert_eq!(Format::B8g8r8a8Unorm.as_raw(), vks::vk::VK_FORMAT_B8G8R8A8_UNORM);
    assert_eq!(Format::D32SfloatS8Uint.as_raw(), vks::vk::VK_FORMAT_D32_SFLOAT_S8_UINT);
    assert_eq!(
        Format::Pvrtc22bppSrgbBlockImg.as_raw(),
        vks::vk::VK_FORMAT_PVRTC2_2BPP_SRGB_BLOCK_IMG
    );
    for raw in (0..=184u32).chain(1000054000..=1000054007) {
        assert_eq!(Format::from_raw(raw).unwrap().as_raw(), raw);
    }
    for raw in [185u32, 186, 1000, 1000053999, 1000054008, u32::MAX] {
        assert_eq!(Format::from_raw(raw), None);
    }
    assert_eq!(Format::default(), Format::Undefined);
}

#[test]
fn flags_behave_as_bit_masks() {
    let sampled = FormatFeatureFlags::from_bits(0x1).unwrap();
    let blit = FormatFeatureFlags::from_bits(0x400 | 0x800).unwrap();
    let both = sampled.union(blit);
    assert_eq!(both.bits(), 0xc01);
    assert!(both.contains(sampled) && both.contains(blit));
    assert!(!sampled.contains(both));
    assert!(both.intersects(blit));
    assert!(!sampled.intersects(blit));
    assert!(FormatFeatureFlags::empty().is_empty());
    assert!(!both.is_empty());
    assert_eq!(FormatFeatureFlags::all().bits(), 0xffff);
    assert_eq!(FormatFeatureFlags::from_bits(0x1_0000), None);
    assert_eq!(FormatFeatureFlags::from_bits(0xffff), Some(FormatFeatureFlags::all()));
    assert_eq!(FormatFeatureFlags::from_bits_truncate(0xffff_0001), sampled);
    assert_eq!(FormatFeatureFlags::from_raw(0xffff_0001).bits(), 0xffff_0001);
    assert_eq!(FormatFeatureFlags::default(), FormatFeatureFlags::empty());

    assert_eq!(ImageUsageFlags::all().bits(), 0xff);
    assert_eq!(ImageUsageFlags::from_bits(0x100), None);
    assert_eq!(MemoryPropertyFlags::all().bits(), 0x1f);
    assert_eq!(MemoryPropertyFlags::from_bits(0x20), None);
    assert_eq!(MemoryHeapFlags::all().bits(), 0x3);
    assert_eq!(QueueFlags::all().bits(), 0xf);
    assert_eq!(QueueFlags::from_bits(0x10), None);
    assert_eq!(SurfaceTransformFlags::all().bits(), 0x1ff);
    assert_eq!(SurfaceTransformFlags::from_bits(0x200), None);
    assert_eq!(
        sarek::format::FORMAT_FEATURE_BLIT_SRC_BIT,
        vks::vk::VK_FORMAT_FEATURE_BLIT_SRC_BIT
    );
    assert_eq!(
        sarek::image::IMAGE_USAGE_COLOR_ATTACHMENT_BIT,
        vks::vk::VK_IMAGE_USAGE_COLOR_ATTACHMENT_BIT
    );
}

#[test]
fn format_properties_pass_their_masks_through() {
    let properties = FormatProperties::from_vk(0x1, 0xffff_ffff, 0x48);
    assert_eq!(properties.linear_tiling_features.bits(), 0x1);
    assert_eq!(properties.optimal_tiling_features.bits(), 0xffff_ffff);
    assert_eq!(properties.buffer_features.bits(), 0x48);
    assert_eq!(properties.into_vk(), (0x1, 0xffff_ffff, 0x48));
    let (_instance, loader) = loaded(&[]);
    let adapter = PhysicalDevice::from_vk(0xa).unwrap();
    assert_eq!(
        adapter.get_format_properties(&loader, Format::R8Unorm, 0x1, 0xffff_ffff, 0x48),
        Ok(properties)
    );
}

fn surface_session() -> (Instance, InstanceLoader, sarek::instance::Surface) {
    let (mut instance, mut loader) = loaded(&[Capability::KhrSurface, Capability::KhrXlibSurface]);
    let pending = instance
        .prepare_surface(loader.share(), WindowReference::Xlib { display: 1, window: 2 })
        .unwrap();
    let surface = instance.create_surface(pending, Created { code: SUCCESS, handle: 0x99 }).unwrap();
    (instance, loader, surface)
}

#[test]
fn surface_queries_go_through_the_bundle_of_surfaces() {
    let (instance, loader, surface) = surface_session();
    assert_eq!(surface.inner(), 0x99);
    assert_eq!(surface.instance(), instance.inner());
    assert!(surface.loader().is_shared());
    let adapter = PhysicalDevice::from_vk(0xa).unwrap();
    assert_eq!(adapter.get_surface_support(&loader, 0, &surface, SUCCESS, 1), Ok(true));
    assert_eq!(adapter.get_surface_support(&loader, 0, &surface, SUCCESS, 0), Ok(false));
    assert_eq!(adapter.get_surface_support(&loader, 0, &surface, SUCCESS, 7), Ok(true));
    assert_eq!(adapter.get_surface_support(&loader, 0, &surface, -2, 1), Err(Error::Native(-2)));
    let (_other, without) = loaded(&[]);
    assert_eq!(
        adapter.get_surface_support(&without, 0, &surface, SUCCESS, 1),
        Err(Error::Misuse(Misuse::CapabilityMissing))
    );
}

#[test]
fn surface_formats_name_their_format() {
    let (_instance, loader, surface) = surface_session();
    let adapter = PhysicalDevice::from_vk(0xa).unwrap();
    let records = vec![
        NativeSurfaceFormat { format: 44, color_space: 0 },
        NativeSurfaceFormat { format: 50, color_space: 1000104001 },
    ];
    let formats = adapter
        .get_surface_formats(
            &loader,
            &surface,
            Counted { code: SUCCESS, count: 2 },
            Filled { code: SUCCESS, count: 2, records },
        )
        .unwrap();
    assert_eq!(
        formats,
        vec![
            SurfaceFormat { format: Format::B8g8r8a8Unorm, color_space: 0 },
            SurfaceFormat { format: Format::B8g8r8a8Srgb, color_space: 1000104001 },
        ]
    );
    assert_eq!(
        SurfaceFormat::from_vk(&NativeSurfaceFormat { format: 185, color_space: 0 }),
        Err(Error::General("format is not known: 185".to_string()))
    );
}

#[test]
fn present_modes_are_named_by_their_numbers() {
    let (_instance, loader, surface) = surface_session();
    let adapter = PhysicalDevice::from_vk(0xa).unwrap();
    let modes = adapter
        .get_surface_present_modes(
            &loader,
            &surface,
            Counted { code: SUCCESS, count: 6 },
            Filled {
                code: SUCCESS,
                count: 6,
                records: vec![2, 0, 1, 3, 1000111000, 1000111001],
            },
        )
        .unwrap();
    assert_eq!(
        modes,
        vec![
            PresentMode::Fifo,
            PresentMode::Immediate,
            PresentMode::Mailbox,
            PresentMode::FifoRelaxed,
            PresentMode::SharedDemandRefresh,
            PresentMode::SharedContinuousRefresh,
        ]
    );
    for mode in modes {
        assert_eq!(PresentMode::from_raw(mode.as_raw()), Some(mode));
    }
    assert_eq!(PresentMode::from_raw(4), None);
    assert_eq!(PresentMode::from_raw(1000111002), None);
    assert_eq!(PresentMode::default(), PresentMode::Immediate);
    assert_eq!(PresentMode::Mailbox.as_raw(), vks::khr_surface::VK_PRESENT_MODE_MAILBOX_KHR);
}

#[test]
fn surface_capabilities_are_copied_field_by_field() {
    let (_instance, loader, surface) = surface_session();
    let adapter = PhysicalDevice::from_vk(0xa).unwrap();
    let vk = NativeSurfaceCapabilities {
        min_image_count: 2,
        max_image_count: 8,
        current_extent: Extent2D { width: 100, height: 100 },
        min_image_extent: Extent2D { width: 1, height: 2 },
        max_image_extent: Extent2D { width: 4096, height: 2160 },
        max_image_array_layers: 1,
        supported_transforms: 0x1ff,
        current_transform: 0x1,
        supported_composite_alpha: 0x9,
        supported_usage_flags: 0x9f,
    };
    let capabilities = adapter.get_surface_capabilities(&loader, &surface, SUCCESS, &vk).unwrap();
    assert_eq!(
        capabilities,
        SurfaceCapabilities {
            min_image_count: 2,
            max_image_count: 8,
            current_extent: Extent2D { width: 100, height: 100 },
            min_image_extent: Extent2D { width: 1, height: 2 },
            max_image_extent: Extent2D { width: 4096, height: 2160 },
            max_image_array_layers: 1,
            supported_transforms: SurfaceTransformFlags::all(),
            current_transform: SurfaceTransformFlags::from_raw(1),
            supported_composite_alpha: 0x9,
            supported_usage_flags: ImageUsageFlags::from_raw(0x9f),
        }
    );
    assert_eq!(
        adapter.get_surface_capabilities(&loader, &surface, -4, &vk),
        Err(Error::Native(-4))
    );
}
