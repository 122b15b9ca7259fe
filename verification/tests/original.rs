use sarek::enumerate::{Counted, Filled};
use sarek::error::{EncodingError, Error};
use sarek::global::NativeLayerProperties;
use sarek::instance::physical_device::NativeExtensionProperties;
use sarek::instance::{ApplicationInfo, Instance, InstanceCreateInfo, InstanceCreateRequest};
use sarek::native::{Created, SUCCESS};
use sarek::{
    enumerate_instance_extension_properties, enumerate_instance_layer_properties, CapabilitySet,
    InstanceLoader, Version,
};

fn buffer(text: &str) -> Vec<u8> {
    let mut out = vec![0u8; 256];
    out[..text.len()].copy_from_slice(text.as_bytes());
    out
}

/// What a driver with one validation layer answers.
struct Driver;

impl Driver {
    fn extensions(&self, layer: &Option<Vec<u8>>) -> Vec<NativeExtensionProperties> {
        match layer {
            None => vec![
                NativeExtensionProperties { extension_name: buffer("VK_KHR_surface"), spec_version: 25 },
                NativeExtensionProperties { extension_name: buffer("VK_KHR_xlib_surface"), spec_version: 6 },
                NativeExtensionProperties { extension_name: buffer("VK_EXT_debug_report"), spec_version: 8 },
            ],
            Some(_) => Vec::new(),
        }
    }

    fn layers(&self) -> Vec<NativeLayerProperties> {
        vec![NativeLayerProperties {
            layer_name: buffer("VK_LAYER_LUNARG_parameter_validation"),
            spec_version: Version(1, 0, 59).to_vk(),
            implementation_version: 1,
            description: buffer("LunarG Validation Layer"),
        }]
    }

    fn create_instance(&self, request: &InstanceCreateRequest) -> Created {
        let known = self.layers();
        for layer in &request.enabled_layer_names {
            let text = &layer[..layer.len() - 1];
            if !known.iter().any(|l| &l.layer_name[..text.len()] == text) {
                return Created { code: -6, handle: 0 };
            }
        }
        Created { code: SUCCESS, handle: 0x5a5a_0000 }
    }

    fn physical_devices(&self) -> Vec<u64> {
        vec![0x0d0d_0001]
    }
}

fn two_calls<R: Clone>(records: Vec<R>) -> (Counted, Filled<R>) {
    let count = records.len() as u32;
    (Counted { code: SUCCESS, count }, Filled { code: SUCCESS, count, records })
}

#[test]
fn core_calls() {
    let driver = Driver;
    let layer = sarek::global::marshal_layer_name(None).unwrap();
    let (first, second) = two_calls(driver.extensions(&layer));
    let eps = enumerate_instance_extension_properties(None, first, second).unwrap();
    for ep in &eps {
        println!("{} (version {})", ep.extension_name, ep.spec_version);
    }
    assert_eq!(eps.len(), 3);

    // Test enumerate_instance_extension_properties() again with a specific layer
    let name = Some("VK_LAYER_LUNARG_parameter_validation");
    let layer = sarek::global::marshal_layer_name(name).unwrap();
    assert_eq!(layer, Some(b"VK_LAYER_LUNARG_parameter_validation\0".to_vec()));
    let (first, second) = two_calls(driver.extensions(&layer));
    let eps = enumerate_instance_extension_properties(name, first, second).unwrap();
    for ep in &eps {
        println!("{} (version {})", ep.extension_name, ep.spec_version);
    }
    assert!(eps.is_empty());

    let (first, second) = two_calls(driver.layers());
    let lps = enumerate_instance_layer_properties(first, second).unwrap();
    for lp in &lps {
        println!(
            "{} (version {}, impl version {}): {}",
            lp.layer_name, lp.spec_version, lp.implementation_version, lp.description
        );
    }
    assert_eq!(lps[0].layer_name, "VK_LAYER_LUNARG_parameter_validation");
    assert_eq!(lps[0].description, "LunarG Validation Layer");
}

#[test]
fn instance() {
    let driver = Driver;
    let pending = Instance::prepare(
        InstanceLoader::new(CapabilitySet::empty()),
        &InstanceCreateInfo {
            application_info: ApplicationInfo {
                application_name: "Test Application".to_owned(),
                application_version: Version(0, 1, 0),
                engine_name: "Test Engine".to_owned(),
                engine_version: Version(0, 1, 0),
            },
            enabled_layer_count: 1,
            enabled_layer_names: vec!["VK_LAYER_LUNARG_parameter_validation".to_owned()],
        },
        Vec::new(),
    )
    .unwrap();
    let reply = driver.create_instance(pending.request());
    let (instance, loader) = Instance::new(pending, reply).unwrap();

    let (first, second) = two_calls(driver.physical_devices());
    let _devices = instance.enumerate_physical_devices(&loader, first, second).unwrap();
}

#[test]
fn a_layer_name_with_a_nul_is_refused_whatever_the_driver_answers() {
    let (first, second) = two_calls(Driver.extensions(&None));
    assert_eq!(
        enumerate_instance_extension_properties(Some("VK_LAYER\0x"), first, second),
        Err(Error::Encoding(EncodingError::InteriorNul { position: 8 }))
    );
    assert_eq!(
        sarek::global::marshal_layer_name(Some("\0")),
        Err(Error::Encoding(EncodingError::InteriorNul { position: 0 }))
    );
}

#[test]
fn an_instance_extension_name_that_is_not_utf8_is_refused() {
    let mut records = Driver.extensions(&None);
    records[1].extension_name[3] = 0xff;
    let (first, second) = two_calls(records);
    assert_eq!(
        enumerate_instance_extension_properties(None, first, second),
        Err(Error::Encoding(EncodingError::InvalidUtf8 { valid_up_to: 3 }))
    );
    let mut layers = Driver.layers();
    layers[0].description[0] = 0x80;
    let (first, second) = two_calls(layers);
    assert_eq!(
        enumerate_instance_layer_properties(first, second),
        Err(Error::Encoding(EncodingError::InvalidUtf8 { valid_up_to: 0 }))
    );
}
