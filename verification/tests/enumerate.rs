use std::cell::RefCell;

use sarek::enumerate::{convert_all, enumerate, Counted, Filled};
use sarek::error::{EncodingError, Error};
use sarek::global::{ExtensionProperties, LayerProperties, NativeLayerProperties};
use sarek::instance::physical_device::{NativeExtensionProperties, PhysicalDevice};
use sarek::instance::surface::PresentMode;
use sarek::native::{INCOMPLETE, SUCCESS};

/// A stand-in for a native enumeration entry point. It records every call
/// and answers as it was told to.
struct FakeSource<R: Clone> {
    calls: RefCell<Vec<Option<u32>>>,
    first: (i32, u32),
    second: (i32, u32, Vec<R>),
}

impl<R: Clone> FakeSource<R> {
    fn holding(records: Vec<R>) -> Self {
        let n = records.len() as u32;
        FakeSource { calls: RefCell::new(Vec::new()), first: (SUCCESS, n), second: (SUCCESS, n, records) }
    }

    fn call(&self, capacity: Option<u32>) -> (i32, u32, Vec<R>) {
        self.calls.borrow_mut().push(capacity);
        match capacity {
            None => (self.first.0, self.first.1, Vec::new()),
            Some(slots) => {
                // Never hand out more than the buffer has room for.
                let readable = self.second.2.iter().take(slots as usize).cloned().collect();
                (self.second.0, self.second.1, readable)
            }
        }
    }
}

/// The two-call dance, as a front end performs it.
fn drive<T: sarek::enumerate::FromNative>(source: &FakeSource<T::Native>) -> Result<Vec<T>, Error>
where
    T::Native: Clone,
{
    let (code, count, _) = source.call(None);
    let first = Counted { code, count };
    let capacity = first.capacity()?;
    let (code, count, records) = source.call(Some(capacity));
    enumerate::<T>(first, Filled { code, count, records })
}

#[test]
fn a_well_behaved_source_gives_its_records_in_order() {
    for n in [0usize, 1, 2, 7, 100] {
        let handles: Vec<u64> = (0..n as u64).map(|i| 0x1000 + 3 * i).collect();
        let source = FakeSource::holding(handles.clone());
        let adapters: Vec<PhysicalDevice> = drive(&source).unwrap();
        assert_eq!(adapters.len(), n);
        let inner: Vec<u64> = adapters.iter().map(|a| a.inner()).collect();
        assert_eq!(inner, handles);
        assert_eq!(*source.calls.borrow(), vec![None, Some(n as u32)]);
    }
}

#[test]
fn a_source_that_grows_between_the_calls_is_a_native_error() {
    let mut source = FakeSource::holding(vec![1u64, 2, 3]);
    source.first = (SUCCESS, 2);
    let res: Result<Vec<PhysicalDevice>, Error> = drive(&source);
    assert_eq!(res, Err(Error::Native(INCOMPLETE)));
    assert_eq!(*source.calls.borrow(), vec![None, Some(2)]);

    let first = Counted { code: SUCCESS, count: 0 };
    let second = Filled { code: SUCCESS, count: 1, records: Vec::<u64>::new() };
    assert_eq!(enumerate::<PhysicalDevice>(first, second), Err(Error::Native(INCOMPLETE)));
    let second = Filled { code: SUCCESS, count: u32::MAX, records: vec![5u64] };
    assert_eq!(
        enumerate::<PhysicalDevice>(Counted { code: SUCCESS, count: 1 }, second),
        Err(Error::Native(INCOMPLETE))
    );
}

#[test]
fn a_source_that_shrinks_between_the_calls_gives_what_it_confirmed() {
    let mut source = FakeSource::holding(vec![9u64, 8]);
    source.first = (SUCCESS, 5);
    let adapters: Vec<PhysicalDevice> = drive(&source).unwrap();
    assert_eq!(adapters.iter().map(|a| a.inner()).collect::<Vec<u64>>(), vec![9, 8]);
    assert_eq!(*source.calls.borrow(), vec![None, Some(5)]);
}

#[test]
fn a_count_that_is_not_the_number_of_records_is_a_native_error() {
    let first = Counted { code: SUCCESS, count: 4 };
    let fewer = Filled { code: SUCCESS, count: 3, records: vec![1u64, 2] };
    assert_eq!(enumerate::<PhysicalDevice>(first, fewer), Err(Error::Native(INCOMPLETE)));
    let more = Filled { code: SUCCESS, count: 1, records: vec![1u64, 2] };
    assert_eq!(enumerate::<PhysicalDevice>(first, more), Err(Error::Native(INCOMPLETE)));
}

#[test]
fn a_failed_call_ends_the_enumeration_with_its_code() {
    let mut source = FakeSource::holding(vec![1u64]);
    source.first = (-3, 1);
    let res: Result<Vec<PhysicalDevice>, Error> = drive(&source);
    assert_eq!(res, Err(Error::Native(-3)));
    // There was no second call.
    assert_eq!(*source.calls.borrow(), vec![None]);

    let mut source = FakeSource::holding(vec![1u64]);
    source.second.0 = -1;
    let res: Result<Vec<PhysicalDevice>, Error> = drive(&source);
    assert_eq!(res, Err(Error::Native(-1)));
    assert_eq!(*source.calls.borrow(), vec![None, Some(1)]);

    // A second call that reports the buffer as too small is not a success.
    let mut source = FakeSource::holding(vec![1u64]);
    source.second.0 = INCOMPLETE;
    let res: Result<Vec<PhysicalDevice>, Error> = drive(&source);
    assert_eq!(res, Err(Error::Native(INCOMPLETE)));

    // The first failure wins.
    let first = Counted { code: -4, count: 0 };
    let second = Filled { code: -5, count: 9, records: vec![1u64] };
    assert_eq!(enumerate::<PhysicalDevice>(first, second), Err(Error::Native(-4)));
}

#[test]
fn the_capacity_is_the_count_of_a_successful_first_call() {
    assert_eq!(Counted { code: SUCCESS, count: 0 }.capacity(), Ok(0));
    assert_eq!(Counted { code: SUCCESS, count: 17 }.capacity(), Ok(17));
    assert_eq!(Counted { code: SUCCESS, count: u32::MAX }.capacity(), Ok(u32::MAX));
    assert_eq!(Counted { code: INCOMPLETE, count: 17 }.capacity(), Err(Error::Native(5)));
    assert_eq!(Counted { code: -9, count: 0 }.capacity(), Err(Error::Native(-9)));
}

fn named(name: &[u8], spec_version: u32) -> NativeExtensionProperties {
    let mut extension_name = vec![0u8; 256];
    extension_name[..name.len()].copy_from_slice(name);
    NativeExtensionProperties { extension_name, spec_version }
}

#[test]
fn records_are_converted_on_the_way() {
    let source = FakeSource::holding(vec![
        named(b"VK_KHR_surface", 25),
        named(b"VK_EXT_debug_report", 8),
        named(b"", 0),
    ]);
    let extensions: Vec<ExtensionProperties> = drive(&source).unwrap();
    assert_eq!(
        extensions,
        vec![
            ExtensionProperties { extension_name: "VK_KHR_surface".to_string(), spec_version: 25 },
            ExtensionProperties { extension_name: "VK_EXT_debug_report".to_string(), spec_version: 8 },
            ExtensionProperties { extension_name: String::new(), spec_version: 0 },
        ]
    );
}

#[test]
fn the_first_record_that_does_not_convert_ends_the_enumeration() {
    let source = FakeSource::holding(vec![
        named(b"VK_KHR_surface", 25),
        named(b"bad\xff", 1),
        named(b"\xfe", 2),
    ]);
    let res: Result<Vec<ExtensionProperties>, Error> = drive(&source);
    assert_eq!(res, Err(Error::Encoding(EncodingError::InvalidUtf8 { valid_up_to: 3 })));

    let modes: Result<Vec<PresentMode>, Error> = drive(&FakeSource::holding(vec![2u32, 0, 77, 99]));
    assert_eq!(modes, Err(Error::General("present mode is not known: 77".to_string())));
}

#[test]
fn conversion_alone_keeps_number_and_order() {
    let layers = vec![
        NativeLayerProperties {
            layer_name: b"VK_LAYER_LUNARG_parameter_validation\0".to_vec(),
            spec_version: 4194307,
            implementation_version: 1,
            description: b"LunarG Validation Layer\0".to_vec(),
        },
        NativeLayerProperties {
            layer_name: b"VK_LAYER_LUNARG_core_validation\0".to_vec(),
            spec_version: 4194307,
            implementation_version: 2,
            description: b"\0".to_vec(),
        },
    ];
    let converted: Vec<LayerProperties> = convert_all(&layers).unwrap();
    assert_eq!(
        converted,
        vec![
            LayerProperties {
                layer_name: "VK_LAYER_LUNARG_parameter_validation".to_string(),
                spec_version: 4194307,
                implementation_version: 1,
                description: "LunarG Validation Layer".to_string(),
            },
            LayerProperties {
                layer_name: "VK_LAYER_LUNARG_core_validation".to_string(),
                spec_version: 4194307,
                implementation_version: 2,
                description: String::new(),
            },
        ]
    );
    let nothing: Vec<LayerProperties> = convert_all(&Vec::new()).unwrap();
    assert!(nothing.is_empty());
}
