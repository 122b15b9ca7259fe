use sarek::capability::{Capability, CapabilitySet, Scope};
use sarek::error::{Error, Misuse};
use sarek::instance::device::DeviceLoader;
use sarek::instance::InstanceLoader;
use sarek::loader::{Bundle, LoaderState};

fn selection() -> CapabilitySet {
    CapabilitySet::of(&[
        Capability::KhrSurface,
        Capability::KhrSwapchain,
        Capability::ExtDebugReport,
        Capability::KhrSharedPresentableImage,
        Capability::ExtValidationFlags,
    ])
}

#[test]
fn a_fresh_instance_loader_holds_the_global_bundle_only() {
    let loader = InstanceLoader::new(selection());
    assert!(!loader.is_populated());
    assert!(!loader.is_shared());
    assert_eq!(loader.instance(), None);
    assert_eq!(loader.scope(), Scope::Instance);
    assert_eq!(loader.capabilities(), selection());
    assert_eq!(loader.bundles(), vec![Bundle::Global]);
    assert!(loader.resolves(Bundle::Global));
    assert!(!loader.resolves(Bundle::Core));
    assert!(!loader.resolves(Bundle::Extension(Capability::KhrSurface)));
    assert_eq!(loader.require(Bundle::Global), Ok(()));
    assert_eq!(loader.require(Bundle::Core), Err(Error::Misuse(Misuse::LoaderUnpopulated)));
    assert_eq!(
        loader.require(Bundle::Extension(Capability::KhrSurface)),
        Err(Error::Misuse(Misuse::LoaderUnpopulated))
    );
}

#[test]
fn populating_resolves_core_and_the_enabled_capabilities() {
    let mut loader = InstanceLoader::new(selection());
    assert_eq!(loader.load(0x1000), Ok(()));
    assert!(loader.is_populated());
    assert!(!loader.is_shared());
    assert_eq!(loader.instance(), Some(0x1000));
    assert_eq!(
        loader.bundles(),
        vec![
            Bundle::Global,
            Bundle::Core,
            Bundle::Extension(Capability::KhrSurface),
            Bundle::Extension(Capability::KhrSwapchain),
            Bundle::Extension(Capability::ExtDebugReport),
        ]
    );
    assert_eq!(loader.require(Bundle::Core), Ok(()));
    assert_eq!(loader.require(Bundle::Extension(Capability::ExtDebugReport)), Ok(()));
    // Enabled, but without entry points at instance scope.
    assert_eq!(
        loader.require(Bundle::Extension(Capability::KhrSharedPresentableImage)),
        Err(Error::Misuse(Misuse::CapabilityMissing))
    );
    // With entry points at instance scope, but not enabled.
    assert_eq!(
        loader.require(Bundle::Extension(Capability::KhrXlibSurface)),
        Err(Error::Misuse(Misuse::CapabilityMissing))
    );
}

#[test]
fn population_is_single_shot() {
    let mut loader = InstanceLoader::new(CapabilitySet::empty());
    assert_eq!(loader.load(1), Ok(()));
    assert_eq!(loader.load(2), Err(Error::Misuse(Misuse::LoaderPopulated)));
    assert_eq!(loader.load(1), Err(Error::Misuse(Misuse::LoaderPopulated)));
    assert_eq!(loader.instance(), Some(1));
    assert_eq!(loader.bundles(), vec![Bundle::Global, Bundle::Core]);
}

#[test]
fn a_populated_and_shared_loader_rejects_a_second_populate() {
    let mut loader = InstanceLoader::new(selection());
    assert_eq!(loader.load(0xabc), Ok(()));
    let mut second_owner = loader.share();
    assert!(loader.is_shared());
    assert!(second_owner.is_shared());
    assert_eq!(loader.load(0xdef), Err(Error::Misuse(Misuse::LoaderShared)));
    assert_eq!(second_owner.load(0xdef), Err(Error::Misuse(Misuse::LoaderShared)));
    // Nothing has changed, for either owner.
    assert_eq!(loader.instance(), Some(0xabc));
    assert_eq!(second_owner.instance(), Some(0xabc));
    assert_eq!(loader.bundles(), second_owner.bundles());
    assert_eq!(loader, second_owner);
}

#[test]
fn a_loader_shared_before_population_can_never_be_populated() {
    let mut loader = InstanceLoader::new(selection());
    let mut second_owner = loader.share();
    let mut third_owner = second_owner.share();
    assert_eq!(loader.load(1), Err(Error::Misuse(Misuse::LoaderShared)));
    assert_eq!(second_owner.load(1), Err(Error::Misuse(Misuse::LoaderShared)));
    assert_eq!(third_owner.load(1), Err(Error::Misuse(Misuse::LoaderShared)));
    assert!(!loader.is_populated());
    assert!(!second_owner.is_populated());
    assert!(!third_owner.is_populated());
    assert_eq!(loader.bundles(), vec![Bundle::Global]);
}

#[test]
fn sharing_keeps_what_was_resolved() {
    let mut loader = InstanceLoader::new(selection());
    loader.load(5).unwrap();
    let before = loader.bundles();
    let second_owner = loader.share();
    assert_eq!(loader.bundles(), before);
    assert_eq!(second_owner.bundles(), before);
    assert_eq!(second_owner.capabilities(), selection());
    assert_eq!(second_owner.require(Bundle::Extension(Capability::KhrSurface)), Ok(()));
}

#[test]
fn a_device_loader_resolves_the_device_scope_bundles() {
    let mut loader = DeviceLoader::new(selection());
    assert_eq!(loader.scope(), Scope::Device);
    assert_eq!(loader.bundles(), Vec::new());
    assert!(!loader.resolves(Bundle::Global));
    assert_eq!(loader.require(Bundle::Core), Err(Error::Misuse(Misuse::LoaderUnpopulated)));
    assert_eq!(loader.device(), None);
    assert_eq!(loader.load(0x77), Ok(()));
    assert_eq!(loader.device(), Some(0x77));
    assert_eq!(
        loader.bundles(),
        vec![
            Bundle::Core,
            Bundle::Extension(Capability::KhrSwapchain),
            Bundle::Extension(Capability::KhrSharedPresentableImage),
        ]
    );
    assert_eq!(
        loader.require(Bundle::Global),
        Err(Error::Misuse(Misuse::CapabilityMissing))
    );
    assert_eq!(
        loader.require(Bundle::Extension(Capability::KhrSurface)),
        Err(Error::Misuse(Misuse::CapabilityMissing))
    );
    assert_eq!(loader.load(0x78), Err(Error::Misuse(Misuse::LoaderPopulated)));
    let mut other = loader.share();
    assert_eq!(other.load(0x79), Err(Error::Misuse(Misuse::LoaderShared)));
    assert_eq!(loader.load(0x79), Err(Error::Misuse(Misuse::LoaderShared)));
    assert_eq!(other.device(), Some(0x77));
}

#[test]
fn the_state_of_a_loader_can_be_used_on_its_own() {
    let mut state = LoaderState::new(Scope::Device, CapabilitySet::all());
    assert_eq!(state.scope(), Scope::Device);
    assert_eq!(state.target(), None);
    assert!(!state.is_shared());
    assert_eq!(state.load(3), Ok(()));
    assert_eq!(state.target(), Some(3));
    assert_eq!(state.bundles().len(), 1 + CapabilitySet::all().resolved_at(Scope::Device).len());
    let other = state.share();
    assert!(state.is_shared());
    assert_eq!(state, other);
}
