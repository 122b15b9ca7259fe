//! The device-scope loader.

use vstd::prelude::*;
use crate::capability::{CapabilitySet, Scope};
use crate::error::Error;
use crate::loader::{Bundle, LoaderState, LoaderView};

verus! {

/// The table of entry points that are reached through one logical device.
///
/// A fresh loader holds nothing. `load` populates it against the device;
/// that happens once, inside the construction of the device. Devices may
/// differ in what they support, so a loader serves one device only.
#[derive(Debug, PartialEq, Eq)]
pub struct DeviceLoader {
    state: LoaderState,
}

impl View for DeviceLoader {
    type V = LoaderView;

    closed spec fn view(&self) -> LoaderView {
        self.state@
    }
}

impl DeviceLoader {
    #[verifier::type_invariant]
    spec fn device_scoped(self) -> bool {
        self.state@.scope is Device
    }

    /// A loader for the given selection of capabilities: unpopulated, with
    /// a single owner.
    pub fn new(capabilities: CapabilitySet) -> (loader: DeviceLoader)
        ensures
            loader@ == (LoaderView {
                scope: Scope::Device,
                capabilities: capabilities@,
                target: None,
                shared: false,
            }),
    {
        DeviceLoader { state: LoaderState::new(Scope::Device, capabilities) }
    }

    /// The scope of the loader, which is always the same.
    pub fn scope(&self) -> (scope: Scope)
        ensures
            scope == self@.scope,
            scope is Device,
    {
        proof {
            use_type_invariant(self);
        }
        self.state.scope()
    }

    /// Populates the loader against a live logical device: the core
    /// bundle, and the bundle of every enabled capability that has
    /// device-scope entry points. Refused as misuse once the loader was
    /// shared or populated; then nothing changes.
    pub fn load(&mut self, device: u64) -> (res: Result<(), Error>)
        ensures
            res == old(self)@.load_result(),
            final(self)@ == old(self)@.loaded(device),
    {
        proof {
            use_type_invariant(&*self);
        }
        self.state.load(device)
    }

    /// Hands the loader to a further owner. Both owners then hold the same
    /// table, and neither can populate it any more.
    pub fn share(&mut self) -> (other: DeviceLoader)
        ensures
            final(self)@ == old(self)@.shared_out(),
            other@ == old(self)@.shared_out(),
    {
        proof {
            use_type_invariant(&*self);
        }
        DeviceLoader { state: self.state.share() }
    }

    /// The capabilities selected for the session.
    pub fn capabilities(&self) -> (capabilities: CapabilitySet)
        ensures
            capabilities@ == self@.capabilities,
    {
        self.state.capabilities()
    }

    /// The logical device against which the loader was populated.
    pub fn device(&self) -> (device: Option<u64>)
        ensures
            device == self@.target,
    {
        self.state.target()
    }

    /// Whether the loader was populated.
    pub fn is_populated(&self) -> (populated: bool)
        ensures
            populated == self@.populated(),
    {
        self.state.target().is_some()
    }

    /// Whether the loader has been handed to a second owner.
    pub fn is_shared(&self) -> (shared: bool)
        ensures
            shared == self@.shared,
    {
        self.state.is_shared()
    }

    /// Whether the loader holds a bundle.
    pub fn resolves(&self, bundle: Bundle) -> (held: bool)
        ensures
            held == self@.resolves(bundle),
    {
        self.state.resolves(bundle)
    }

    /// Asks the loader for a bundle before an entry point of it is called.
    pub fn require(&self, bundle: Bundle) -> (res: Result<(), Error>)
        ensures
            res == self@.require_result(bundle),
    {
        self.state.require(bundle)
    }

    /// The bundles that the loader holds, in the order in which the front
    /// end has to resolve them.
    pub fn bundles(&self) -> (list: Vec<Bundle>)
        ensures
            list@ == self@.bundles(),
    {
        self.state.bundles()
    }
}

} // verus!
