//! The instance-scope loader.

use vstd::prelude::*;
use crate::capability::{CapabilitySet, Scope};
use crate::enumerate::{enumerate, enumerated, Counted, Filled, FromNative};
use crate::error::Error;
use crate::loader::{Bundle, LoaderState, LoaderView};

verus! {

/// The table of entry points that are reached through the top-level
/// handle, and of those that need no handle at all.
///
/// A fresh loader holds the global bundle only. `load` populates it against
/// the top-level handle; that happens once, inside the construction of the
/// handle, and before the loader is shared.
#[derive(Debug, PartialEq, Eq)]
pub struct InstanceLoader {
    state: LoaderState,
}

impl View for InstanceLoader {
    type V = LoaderView;

    closed spec fn view(&self) -> LoaderView {
        self.state@
    }
}

impl InstanceLoader {
    #[verifier::type_invariant]
    spec fn instance_scoped(self) -> bool {
        self.state@.scope is Instance
    }

    /// A loader for the given selection of capabilities: unpopulated, with
    /// a single owner.
    pub fn new(capabilities: CapabilitySet) -> (loader: InstanceLoader)
        ensures
            loader@ == (LoaderView {
                scope: Scope::Instance,
                capabilities: capabilities@,
                target: None,
                shared: false,
            }),
    {
        InstanceLoader { state: LoaderState::new(Scope::Instance, capabilities) }
    }

    /// The scope of the loader, which is always the same.
    pub fn scope(&self) -> (scope: Scope)
        ensures
            scope == self@.scope,
            scope is Instance,
    {
        proof {
            use_type_invariant(self);
        }
        self.state.scope()
    }

    /// Populates the loader against a live top-level handle: the core
    /// bundle, and the bundle of every enabled capability that has
    /// instance-scope entry points. Refused as misuse once the loader was
    /// shared or populated; then nothing changes.
    pub fn load(&mut self, instance: u64) -> (res: Result<(), Error>)
        ensures
            res == old(self)@.load_result(),
            final(self)@ == old(self)@.loaded(instance),
    {
        proof {
            use_type_invariant(&*self);
        }
        self.state.load(instance)
    }

    /// Hands the loader to a further owner. Both owners then hold the same
    /// table, and neither can populate it any more.
    pub fn share(&mut self) -> (other: InstanceLoader)
        ensures
            final(self)@ == old(self)@.shared_out(),
            other@ == old(self)@.shared_out(),
    {
        proof {
            use_type_invariant(&*self);
        }
        InstanceLoader { state: self.state.share() }
    }

    /// The capabilities selected for the session.
    pub fn capabilities(&self) -> (capabilities: CapabilitySet)
        ensures
            capabilities@ == self@.capabilities,
    {
        self.state.capabilities()
    }

    /// The top-level handle against which the loader was populated.
    pub fn instance(&self) -> (instance: Option<u64>)
        ensures
            instance == self@.target,
    {
        self.state.target()
    }

    /// Whether the loader was populated.
    pub fn is_populated(&self) -> (populated: bool)
        ensures
            populated == self@.populated(),
    {
        self.state.target().is_some()
    }

    /// Whether the loader has been handed to a second owner.
    pub fn is_shared(&self) -> (shared: bool)
        ensures
            shared == self@.shared,
    {
        self.state.is_shared()
    }

    /// Whether the loader holds a bundle.
    pub fn resolves(&self, bundle: Bundle) -> (held: bool)
        ensures
            held == self@.resolves(bundle),
    {
        self.state.resolves(bundle)
    }

    /// Asks the loader for a bundle before an entry point of it is called.
    pub fn require(&self, bundle: Bundle) -> (res: Result<(), Error>)
        ensures
            res == self@.require_result(bundle),
    {
        self.state.require(bundle)
    }

    /// Completes a two-call enumeration that went through an entry point
    /// of the given bundle. Where the loader does not hold the bundle the
    /// enumeration is refused as misuse, whatever the answers are.
    pub fn enumerate<T: FromNative>(
        &self,
        bundle: Bundle,
        first: Counted,
        second: Filled<T::Native>,
    ) -> (res: Result<Vec<T>, Error>)
        ensures
            guarded_enumeration::<T>(self@, bundle, first, second, res),
    {
        match self.state.require(bundle) {
            Ok(()) => enumerate::<T>(first, second),
            Err(e) => Err(e),
        }
    }

    /// The bundles that the loader holds, in the order in which the front
    /// end has to resolve them.
    pub fn bundles(&self) -> (list: Vec<Bundle>)
        ensures
            list@ == self@.bundles(),
    {
        self.state.bundles()
    }
}

/// `res` is what an enumeration through an entry point of `bundle` gives:
/// the misuse that the loader reports where it does not hold the bundle,
/// else what the two answers give.
pub open spec fn guarded_enumeration<T: FromNative>(
    loader: LoaderView,
    bundle: Bundle,
    first: Counted,
    second: Filled<T::Native>,
    res: Result<Vec<T>, Error>,
) -> bool {
    match loader.require_result(bundle) {
        Err(e) => res == Err::<Vec<T>, Error>(e),
        Ok(_) => enumerated::<T>(first, second, res),
    }
}

} // verus!
