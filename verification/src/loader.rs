//! The state of a loader.
//!
//! A loader is the table of entry points resolved for one scope: the core
//! bundle, and one bundle for each enabled capability that has entry points
//! at that scope. It starts unpopulated, is populated once against a live
//! handle, and only then may be handed to further owners. The entry points
//! themselves stay with the front end; what is kept here is which bundles
//! the table holds, for which handle, and whether it has been shared.

use vstd::prelude::*;
use crate::capability::{in_menu_order, resolved_among, Capability, CapabilitySet, Scope};
use crate::error::{Error, Misuse};

verus! {

/// A bundle of entry points.
#[derive(Debug, Clone, Copy, PartialEq, Eq, Structural)]
pub enum Bundle {
    /// The entry points that need no handle at all.
    Global,
    /// The core entry points of the scope.
    Core,
    /// The entry points that a capability adds to the scope.
    Extension(Capability),
}

/// What a loader is, as a mathematical value.
pub struct LoaderView {
    /// The scope of the table.
    pub scope: Scope,
    /// The capabilities selected for the session.
    pub capabilities: Set<Capability>,
    /// The handle against which the table was populated, once it was.
    pub target: Option<u64>,
    /// Whether the table has been handed to a second owner.
    pub shared: bool,
}

impl LoaderView {
    /// The table was populated.
    pub open spec fn populated(self) -> bool {
        self.target is Some
    }

    /// The capabilities whose bundles the table holds once populated.
    pub open spec fn extensions(self) -> Set<Capability> {
        resolved_among(self.capabilities, self.scope)
    }

    /// The table holds this bundle.
    pub open spec fn resolves(self, bundle: Bundle) -> bool {
        match bundle {
            Bundle::Global => self.scope is Instance,
            Bundle::Core => self.populated(),
            Bundle::Extension(c) => self.populated() && self.extensions().contains(c),
        }
    }

    /// The bundles that the table holds, in the order in which they are
    /// resolved: the global one, the core one, then the capabilities' in
    /// menu order.
    pub open spec fn bundles(self) -> Seq<Bundle> {
        let global = if self.scope is Instance {
            seq![Bundle::Global]
        } else {
            Seq::<Bundle>::empty()
        };
        if self.populated() {
            global + seq![Bundle::Core] + in_menu_order(self.extensions()).map_values(
                |c: Capability| Bundle::Extension(c),
            )
        } else {
            global
        }
    }

    /// What an attempt to populate the table answers.
    pub open spec fn load_result(self) -> Result<(), Error> {
        if self.shared {
            Err(Error::Misuse(Misuse::LoaderShared))
        } else if self.populated() {
            Err(Error::Misuse(Misuse::LoaderPopulated))
        } else {
            Ok(())
        }
    }

    /// The table after an attempt to populate it against `handle`: changed
    /// only where the attempt succeeds.
    pub open spec fn loaded(self, handle: u64) -> LoaderView {
        if self.load_result() is Ok {
            LoaderView { target: Some(handle), ..self }
        } else {
            self
        }
    }

    /// The table after it was handed to a further owner. Both owners hold
    /// this value.
    pub open spec fn shared_out(self) -> LoaderView {
        LoaderView { shared: true, ..self }
    }

    /// What asking the table for a bundle answers.
    pub open spec fn require_result(self, bundle: Bundle) -> Result<(), Error> {
        if self.resolves(bundle) {
            Ok(())
        } else if !self.populated() {
            Err(Error::Misuse(Misuse::LoaderUnpopulated))
        } else {
            Err(Error::Misuse(Misuse::CapabilityMissing))
        }
    }
}

/// The state that the loaders of both scopes keep.
#[derive(Debug, PartialEq, Eq)]
pub struct LoaderState {
    scope: Scope,
    capabilities: CapabilitySet,
    populated: bool,
    target: u64,
    shared: bool,
}

impl View for LoaderState {
    type V = LoaderView;

    closed spec fn view(&self) -> LoaderView {
        LoaderView {
            scope: self.scope,
            capabilities: self.capabilities@,
            target: if self.populated {
                Some(self.target)
            } else {
                None
            },
            shared: self.shared,
        }
    }
}

impl LoaderState {
    /// An unpopulated table with a single owner.
    pub fn new(scope: Scope, capabilities: CapabilitySet) -> (state: LoaderState)
        ensures
            state@ == (LoaderView {
                scope,
                capabilities: capabilities@,
                target: None,
                shared: false,
            }),
    {
        LoaderState { scope, capabilities, populated: false, target: 0, shared: false }
    }

    /// The scope of the table.
    pub fn scope(&self) -> (scope: Scope)
        ensures
            scope == self@.scope,
    {
        self.scope
    }

    /// The capabilities selected for the session.
    pub fn capabilities(&self) -> (capabilities: CapabilitySet)
        ensures
            capabilities@ == self@.capabilities,
    {
        self.capabilities
    }

    /// The handle against which the table was populated.
    pub fn target(&self) -> (target: Option<u64>)
        ensures
            target == self@.target,
    {
        if self.populated {
            Some(self.target)
        } else {
            None
        }
    }

    /// Whether the table has been handed to a second owner.
    pub fn is_shared(&self) -> (shared: bool)
        ensures
            shared == self@.shared,
    {
        self.shared
    }

    /// Populates the table against a live handle. Allowed once, and only
    /// while the table has a single owner.
    pub fn load(&mut self, handle: u64) -> (res: Result<(), Error>)
        ensures
            res == old(self)@.load_result(),
            final(self)@ == old(self)@.loaded(handle),
        no_unwind
    {
        if self.shared {
            Err(Error::Misuse(Misuse::LoaderShared))
        } else if self.populated {
            Err(Error::Misuse(Misuse::LoaderPopulated))
        } else {
            self.populated = true;
            self.target = handle;
            Ok(())
        }
    }

    /// Hands the table to a further owner. From then on neither owner can
    /// populate it.
    pub fn share(&mut self) -> (other: LoaderState)
        ensures
            final(self)@ == old(self)@.shared_out(),
            other@ == old(self)@.shared_out(),
        no_unwind
    {
        self.shared = true;
        LoaderState {
            scope: self.scope,
            capabilities: self.capabilities,
            populated: self.populated,
            target: self.target,
            shared: true,
        }
    }

    /// Whether the table holds a bundle.
    pub fn resolves(&self, bundle: Bundle) -> (held: bool)
        ensures
            held == self@.resolves(bundle),
    {
        match bundle {
            Bundle::Global => match self.scope {
                Scope::Instance => true,
                Scope::Device => false,
            },
            Bundle::Core => self.populated,
            Bundle::Extension(c) => self.populated && self.capabilities.contains(c)
                && c.is_resolved_at(self.scope),
        }
    }

    /// Asks the table for a bundle before an entry point of it is called.
    pub fn require(&self, bundle: Bundle) -> (res: Result<(), Error>)
        ensures
            res == self@.require_result(bundle),
    {
        if self.resolves(bundle) {
            Ok(())
        } else if !self.populated {
            Err(Error::Misuse(Misuse::LoaderUnpopulated))
        } else {
            Err(Error::Misuse(Misuse::CapabilityMissing))
        }
    }

    /// The bundles that the table holds, in the order in which the front
    /// end has to resolve them.
    pub fn bundles(&self) -> (list: Vec<Bundle>)
        ensures
            list@ == self@.bundles(),
    {
        let mut list: Vec<Bundle> = Vec::new();
        match self.scope {
            Scope::Instance => {
                list.push(Bundle::Global);
            },
            Scope::Device => {},
        }
        if self.populated {
            list.push(Bundle::Core);
            let extensions = self.capabilities.resolved_at(self.scope);
            assert(self.capabilities.resolved(self.scope) =~= self@.extensions());
            let ghost head = list@;
            let mut i: usize = 0;
            while i < extensions.len()
                invariant
                    0 <= i <= extensions@.len(),
                    list@ == head + extensions@.take(i as int).map_values(
                        |c: Capability| Bundle::Extension(c),
                    ),
                decreases extensions@.len() - i,
            {
                list.push(Bundle::Extension(extensions[i]));
                assert(extensions@.take(i + 1) =~= extensions@.take(i as int).push(
                    extensions@[i as int],
                ));
                assert(list@ =~= head + extensions@.take(i + 1).map_values(
                    |c: Capability| Bundle::Extension(c),
                ));
                i += 1;
            }
            assert(extensions@.take(i as int) =~= extensions@);
        }
        assert(list@ =~= self@.bundles());
        list
    }
}

/// The law of population before sharing: once a table has been handed to
/// a second owner, populating it is refused as misuse and changes nothing,
/// whether or not it had been populated before, and for either owner.
pub proof fn lemma_shared_loader_rejects_load(loader: LoaderView, first: u64, second: u64)
    ensures
        loader.loaded(first).shared_out().load_result() == Err::<(), Error>(
            Error::Misuse(Misuse::LoaderShared),
        ),
        loader.loaded(first).shared_out().loaded(second) == loader.loaded(first).shared_out(),
        loader.shared_out().load_result() == Err::<(), Error>(Error::Misuse(Misuse::LoaderShared)),
        loader.shared_out().loaded(second) == loader.shared_out(),
{
}

/// Population is single-shot: a table that was populated refuses to be
/// populated again, and keeps the handle it was populated for.
pub proof fn lemma_load_once(loader: LoaderView, first: u64, second: u64)
    requires
        loader.load_result() is Ok,
    ensures
        loader.loaded(first).target == Some(first),
        loader.loaded(first).load_result() == Err::<(), Error>(
            Error::Misuse(Misuse::LoaderPopulated),
        ),
        loader.loaded(first).loaded(second) == loader.loaded(first),
{
}

/// Sharing keeps what the table holds: every bundle that was resolved
/// stays resolved for both owners.
pub proof fn lemma_share_keeps_bundles(loader: LoaderView)
    ensures
        loader.shared_out().bundles() == loader.bundles(),
        forall|bundle: Bundle| loader.shared_out().resolves(bundle) == loader.resolves(bundle),
{
}

/// The core bundle of a populated table is resolved, and a capability's
/// bundle is resolved exactly if the capability is enabled and has entry
/// points at the table's scope. Before population neither is.
pub proof fn lemma_resolved_bundles(loader: LoaderView, handle: u64, c: Capability)
    requires
        loader.load_result() is Ok,
    ensures
        !loader.resolves(Bundle::Core),
        !loader.resolves(Bundle::Extension(c)),
        loader.loaded(handle).resolves(Bundle::Core),
        loader.loaded(handle).resolves(Bundle::Extension(c)) <==> loader.capabilities.contains(c)
            && c.resolved_at(loader.scope),
{
}

} // verus!
