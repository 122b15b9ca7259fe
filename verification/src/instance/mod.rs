//! The top-level handle and what hangs below it.
//!
//! The top-level handle is the root of the ownership graph. It is made in
//! two steps around one native call. `Instance::prepare` marshals the
//! configuration and settles everything that can fail without the native
//! layer; only then is there a request to hand to the native creation
//! call. `Instance::new` takes the answer, and on success populates the
//! instance-scope loader before it returns.
//!
//! What an instance creates and owns (logical devices, surfaces, debug
//! callbacks) it keeps on record, so that each is destroyed once and before
//! the instance itself.

pub mod debug;
pub mod device;
pub mod loader;
pub mod physical_device;
pub mod surface;

pub use self::debug::DebugCallback;
pub use self::device::Device;
pub use self::loader::InstanceLoader;
use self::loader::guarded_enumeration;
pub use self::physical_device::{
    ExtensionProperties, PhysicalDevice, PhysicalDeviceFeatures, PhysicalDeviceProperties,
    PhysicalDeviceSparseProperties, PhysicalDeviceType, QueueFamilyProperties, QueueFlagBits,
    QueueFlags,
};
pub use self::surface::Surface;

use vstd::prelude::*;
use vstd::utf8::*;
use crate::capability::{instance_extension_names, Capability};
use crate::enumerate::{Counted, Filled};
use crate::error::{EncodingError, Error, Misuse};
use crate::loader::{Bundle, LoaderView};
use crate::native::{Created, Teardown, SUCCESS};
use crate::text::{
    byte_strings, bytes_of, c_string, first_failure, first_nul, nul_free, terminated, texts_of,
    to_c_string, to_c_strings,
};
use crate::version::Version;

verus! {

/// What an application says of itself.
#[derive(Debug, Clone, PartialEq, Eq)]
pub struct ApplicationInfo {
    pub application_name: String,
    pub application_version: Version,
    pub engine_name: String,
    pub engine_version: Version,
}

/// The configuration of a top-level handle.
#[derive(Debug, Clone, PartialEq, Eq)]
pub struct InstanceCreateInfo {
    pub application_info: ApplicationInfo,
    pub enabled_layer_count: u32,
    pub enabled_layer_names: Vec<String>,
}

/// A validation check that can be switched off at instance creation.
#[derive(Debug, Clone, Copy, PartialEq, Eq, Hash, Structural)]
pub enum ValidationCheck {
    ValidationCheckAll,
}

impl ValidationCheck {
    /// The number by which the native layer knows this check.
    pub fn as_raw(self) -> (raw: u32)
        ensures
            raw == 0,
    {
        match self {
            ValidationCheck::ValidationCheckAll => 0,
        }
    }
}

/// The version of the native API that the binding asks for.
pub open spec fn requested_api_version() -> Version {
    Version(1, 0, 3)
}

/// What the native creation call is handed: every text as an owned buffer
/// that ends in a zero byte, every version packed.
#[derive(Debug, Clone, PartialEq, Eq)]
pub struct InstanceCreateRequest {
    pub application_name: Vec<u8>,
    pub application_version: u32,
    pub engine_name: Vec<u8>,
    pub engine_version: u32,
    pub api_version: u32,
    pub enabled_layer_names: Vec<Vec<u8>>,
    pub enabled_extension_names: Vec<Vec<u8>>,
    /// Handed on only where it is not empty.
    pub disabled_validation_checks: Vec<ValidationCheck>,
}

/// The names of the enabled capabilities, as the bytes that are marshalled
/// for instance creation, in menu order.
pub open spec fn extension_texts(capabilities: Set<Capability>) -> Seq<Seq<u8>> {
    bytes_of(instance_extension_names(capabilities))
}

impl InstanceCreateInfo {
    /// The names of the layers, as the bytes that are marshalled.
    pub open spec fn layer_texts(self) -> Seq<Seq<u8>> {
        bytes_of(texts_of(self.enabled_layer_names@))
    }

    /// The error of the first text that cannot be marshalled. The texts
    /// are taken in this order: the application's name, the engine's name,
    /// the names of the layers. The names of the capabilities come from the
    /// menu and never fail.
    pub open spec fn marshal_failure(self) -> Option<EncodingError> {
        match c_string(encode_utf8(self.application_info.application_name@)) {
            Err(e) => Some(e),
            Ok(_) => match c_string(encode_utf8(self.application_info.engine_name@)) {
                Err(e) => Some(e),
                Ok(_) => first_failure(self.layer_texts(), 0),
            },
        }
    }
}

impl InstanceCreateRequest {
    /// The request holds the configuration in native form.
    pub open spec fn marshals(
        self,
        info: InstanceCreateInfo,
        capabilities: Set<Capability>,
        checks: Seq<ValidationCheck>,
    ) -> bool {
        &&& byte_strings(self.enabled_extension_names@) == terminated(extension_texts(capabilities))
        &&& self.application_name@ == encode_utf8(info.application_info.application_name@).push(
            0u8,
        )
        &&& self.application_version == info.application_info.application_version.packed()
        &&& self.engine_name@ == encode_utf8(info.application_info.engine_name@).push(0u8)
        &&& self.engine_version == info.application_info.engine_version.packed()
        &&& self.api_version == requested_api_version().packed()
        &&& byte_strings(self.enabled_layer_names@) == terminated(info.layer_texts())
        &&& self.disabled_validation_checks@ == checks
    }
}

/// Why an instance cannot be prepared, if it cannot: a text that cannot be
/// marshalled, then validation checks named without the capability for
/// them, then a loader that can no longer be populated.
pub open spec fn prepare_failure(
    loader: LoaderView,
    info: InstanceCreateInfo,
    checks: Seq<ValidationCheck>,
) -> Option<Error> {
    match info.marshal_failure() {
        Some(e) => Some(Error::Encoding(e)),
        None => if checks.len() > 0 && !loader.capabilities.contains(
            Capability::ExtValidationFlags,
        ) {
            Some(Error::Misuse(Misuse::CapabilityMissing))
        } else {
            match loader.load_result() {
                Err(e) => Some(e),
                Ok(_) => None,
            }
        },
    }
}

/// An instance that is ready for its native creation call: the request is
/// marshalled, and the loader is known to accept population.
#[derive(Debug)]
pub struct PendingInstance {
    loader: InstanceLoader,
    request: InstanceCreateRequest,
}

impl PendingInstance {
    #[verifier::type_invariant]
    spec fn ready(self) -> bool {
        self.loader@.load_result() is Ok
    }

    /// The loader that waits to be populated.
    pub closed spec fn loader_view(self) -> LoaderView {
        self.loader@
    }

    /// The request for the native creation call.
    pub closed spec fn request_view(self) -> InstanceCreateRequest {
        self.request
    }

    /// The request for the native creation call.
    pub fn request(&self) -> (request: &InstanceCreateRequest)
        ensures
            *request == self.request_view(),
    {
        &self.request
    }
}

/// A node that an instance owns.
#[derive(Debug, Clone, Copy, PartialEq, Eq, Hash, Structural)]
pub enum Owned {
    /// A logical device.
    Device(u64),
    /// A presentation surface.
    Surface(u64),
    /// A debug callback.
    DebugCallback(u64),
}

impl Owned {
    /// The native call that destroys this node of the given instance.
    pub open spec fn teardown(self, instance: u64) -> Teardown {
        match self {
            Owned::Device(device) => Teardown::Device { device },
            Owned::Surface(surface) => Teardown::Surface { instance, surface },
            Owned::DebugCallback(callback) => Teardown::DebugCallback { instance, callback },
        }
    }

    /// The native call that destroys this node of the given instance.
    pub fn teardown_call(self, instance: u64) -> (call: Teardown)
        ensures
            call == self.teardown(instance),
    {
        match self {
            Owned::Device(device) => Teardown::Device { device },
            Owned::Surface(surface) => Teardown::Surface { instance, surface },
            Owned::DebugCallback(callback) => Teardown::DebugCallback { instance, callback },
        }
    }
}

/// The place of the last occurrence of a node in a list, or -1.
pub open spec fn last_index_of(nodes: Seq<Owned>, node: Owned) -> int
    decreases nodes.len(),
{
    if nodes.len() == 0 {
        -1
    } else if nodes.last() == node {
        nodes.len() - 1
    } else {
        last_index_of(nodes.drop_last(), node)
    }
}

/// What completing a node at an instance gives: a node is completed only
/// at the instance that it was prepared for, so that it keeps the handle of
/// its true parent. At any other instance it is refused as not owned,
/// whatever the native call answered. At its own instance the answer of the
/// native call decides: the new handle, or the error that the answer
/// stands for.
pub open spec fn completion(prepared_for: u64, parent: u64, reply: Created) -> Result<u64, Error> {
    if prepared_for != parent {
        Err(Error::Misuse(Misuse::NotOwned))
    } else {
        reply.outcome()
    }
}

/// What an instance is, as a mathematical value.
pub struct InstanceView {
    /// The native handle.
    pub handle: u64,
    /// The nodes that the instance owns and that are alive, oldest first.
    pub owned: Seq<Owned>,
}

impl InstanceView {
    /// The instance owns the node.
    pub open spec fn owns(self, node: Owned) -> bool {
        self.owned.contains(node)
    }

    /// The instance after it took a new node into its ownership.
    pub open spec fn adopted(self, node: Owned) -> InstanceView {
        InstanceView { owned: self.owned.push(node), ..self }
    }

    /// What releasing a node answers: the call that destroys it, or that it
    /// is not owned here.
    pub open spec fn release_result(self, node: Owned) -> Result<Teardown, Error> {
        if self.owns(node) {
            Ok(node.teardown(self.handle))
        } else {
            Err(Error::Misuse(Misuse::NotOwned))
        }
    }

    /// The instance after a node was released: where the node is owned, its
    /// latest record is gone; else nothing has changed.
    pub open spec fn released(self, node: Owned) -> InstanceView {
        if self.owns(node) {
            InstanceView { owned: self.owned.remove(last_index_of(self.owned, node)), ..self }
        } else {
            self
        }
    }

    /// The calls that take the instance down, in order: one for every node
    /// that is still owned, youngest first, and last the call that destroys
    /// the instance itself.
    pub open spec fn teardown_plan(self) -> Seq<Teardown> {
        Seq::new(
            self.owned.len() + 1,
            |k: int|
                if k < self.owned.len() {
                    self.owned[self.owned.len() - 1 - k].teardown(self.handle)
                } else {
                    Teardown::Instance { instance: self.handle }
                },
        )
    }
}

/// The top-level handle: the root of one session with the native API.
#[derive(Debug)]
pub struct Instance {
    handle: u64,
    owned: Vec<Owned>,
}

impl View for Instance {
    type V = InstanceView;

    closed spec fn view(&self) -> InstanceView {
        InstanceView { handle: self.handle, owned: self.owned@ }
    }
}

impl Instance {
    /// Settles what can be settled before the native creation call.
    ///
    /// Every text is marshalled into an owned buffer that ends in a zero
    /// byte; a text that holds a zero byte itself fails the preparation
    /// with an encoding error, so that no native call is made for it. Then
    /// the loader is checked: it must still accept population. On success
    /// the request for the native creation call is ready, and the loader is
    /// kept for `Instance::new`.
    pub fn prepare(
        loader: InstanceLoader,
        create_info: &InstanceCreateInfo,
        disabled_validation_checks: Vec<ValidationCheck>,
    ) -> (res: Result<PendingInstance, Error>)
        ensures
            match res {
                Ok(pending) => {
                    &&& prepare_failure(loader@, *create_info, disabled_validation_checks@) is None
                    &&& pending.loader_view() == loader@
                    &&& pending.request_view().marshals(
                        *create_info,
                        loader@.capabilities,
                        disabled_validation_checks@,
                    )
                },
                Err(e) => prepare_failure(loader@, *create_info, disabled_validation_checks@)
                    == Some(e),
            },
    {
        let capabilities = loader.capabilities();
        let enabled_extension_names = capabilities.marshalled_extension_names();
        let application_name = match to_c_string(
            create_info.application_info.application_name.as_str().as_bytes(),
        ) {
            Ok(buffer) => buffer,
            Err(e) => {
                return Err(Error::Encoding(e));
            },
        };
        let engine_name = match to_c_string(
            create_info.application_info.engine_name.as_str().as_bytes(),
        ) {
            Ok(buffer) => buffer,
            Err(e) => {
                return Err(Error::Encoding(e));
            },
        };
        let enabled_layer_names = match to_c_strings(&create_info.enabled_layer_names) {
            Ok(list) => list,
            Err(e) => {
                return Err(Error::Encoding(e));
            },
        };
        if disabled_validation_checks.len() > 0 && !capabilities.contains(
            Capability::ExtValidationFlags,
        ) {
            return Err(Error::Misuse(Misuse::CapabilityMissing));
        }
        if loader.is_shared() {
            return Err(Error::Misuse(Misuse::LoaderShared));
        }
        if loader.is_populated() {
            return Err(Error::Misuse(Misuse::LoaderPopulated));
        }
        let request = InstanceCreateRequest {
            application_name,
            application_version: create_info.application_info.application_version.to_vk(),
            engine_name,
            engine_version: create_info.application_info.engine_version.to_vk(),
            api_version: Version(1, 0, 3).to_vk(),
            enabled_layer_names,
            enabled_extension_names,
            disabled_validation_checks,
        };
        Ok(PendingInstance { loader, request })
    }

    /// Completes the construction from the answer of the native creation
    /// call.
    ///
    /// A call that failed gives its code as a native error. On success the
    /// instance-scope loader is populated against the new handle before the
    /// instance is returned, and comes back with it. The new instance owns
    /// nothing yet.
    pub fn new(pending: PendingInstance, reply: Created) -> (res: Result<
        (Instance, InstanceLoader),
        Error,
    >)
        ensures
            match res {
                Ok((instance, loader)) => {
                    &&& reply.outcome() == Ok::<u64, Error>(instance@.handle)
                    &&& instance@.owned == Seq::<Owned>::empty()
                    &&& loader@ == pending.loader_view().loaded(instance@.handle)
                    &&& loader@.target == Some(instance@.handle)
                    &&& !loader@.shared
                },
                Err(e) => reply.outcome() == Err::<u64, Error>(e),
            },
    {
        proof {
            use_type_invariant(&pending);
        }
        let handle = match reply.handle() {
            Ok(handle) => handle,
            Err(e) => {
                return Err(e);
            },
        };
        let PendingInstance { mut loader, request: _ } = pending;
        match loader.load(handle) {
            Ok(()) => Ok((Instance { handle, owned: Vec::new() }, loader)),
            Err(e) => Err(e),
        }
    }

    /// The native handle.
    pub fn inner(&self) -> (handle: u64)
        ensures
            handle == self@.handle,
    {
        self.handle
    }

    /// The adapters that the instance reports, from the answers to the two
    /// calls of the enumeration. Refused as misuse where the loader is not
    /// populated.
    pub fn enumerate_physical_devices(
        &self,
        loader: &InstanceLoader,
        first: Counted,
        second: Filled<u64>,
    ) -> (res: Result<Vec<PhysicalDevice>, Error>)
        ensures
            guarded_enumeration::<PhysicalDevice>(loader@, Bundle::Core, first, second, res),
    {
        loader.enumerate::<PhysicalDevice>(Bundle::Core, first, second)
    }

    /// The nodes that the instance owns and that are alive, oldest first.
    pub fn owned(&self) -> (nodes: &Vec<Owned>)
        ensures
            nodes@ == self@.owned,
    {
        &self.owned
    }

    /// Decides what the answer to a native creation call means for a node
    /// that was prepared for the instance with the handle `prepared_for`.
    pub(crate) fn completes(&self, prepared_for: u64, reply: Created) -> (res: Result<u64, Error>)
        ensures
            res == completion(prepared_for, self@.handle, reply),
    {
        if prepared_for != self.handle {
            Err(Error::Misuse(Misuse::NotOwned))
        } else {
            reply.handle()
        }
    }

    /// Takes a node that was just created into the ownership of the
    /// instance.
    pub(crate) fn adopt(&mut self, node: Owned)
        ensures
            final(self)@ == old(self)@.adopted(node),
    {
        self.owned.push(node);
    }

    /// Releases a node that the instance owns, and gives the native call
    /// that destroys it. A node that is not owned here is refused, and no
    /// call is to be made for it: so no node is destroyed twice.
    pub fn release(&mut self, node: Owned) -> (res: Result<Teardown, Error>)
        ensures
            res == old(self)@.release_result(node),
            final(self)@ == old(self)@.released(node),
    {
        let mut i: usize = self.owned.len();
        assert(self.owned@.take(i as int) =~= self.owned@);
        while i > 0
            invariant
                0 <= i <= self.owned@.len(),
                self.owned@ == old(self).owned@,
                self.handle == old(self).handle,
                last_index_of(self.owned@, node) == last_index_of(self.owned@.take(i as int), node),
                self.owned@.contains(node) <==> self.owned@.take(i as int).contains(node),
            decreases i,
        {
            let ghost prefix = self.owned@.take(i as int);
            assert(prefix.last() == self.owned@[i - 1]);
            assert(prefix.drop_last() =~= self.owned@.take(i - 1));
            i -= 1;
            if self.owned[i] == node {
                assert(prefix.contains(node)) by {
                    assert(prefix[i as int] == node);
                }
                self.owned.remove(i);
                return Ok(node.teardown_call(self.handle));
            }
            proof {
                if prefix.contains(node) {
                    let k = choose|k: int| 0 <= k < prefix.len() && prefix[k] == node;
                    assert(self.owned@.take(i as int)[k] == node);
                }
                if self.owned@.take(i as int).contains(node) {
                    let k = choose|k: int|
                        0 <= k < self.owned@.take(i as int).len() && self.owned@.take(i as int)[k]
                            == node;
                    assert(prefix[k] == node);
                }
            }
        }
        assert(!self.owned@.take(0).contains(node));
        Err(Error::Misuse(Misuse::NotOwned))
    }

    /// Takes the instance down. The plan holds one call for every node
    /// that is still owned, youngest first, and ends with the one call that
    /// destroys the instance itself; that call is made whatever else holds.
    pub fn destroy(self) -> (plan: Vec<Teardown>)
        ensures
            plan@ == self@.teardown_plan(),
    {
        let mut plan: Vec<Teardown> = Vec::new();
        let mut i: usize = self.owned.len();
        while i > 0
            invariant
                0 <= i <= self.owned@.len(),
                plan@.len() == self.owned@.len() - i,
                forall|k: int|
                    0 <= k < plan@.len() ==> plan@[k] == self.owned@[self.owned@.len() - 1
                        - k].teardown(self.handle),
            decreases i,
        {
            i -= 1;
            plan.push(self.owned[i].teardown_call(self.handle));
        }
        plan.push(Teardown::Instance { instance: self.handle });
        assert(plan@ =~= self@.teardown_plan());
        plan
    }
}

/// The law of the doomed construction: where the application's name holds
/// a zero byte, the instance cannot be prepared, whatever else holds. The
/// failure is the encoding error that names the place of the first zero
/// byte, and there is no request to hand to the native creation call.
pub proof fn lemma_nul_in_application_name(
    loader: LoaderView,
    info: InstanceCreateInfo,
    checks: Seq<ValidationCheck>,
)
    requires
        !nul_free(encode_utf8(info.application_info.application_name@)),
    ensures
        prepare_failure(loader, info, checks) == Some(
            Error::Encoding(
                EncodingError::InteriorNul {
                    position: first_nul(
                        encode_utf8(info.application_info.application_name@),
                        0,
                    ) as usize,
                },
            ),
        ),
{
}

/// The law of the refused creation: where the native creation call answers
/// with a code other than success, as a driver does that lacks a requested
/// capability or layer, the construction fails with that code as a native
/// error.
pub proof fn lemma_refused_creation(reply: Created)
    requires
        reply.code != SUCCESS,
    ensures
        reply.outcome() == Err::<u64, Error>(Error::Native(reply.code)),
{
}

/// The law of teardown: the plan destroys the instance itself exactly
/// once, as its last call, and before that every owned node exactly as
/// often as it is on record, a younger node before an older one.
pub proof fn lemma_teardown_plan(instance: InstanceView)
    ensures
        instance.teardown_plan().len() == instance.owned.len() + 1,
        instance.teardown_plan().last() == (Teardown::Instance { instance: instance.handle }),
        forall|k: int|
            0 <= k < instance.owned.len() ==> !(#[trigger] instance.teardown_plan()[k] is Instance),
        forall|i: int|
            0 <= i < instance.owned.len() ==> instance.teardown_plan()[instance.owned.len() - 1
                - i] == (#[trigger] instance.owned[i]).teardown(instance.handle),
{
}

/// The law of the order of destruction: where an instance owns one
/// logical device, destroying the device gives the device-destroy call and
/// nothing else, and destroying the instance afterwards gives the
/// instance-destroy call and nothing else. So each of the two is destroyed
/// exactly once, the device first.
pub proof fn lemma_device_then_instance(instance: InstanceView, device: u64)
    requires
        instance.owned == seq![Owned::Device(device)],
    ensures
        instance.release_result(Owned::Device(device)) == Ok::<Teardown, Error>(
            Teardown::Device { device },
        ),
        instance.released(Owned::Device(device)).teardown_plan() == seq![
            Teardown::Instance { instance: instance.handle },
        ],
        instance.released(Owned::Device(device)).release_result(Owned::Device(device)) == Err::<
            Teardown,
            Error,
        >(Error::Misuse(Misuse::NotOwned)),
        instance.teardown_plan() == seq![
            Teardown::Device { device },
            Teardown::Instance { instance: instance.handle },
        ],
{
    let node = Owned::Device(device);
    assert(instance.owned[0] == node);
    assert(instance.owned.last() == node);
    assert(last_index_of(instance.owned, node) == 0);
    let after = instance.released(node);
    assert(after.owned =~= Seq::<Owned>::empty());
    assert(after.teardown_plan() =~= seq![Teardown::Instance { instance: instance.handle }]);
    assert(instance.teardown_plan() =~= seq![
        Teardown::Device { device },
        Teardown::Instance { instance: instance.handle },
    ]);
}

/// Releasing takes exactly one record away: the list of owned nodes gets
/// shorter by one, the released node is on record once less, and every
/// other node as often as before.
pub proof fn lemma_release_removes_one(instance: InstanceView, node: Owned)
    requires
        instance.owns(node),
    ensures
        0 <= last_index_of(instance.owned, node) < instance.owned.len(),
        instance.owned[last_index_of(instance.owned, node)] == node,
        instance.released(node).owned.len() == instance.owned.len() - 1,
    decreases instance.owned.len(),
{
    lemma_last_index_of(instance.owned, node);
}

/// Where a list holds a node, `last_index_of` finds it, and finds its last
/// occurrence.
pub proof fn lemma_last_index_of(nodes: Seq<Owned>, node: Owned)
    ensures
        nodes.contains(node) ==> 0 <= last_index_of(nodes, node) < nodes.len() && nodes[last_index_of(
            nodes,
            node,
        )] == node,
        !nodes.contains(node) ==> last_index_of(nodes, node) == -1,
        forall|k: int| last_index_of(nodes, node) < k < nodes.len() ==> nodes[k] != node,
    decreases nodes.len(),
{
    if nodes.len() > 0 {
        let shorter = nodes.drop_last();
        lemma_last_index_of(shorter, node);
        if nodes.last() != node {
            if nodes.contains(node) {
                let k = choose|k: int| 0 <= k < nodes.len() && nodes[k] == node;
                assert(shorter[k] == node);
            }
            if shorter.contains(node) {
                let k = choose|k: int| 0 <= k < shorter.len() && shorter[k] == node;
                assert(nodes[k] == node);
            }
            assert forall|k: int| last_index_of(nodes, node) < k < nodes.len() implies nodes[k]
                != node by {
                if k < shorter.len() {
                    assert(shorter[k] == nodes[k]);
                }
            }
        } else {
            assert(nodes[nodes.len() - 1] == node);
        }
    }
}

} // verus!
