//! Presentation surfaces.
//!
//! A surface ties an instance to a window of the platform. The binding
//! does not manage the window: it is handed the platform's reference to it
//! and passes that on. A surface is owned by the instance that made it and
//! keeps a share of the instance-scope loader, through which it is
//! destroyed.

pub mod present_mode;
pub mod surface_capabilities;
pub mod surface_format;
pub mod surface_transform_flags;

pub use self::present_mode::PresentMode;
pub use self::surface_capabilities::{NativeSurfaceCapabilities, SurfaceCapabilities};
pub use self::surface_format::{NativeSurfaceFormat, SurfaceFormat};
pub use self::surface_transform_flags::SurfaceTransformFlags;

use vstd::prelude::*;
use crate::capability::Capability;
use crate::error::{Error, Misuse};
use crate::instance::loader::InstanceLoader;
use crate::instance::{completion, Instance, Owned};
use crate::loader::{Bundle, LoaderView};
use crate::native::{Created, Teardown};

verus! {

/// A colour space, as the number by which the native layer knows it.
pub type ColorSpace = u32;

/// A mask of the ways in which a surface can be blended with what lies
/// behind it.
pub type CompositeAlphaFlags = u32;

/// The platform's reference to a window, as plain addresses and numbers.
#[derive(Debug, Clone, Copy, PartialEq, Eq, Hash, Structural)]
pub enum WindowReference {
    /// An X11 window, by the connection to the display and the window's id.
    Xlib { display: u64, window: u64 },
    /// A Win32 window, by the module instance and the window handle.
    Win32 { hinstance: u64, hwnd: u64 },
}

impl WindowReference {
    /// The capability that surfaces on this platform belong to.
    pub open spec fn platform(self) -> Capability {
        match self {
            WindowReference::Xlib { .. } => Capability::KhrXlibSurface,
            WindowReference::Win32 { .. } => Capability::KhrWin32Surface,
        }
    }

    /// The capability that surfaces on this platform belong to.
    pub fn platform_capability(&self) -> (capability: Capability)
        ensures
            capability == self.platform(),
    {
        match self {
            WindowReference::Xlib { .. } => Capability::KhrXlibSurface,
            WindowReference::Win32 { .. } => Capability::KhrWin32Surface,
        }
    }
}

/// What the native surface-creation call is handed.
#[derive(Debug, Clone, Copy, PartialEq, Eq, Structural)]
pub struct SurfaceCreateRequest {
    /// The instance to create the surface for.
    pub instance: u64,
    /// The window to present to.
    pub window: WindowReference,
}

/// Why a surface cannot be prepared, if it cannot: the loader must hold the
/// bundle of surfaces, through which the surface is destroyed, and the
/// bundle of the platform, through which it is created.
pub open spec fn prepare_surface_failure(loader: LoaderView, window: WindowReference) -> Option<
    Error,
> {
    match loader.require_result(Bundle::Extension(Capability::KhrSurface)) {
        Err(e) => Some(e),
        Ok(_) => match loader.require_result(Bundle::Extension(window.platform())) {
            Err(e) => Some(e),
            Ok(_) => None,
        },
    }
}

/// A surface that is ready for its native creation call.
#[derive(Debug)]
pub struct PendingSurface {
    loader: InstanceLoader,
    request: SurfaceCreateRequest,
}

impl PendingSurface {
    /// The loader that the surface will keep.
    pub closed spec fn loader_view(self) -> LoaderView {
        self.loader@
    }

    /// The request for the native creation call.
    pub closed spec fn request_view(self) -> SurfaceCreateRequest {
        self.request
    }

    /// The request for the native creation call.
    pub fn request(&self) -> (request: &SurfaceCreateRequest)
        ensures
            *request == self.request_view(),
    {
        &self.request
    }
}

/// What a surface is, as a mathematical value.
pub struct SurfaceView {
    /// The native handle.
    pub surface: u64,
    /// The handle of the instance that owns the surface.
    pub instance: u64,
    /// The loader through which the surface is destroyed.
    pub loader: LoaderView,
}

/// A presentation surface.
#[derive(Debug)]
pub struct Surface {
    surface: u64,
    instance: u64,
    loader: InstanceLoader,
}

impl View for Surface {
    type V = SurfaceView;

    closed spec fn view(&self) -> SurfaceView {
        SurfaceView { surface: self.surface, instance: self.instance, loader: self.loader@ }
    }
}

impl Surface {
    /// The native handle.
    pub fn inner(&self) -> (handle: u64)
        ensures
            handle == self@.surface,
    {
        self.surface
    }

    /// The handle of the instance that owns the surface.
    pub fn instance(&self) -> (handle: u64)
        ensures
            handle == self@.instance,
    {
        self.instance
    }

    /// The loader through which the surface is destroyed.
    pub fn loader(&self) -> (loader: &InstanceLoader)
        ensures
            loader@ == self@.loader,
    {
        &self.loader
    }

    /// Destroys the surface: takes it off the record of the instance that
    /// owns it and gives the native call to make. Refused where the
    /// instance is not the owner, or no longer has the surface on record;
    /// then no call is to be made.
    pub fn destroy(self, parent: &mut Instance) -> (res: Result<Teardown, Error>)
        ensures
            old(parent)@.handle == self@.instance ==> res == old(parent)@.release_result(
                Owned::Surface(self@.surface),
            ) && final(parent)@ == old(parent)@.released(Owned::Surface(self@.surface)),
            old(parent)@.handle != self@.instance ==> res == Err::<Teardown, Error>(
                Error::Misuse(Misuse::NotOwned),
            ) && final(parent)@ == old(parent)@,
    {
        if parent.inner() == self.instance {
            parent.release(Owned::Surface(self.surface))
        } else {
            Err(Error::Misuse(Misuse::NotOwned))
        }
    }
}

impl Instance {
    /// Settles what can be settled before the native surface-creation
    /// call: the loader, which the surface will keep, must hold the bundle
    /// of surfaces and the bundle of the window's platform.
    pub fn prepare_surface(&self, loader: InstanceLoader, window: WindowReference) -> (res: Result<
        PendingSurface,
        Error,
    >)
        ensures
            match res {
                Ok(pending) => {
                    &&& prepare_surface_failure(loader@, window) is None
                    &&& pending.loader_view() == loader@
                    &&& pending.request_view() == (SurfaceCreateRequest {
                        instance: self@.handle,
                        window,
                    })
                },
                Err(e) => prepare_surface_failure(loader@, window) == Some(e),
            },
    {
        match loader.require(Bundle::Extension(Capability::KhrSurface)) {
            Ok(()) => {},
            Err(e) => {
                return Err(e);
            },
        }
        match loader.require(Bundle::Extension(window.platform_capability())) {
            Ok(()) => {},
            Err(e) => {
                return Err(e);
            },
        }
        Ok(PendingSurface { loader, request: SurfaceCreateRequest { instance: self.inner(), window } })
    }

    /// Completes the creation of a surface from the answer of the native
    /// creation call. A surface is completed only at the instance that
    /// prepared it: any other instance refuses it as not owned. A call that
    /// failed gives its code as a native error. Either way the instance
    /// stays as it was. On success the instance takes the surface on record.
    pub fn create_surface(&mut self, pending: PendingSurface, reply: Created) -> (res: Result<
        Surface,
        Error,
    >)
        ensures
            match res {
                Ok(surface) => {
                    &&& completion(pending.request_view().instance, old(self)@.handle, reply)
                        == Ok::<u64, Error>(surface@.surface)
                    &&& surface@.instance == old(self)@.handle
                    &&& surface@.loader == pending.loader_view()
                    &&& final(self)@ == old(self)@.adopted(Owned::Surface(surface@.surface))
                },
                Err(e) => completion(pending.request_view().instance, old(self)@.handle, reply)
                    == Err::<u64, Error>(e) && final(self)@ == old(self)@,
            },
    {
        let handle = match self.completes(pending.request.instance, reply) {
            Ok(handle) => handle,
            Err(e) => {
                return Err(e);
            },
        };
        let PendingSurface { loader, request: _ } = pending;
        self.adopt(Owned::Surface(handle));
        Ok(Surface { surface: handle, instance: self.inner(), loader })
    }
}

} // verus!
