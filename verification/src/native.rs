//! The plain values that cross the native boundary.
//!
//! The native layer answers every fallible call with a result code. Only
//! `SUCCESS` is success: every other code ends the operation at once. A
//! handle is carried as the integer that the native layer gave. A call
//! that destroys an object is handed out as a value, for the front end to
//! perform.

use vstd::prelude::*;
use crate::error::Error;

verus! {

/// The call succeeded.
pub const SUCCESS: i32 = 0;

/// The buffer handed to an enumeration was too small for what there is.
pub const INCOMPLETE: i32 = 5;

/// The native layer could not be initialised.
pub const ERROR_INITIALIZATION_FAILED: i32 = -3;

/// A requested layer is not present.
pub const ERROR_LAYER_NOT_PRESENT: i32 = -6;

/// A requested extension is not supported.
pub const ERROR_EXTENSION_NOT_PRESENT: i32 = -7;

/// A requested feature is not supported.
pub const ERROR_FEATURE_NOT_PRESENT: i32 = -8;

/// The driver does not fit this binding.
pub const ERROR_INCOMPATIBLE_DRIVER: i32 = -9;

/// A requested format is not supported.
pub const ERROR_FORMAT_NOT_SUPPORTED: i32 = -11;

/// The native boolean that is true.
pub const TRUE: u32 = 1;

/// The native boolean that is false.
pub const FALSE: u32 = 0;

/// A native boolean: zero is false, anything else is true.
pub type Bool32 = u32;

/// A size or an offset in device memory.
pub type DeviceSize = u64;

/// A mask of sample counts.
pub type SampleCountFlags = u32;

/// A width and a height.
#[derive(Debug, Clone, Copy, PartialEq, Eq, Structural)]
pub struct Extent2D {
    pub width: u32,
    pub height: u32,
}

/// A width, a height and a depth.
#[derive(Debug, Clone, Copy, PartialEq, Eq, Structural)]
pub struct Extent3D {
    pub width: u32,
    pub height: u32,
    pub depth: u32,
}

/// What a result code means for the operation that received it.
pub open spec fn checked(code: i32) -> Result<(), Error> {
    if code == SUCCESS {
        Ok(())
    } else {
        Err(Error::Native(code))
    }
}

/// Turns a result code into success or a native error.
pub fn check(code: i32) -> (res: Result<(), Error>)
    ensures
        res == checked(code),
{
    if code == SUCCESS {
        Ok(())
    } else {
        Err(Error::Native(code))
    }
}

/// The answer of a native call that creates an object: the result code and,
/// where the code is `SUCCESS`, the handle of what was created.
#[derive(Debug, Clone, Copy, PartialEq, Eq, Structural)]
pub struct Created {
    pub code: i32,
    pub handle: u64,
}

impl Created {
    /// What the answer means: the handle of what was created, the code of
    /// the failure, or, where the native layer claims success and names no
    /// handle, a failure to initialise.
    pub open spec fn outcome(self) -> Result<u64, Error> {
        if self.code != SUCCESS {
            Err(Error::Native(self.code))
        } else if self.handle == 0 {
            Err(Error::Native(ERROR_INITIALIZATION_FAILED))
        } else {
            Ok(self.handle)
        }
    }

    /// The handle of what was created, or the error that the answer stands
    /// for.
    pub fn handle(&self) -> (res: Result<u64, Error>)
        ensures
            res == self.outcome(),
    {
        if self.code != SUCCESS {
            Err(Error::Native(self.code))
        } else if self.handle == 0 {
            Err(Error::Native(ERROR_INITIALIZATION_FAILED))
        } else {
            Ok(self.handle)
        }
    }
}

/// A native call that destroys an object. No allocator is ever named.
#[derive(Debug, Clone, Copy, PartialEq, Eq, Structural)]
pub enum Teardown {
    /// Destroy a top-level handle.
    Instance { instance: u64 },
    /// Destroy a logical device, through its own device-scope loader.
    Device { device: u64 },
    /// Destroy a presentation surface of an instance.
    Surface { instance: u64, surface: u64 },
    /// Remove a debug callback of an instance.
    DebugCallback { instance: u64, callback: u64 },
}

} // verus!
