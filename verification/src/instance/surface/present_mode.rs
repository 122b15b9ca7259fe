//! The ways of presenting to a surface.

use vstd::prelude::*;
use vstd::string::*;
use crate::enumerate::FromNative;
use crate::error::Error;
use crate::text::{decimal, push_decimal};

verus! {

/// A way of presenting images to a surface.
#[derive(Debug, Copy, Clone, PartialEq, Eq, Hash, Structural)]
pub enum PresentMode {
    Immediate,
    Mailbox,
    Fifo,
    FifoRelaxed,
    SharedDemandRefresh,
    SharedContinuousRefresh,
}

impl PresentMode {
    /// The number by which the native layer knows this mode.
    pub open spec fn number(self) -> u32 {
        match self {
            PresentMode::Immediate => 0,
            PresentMode::Mailbox => 1,
            PresentMode::Fifo => 2,
            PresentMode::FifoRelaxed => 3,
            PresentMode::SharedDemandRefresh => 1000111000,
            PresentMode::SharedContinuousRefresh => 1000111001,
        }
    }

    /// Some mode has this number.
    pub open spec fn is_known(raw: u32) -> bool {
        raw <= 3 || raw == 1000111000 || raw == 1000111001
    }

    /// The number by which the native layer knows this mode.
    pub fn as_raw(self) -> (raw: u32)
        ensures
            raw == self.number(),
            PresentMode::is_known(raw),
    {
        match self {
            PresentMode::Immediate => 0,
            PresentMode::Mailbox => 1,
            PresentMode::Fifo => 2,
            PresentMode::FifoRelaxed => 3,
            PresentMode::SharedDemandRefresh => 1000111000,
            PresentMode::SharedContinuousRefresh => 1000111001,
        }
    }

    /// The mode with this number, if there is one.
    pub fn from_raw(raw: u32) -> (mode: Option<PresentMode>)
        ensures
            PresentMode::is_known(raw) ==> (mode matches Some(m) && m.number() == raw),
            !PresentMode::is_known(raw) ==> mode is None,
    {
        match raw {
            0 => Some(PresentMode::Immediate),
            1 => Some(PresentMode::Mailbox),
            2 => Some(PresentMode::Fifo),
            3 => Some(PresentMode::FifoRelaxed),
            1000111000 => Some(PresentMode::SharedDemandRefresh),
            1000111001 => Some(PresentMode::SharedContinuousRefresh),
            _ => None,
        }
    }
}

/// `e` is the diagnostic for a number that names no present mode.
pub open spec fn unknown_present_mode(raw: u32, e: Error) -> bool {
    e matches Error::General(text) && text@ == "present mode is not known: "@ + decimal(raw as nat)
}

impl FromNative for PresentMode {
    type Native = u32;

    open spec fn converts(raw: u32, out: Result<Self, Error>) -> bool {
        match out {
            Ok(mode) => mode.number() == raw,
            Err(e) => !PresentMode::is_known(raw) && unknown_present_mode(raw, e),
        }
    }

    fn from_native(raw: &u32) -> (out: Result<Self, Error>) {
        match PresentMode::from_raw(*raw) {
            Some(mode) => Ok(mode),
            None => {
                let mut text = String::from_str("present mode is not known: ");
                push_decimal(&mut text, *raw as u64);
                Err(Error::General(text))
            },
        }
    }
}

impl Default for PresentMode {
    fn default() -> (mode: PresentMode)
        ensures
            mode == PresentMode::Immediate,
    {
        PresentMode::Immediate
    }
}

} // verus!
