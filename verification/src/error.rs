//! The error taxonomy of the binding layer.
//!
//! Every failure is one of four kinds: the native layer refused a call, a
//! text could not be carried across the native boundary, the binding was
//! used in an order that it does not allow, or a free-form diagnostic.

use vstd::prelude::*;
use vstd::string::*;
use crate::text::{decimal, push_decimal, push_signed_decimal, signed_decimal};

verus! {

/// Why a text could not be converted.
#[derive(Debug, Clone, Copy, PartialEq, Eq, Structural)]
pub enum EncodingError {
    /// The text holds a zero byte, which would end the native string early.
    /// `position` is the offset of the first such byte.
    InteriorNul { position: usize },
    /// The bytes handed back by the native layer are not UTF-8. The first
    /// `valid_up_to` bytes are; no longer prefix is.
    InvalidUtf8 { valid_up_to: usize },
}

/// How the binding was used out of order.
#[derive(Debug, Clone, Copy, PartialEq, Eq, Structural)]
pub enum Misuse {
    /// A loader was to be populated after it had been handed to a second
    /// owner.
    LoaderShared,
    /// A loader was to be populated a second time.
    LoaderPopulated,
    /// An entry point was asked of a loader that was never populated.
    LoaderUnpopulated,
    /// An entry point was asked of a loader that does not hold the
    /// capability it belongs to.
    CapabilityMissing,
    /// A handle was presented to an owner that does not own it.
    NotOwned,
}

/// A failure of the binding layer.
#[derive(Debug, Clone, PartialEq, Eq)]
pub enum Error {
    /// A free-form diagnostic.
    General(String),
    /// A text could not be converted to or from its native form.
    Encoding(EncodingError),
    /// The native layer answered a call with this result code.
    Native(i32),
    /// The binding was used out of order.
    Misuse(Misuse),
}

impl Misuse {
    /// The wording of this misuse.
    pub open spec fn wording(self) -> Seq<char> {
        match self {
            Misuse::LoaderShared => "loader was shared before it was populated"@,
            Misuse::LoaderPopulated => "loader was populated before"@,
            Misuse::LoaderUnpopulated => "loader was not populated"@,
            Misuse::CapabilityMissing => "capability is not enabled"@,
            Misuse::NotOwned => "handle is not owned here"@,
        }
    }

    /// A short text that says what went wrong.
    pub fn description(&self) -> (text: &'static str)
        ensures
            text@ == self.wording(),
    {
        match self {
            Misuse::LoaderShared => "loader was shared before it was populated",
            Misuse::LoaderPopulated => "loader was populated before",
            Misuse::LoaderUnpopulated => "loader was not populated",
            Misuse::CapabilityMissing => "capability is not enabled",
            Misuse::NotOwned => "handle is not owned here",
        }
    }
}

impl Error {
    /// The name of the kind of this error; empty for a free-form diagnostic.
    pub open spec fn kind_name(self) -> Seq<char> {
        match self {
            Error::General(_) => ""@,
            Error::Encoding(EncodingError::InteriorNul { .. }) => "Nul Error"@,
            Error::Encoding(EncodingError::InvalidUtf8 { .. }) => "UTF-8 Error"@,
            Error::Native(_) => "Vulkan Error"@,
            Error::Misuse(_) => "Misuse"@,
        }
    }

    /// What stands behind the kind's name in the message of this error.
    pub open spec fn detail(self) -> Seq<char> {
        match self {
            Error::General(text) => text@,
            Error::Encoding(EncodingError::InteriorNul { position }) =>
                "nul byte found in provided data at position: "@ + decimal(position as nat),
            Error::Encoding(EncodingError::InvalidUtf8 { valid_up_to }) =>
                "invalid utf-8 sequence from index "@ + decimal(valid_up_to as nat),
            Error::Native(code) => signed_decimal(code as int),
            Error::Misuse(misuse) => misuse.wording(),
        }
    }

    /// The message of this error: the diagnostic itself, or the kind's name,
    /// a colon and the detail.
    pub open spec fn message_text(self) -> Seq<char> {
        match self {
            Error::General(text) => text@,
            _ => self.kind_name() + ": "@ + self.detail(),
        }
    }

    /// A free-form diagnostic with the given text.
    pub fn general(text: &str) -> (error: Error)
        ensures
            error matches Error::General(held) && held@ == text@,
    {
        Error::General(String::from_str(text))
    }

    /// The name of the kind of this error.
    pub fn description(&self) -> (text: &'static str)
        ensures
            text@ == self.kind_name(),
    {
        match self {
            Error::General(_) => "",
            Error::Encoding(EncodingError::InteriorNul { .. }) => "Nul Error",
            Error::Encoding(EncodingError::InvalidUtf8 { .. }) => "UTF-8 Error",
            Error::Native(_) => "Vulkan Error",
            Error::Misuse(_) => "Misuse",
        }
    }

    /// The conversion failure behind this error, if that is what it is.
    pub fn cause(&self) -> (cause: Option<EncodingError>)
        ensures
            cause == (match *self {
                Error::Encoding(e) => Some(e),
                _ => None::<EncodingError>,
            }),
    {
        match self {
            Error::Encoding(e) => Some(*e),
            _ => None,
        }
    }

    /// The native result code behind this error, if it has one.
    pub fn code(&self) -> (code: Option<i32>)
        ensures
            code == (match *self {
                Error::Native(c) => Some(c),
                _ => None::<i32>,
            }),
    {
        match self {
            Error::Native(c) => Some(*c),
            _ => None,
        }
    }

    /// The message of this error, as one line of text.
    pub fn message(&self) -> (text: String)
        ensures
            text@ == self.message_text(),
    {
        let mut out = String::from_str(self.description());
        match self {
            Error::General(text) => {
                proof {
                    reveal_strlit("");
                    assert(out@ =~= Seq::<char>::empty());
                }
                out.append(text.as_str());
                assert(out@ =~= text@);
            },
            Error::Encoding(EncodingError::InteriorNul { position }) => {
                out.append(": ");
                out.append("nul byte found in provided data at position: ");
                push_decimal(&mut out, *position as u64);
                assert(out@ =~= self.message_text());
            },
            Error::Encoding(EncodingError::InvalidUtf8 { valid_up_to }) => {
                out.append(": ");
                out.append("invalid utf-8 sequence from index ");
                push_decimal(&mut out, *valid_up_to as u64);
                assert(out@ =~= self.message_text());
            },
            Error::Native(code) => {
                out.append(": ");
                push_signed_decimal(&mut out, *code);
                assert(out@ =~= self.message_text());
            },
            Error::Misuse(misuse) => {
                out.append(": ");
                out.append(misuse.description());
                assert(out@ =~= self.message_text());
            },
        }
        out
    }
}

impl From<String> for Error {
    fn from(text: String) -> (error: Error) {
        Error::General(text)
    }
}

impl vstd::std_specs::convert::FromSpecImpl<String> for Error {
    open spec fn obeys_from_spec() -> bool {
        true
    }

    open spec fn from_spec(text: String) -> Error {
        Error::General(text)
    }
}

impl From<EncodingError> for Error {
    fn from(cause: EncodingError) -> (error: Error) {
        Error::Encoding(cause)
    }
}

impl vstd::std_specs::convert::FromSpecImpl<EncodingError> for Error {
    open spec fn obeys_from_spec() -> bool {
        true
    }

    open spec fn from_spec(cause: EncodingError) -> Error {
        Error::Encoding(cause)
    }
}

impl From<i32> for Error {
    fn from(code: i32) -> (error: Error) {
        Error::Native(code)
    }
}

impl vstd::std_specs::convert::FromSpecImpl<i32> for Error {
    open spec fn obeys_from_spec() -> bool {
        true
    }

    open spec fn from_spec(code: i32) -> Error {
        Error::Native(code)
    }
}

impl From<Misuse> for Error {
    fn from(misuse: Misuse) -> (error: Error) {
        Error::Misuse(misuse)
    }
}

impl vstd::std_specs::convert::FromSpecImpl<Misuse> for Error {
    open spec fn obeys_from_spec() -> bool {
        true
    }

    open spec fn from_spec(misuse: Misuse) -> Error {
        Error::Misuse(misuse)
    }
}

} // verus!
