//! The errors of this library.
use vstd::prelude::*;

verus! {

/// Why decoding an identity or installing a key share failed.
#[derive(Clone, Copy, Debug, PartialEq, Eq, Structural)]
pub enum Error {
    /// The text is not z-base-32 in the multibase form.
    InvalidEncoding,
    /// The decoded bytes are not the canonical form of any identity.
    Malformed,
    /// The bytes are an identity of another kind than the one asked for.
    VariantMismatch,
    /// The node already has a threshold key share.
    CapabilityAlreadyInstalled,
}

impl Error {
    /// A short description of the error.
    pub fn describe(&self) -> (r: &'static str)
        ensures
            *self == Error::InvalidEncoding ==> r@ == "invalid z-base-32 encoding"@,
            *self == Error::Malformed ==> r@ == "malformed identity bytes"@,
            *self == Error::VariantMismatch ==> r@ == "identity is of another kind"@,
            *self == Error::CapabilityAlreadyInstalled ==> r@ == "threshold key share already installed"@,
    {
        match self {
            Error::InvalidEncoding => "invalid z-base-32 encoding",
            Error::Malformed => "malformed identity bytes",
            Error::VariantMismatch => "identity is of another kind",
            Error::CapabilityAlreadyInstalled => "threshold key share already installed",
        }
    }
}

} // verus!
