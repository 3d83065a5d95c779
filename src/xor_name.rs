//! Network addresses.
use vstd::prelude::*;

verus! {

/// A fixed-size network address of 32 bytes.
#[derive(Clone, Copy, Debug, PartialEq, Eq, PartialOrd, Ord, Hash)]
pub struct XorName {
    pub bytes: [u8; 32],
}

impl View for XorName {
    type V = Seq<u8>;

    open spec fn view(&self) -> Seq<u8> {
        self.bytes@
    }
}

/// The address that belongs to a single-key public key. The key is 32 bytes
/// drawn uniformly by its key generator, so the address is its 32 bytes taken
/// unchanged: deterministic, the same on every machine, and distinct for
/// distinct keys.
pub open spec fn derive_address(key: Seq<u8>) -> Seq<u8> {
    key
}

impl XorName {
    /// The address with the given bytes.
    pub fn new(bytes: [u8; 32]) -> (r: XorName)
        ensures
            r@ == bytes@,
    {
        XorName { bytes }
    }

    /// The address derived from a single-key public key.
    pub fn from_public_key(key: &[u8; 32]) -> (r: XorName)
        ensures
            r@ == derive_address(key@),
    {
        XorName { bytes: *key }
    }

    /// The address's bytes.
    pub fn as_bytes(&self) -> (r: &[u8])
        ensures
            r@ == self@,
    {
        self.bytes.as_slice()
    }
}

} // verus!
