//! Caller identities, and the one that is reserved for anonymous callers.

use vstd::prelude::*;

verus! {

/// The single byte that encodes the reserved anonymous identity.
pub const ANONYMOUS_TAG: u8 = 4;

/// An authenticated caller, held as its canonical byte encoding.
#[derive(Debug, PartialEq, Eq)]
pub struct Identity {
    bytes: Vec<u8>,
}

impl View for Identity {
    type V = Seq<u8>;

    closed spec fn view(&self) -> Seq<u8> {
        self.bytes@
    }
}

/// The canonical bytes of the anonymous identity.
pub open spec fn anonymous_bytes() -> Seq<u8> {
    seq![ANONYMOUS_TAG]
}

impl Identity {
    /// Whether this is the reserved anonymous identity.
    pub open spec fn spec_is_anonymous(&self) -> bool {
        self@ == anonymous_bytes()
    }

    /// The identity with the given canonical encoding.
    pub fn from_bytes(bytes: Vec<u8>) -> (identity: Identity)
        ensures
            identity@ == bytes@,
    {
        Identity { bytes }
    }

    /// The reserved anonymous identity.
    pub fn anonymous() -> (identity: Identity)
        ensures
            identity.spec_is_anonymous(),
    {
        let mut bytes: Vec<u8> = Vec::new();
        bytes.push(ANONYMOUS_TAG);
        assert(bytes@ =~= anonymous_bytes());
        Identity { bytes }
    }

    /// The canonical encoding of this identity.
    pub fn as_slice(&self) -> (bytes: &[u8])
        ensures
            bytes@ == self@,
    {
        self.bytes.as_slice()
    }

    /// Whether this is the reserved anonymous identity.
    #[verifier::when_used_as_spec(spec_is_anonymous)]
    pub fn is_anonymous(&self) -> (anonymous: bool)
        ensures
            anonymous == self.spec_is_anonymous(),
    {
        let anonymous = self.bytes.len() == 1 && self.bytes[0] == ANONYMOUS_TAG;
        assert(anonymous ==> self.bytes@ =~= anonymous_bytes());
        anonymous
    }
}

} // verus!
