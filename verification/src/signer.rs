//! The signing gateway: what is asked of the threshold signing service for
//! an identity, and what is made of its replies.

use crate::encoding::{base58_encode, base58_text, hex_encode, hex_text};
use crate::error::{text_outcome, WalletError};
use crate::identity::Identity;
use vstd::prelude::*;
use vstd::string::StringExecFns;

verus! {

/// The length in bytes of a public key of the signing service.
pub const PUBLIC_KEY_LENGTH: usize = 32;

/// The fee, in cycles, that accompanies every request for a signature.
pub const SIGN_CYCLES: u64 = 26_153_846_153;

/// The signature schemes of the signing service.
#[derive(Clone, Copy, Debug, PartialEq, Eq, Structural)]
pub enum SchnorrAlgorithm {
    Ed25519,
}

/// The name of the service's key from which all accounts are derived.
pub open spec fn key_name() -> Seq<char> {
    "dfx_test_key"@
}

/// The derivation path of an identity: one segment, its canonical bytes.
pub open spec fn derivation_path(identity: Seq<u8>) -> Seq<Seq<u8>> {
    seq![identity]
}

/// Which key of the signing service a request is about.
#[derive(Debug, PartialEq, Eq)]
pub struct SchnorrKeyId {
    pub algorithm: SchnorrAlgorithm,
    pub name: String,
}

/// A request for the public key under a derivation path.
#[derive(Debug, PartialEq, Eq)]
pub struct PublicKeyRequest {
    /// The canister whose key is asked for; `None` for the caller's own.
    pub canister_id: Option<Vec<u8>>,
    pub derivation_path: Vec<Vec<u8>>,
    pub key_id: SchnorrKeyId,
}

/// A request to sign a message under a derivation path, and the fee in
/// cycles that goes with it.
#[derive(Debug, PartialEq, Eq)]
pub struct SignatureRequest {
    pub message: Vec<u8>,
    pub derivation_path: Vec<Vec<u8>>,
    pub key_id: SchnorrKeyId,
    pub cycles: u64,
}

/// A public key as the service replies it, in hexadecimal.
#[derive(Debug, PartialEq, Eq)]
pub struct PublicKeyReply {
    pub public_key_hex: String,
}

/// The segments of a derivation path, as byte strings.
pub open spec fn path_segments(path: Vec<Vec<u8>>) -> Seq<Seq<u8>> {
    path@.map_values(|segment: Vec<u8>| segment@)
}

impl SchnorrKeyId {
    /// Whether this names the wallet's Ed25519 key.
    pub open spec fn is_wallet_key(&self) -> bool {
        self.algorithm == SchnorrAlgorithm::Ed25519 && self.name@ == key_name()
    }
}

impl PublicKeyRequest {
    /// Whether this is the request for the public key of `identity`.
    pub open spec fn is_for(&self, identity: Seq<u8>) -> bool {
        &&& self.canister_id is None
        &&& path_segments(self.derivation_path) == derivation_path(identity)
        &&& self.key_id.is_wallet_key()
    }
}

impl SignatureRequest {
    /// Whether this is the request to sign `message` for `identity`, with
    /// the fixed fee.
    pub open spec fn is_for(&self, identity: Seq<u8>, message: Seq<u8>) -> bool {
        &&& self.message@ == message
        &&& path_segments(self.derivation_path) == derivation_path(identity)
        &&& self.key_id.is_wallet_key()
        &&& self.cycles == SIGN_CYCLES
    }
}

/// The wallet's key of the signing service.
fn wallet_key() -> (key_id: SchnorrKeyId)
    ensures
        key_id.is_wallet_key(),
{
    SchnorrKeyId { algorithm: SchnorrAlgorithm::Ed25519, name: String::from_str("dfx_test_key") }
}

/// The derivation path of an identity.
fn path_of(identity: &Identity) -> (path: Vec<Vec<u8>>)
    ensures
        path_segments(path) == derivation_path(identity@),
{
    let segment = vstd::slice::slice_to_vec(identity.as_slice());
    let mut path: Vec<Vec<u8>> = Vec::new();
    path.push(segment);
    assert(path_segments(path) =~= derivation_path(identity@));
    path
}

/// The request for the public key of `identity`.
pub fn public_key_request(identity: &Identity) -> (request: PublicKeyRequest)
    ensures
        request.is_for(identity@),
{
    PublicKeyRequest { canister_id: None, derivation_path: path_of(identity), key_id: wallet_key() }
}

/// The request to sign `message` under the key of `identity`.
pub fn signature_request(identity: &Identity, message: Vec<u8>) -> (request: SignatureRequest)
    ensures
        request.is_for(identity@, message@),
{
    SignatureRequest {
        message,
        derivation_path: path_of(identity),
        key_id: wallet_key(),
        cycles: SIGN_CYCLES,
    }
}

/// What becomes of a public key: its address, where it has the right length.
pub open spec fn address_of_key(public_key: Seq<u8>) -> Result<Seq<char>, WalletError> {
    if public_key.len() == PUBLIC_KEY_LENGTH {
        Ok(base58_text(public_key))
    } else {
        Err(WalletError::InvalidKeyLength)
    }
}

/// The address of a public key: its base58 text. A key that is not exactly
/// 32 bytes long has none.
pub fn address_from_public_key(public_key: &Vec<u8>) -> (address: Result<String, WalletError>)
    ensures
        text_outcome(address) == address_of_key(public_key@),
{
    if public_key.len() != PUBLIC_KEY_LENGTH {
        return Err(WalletError::InvalidKeyLength);
    }
    Ok(base58_encode(public_key.as_slice()))
}

/// The signature as lowercase hexadecimal text.
pub fn signature_text(signature: &Vec<u8>) -> (text: String)
    ensures
        text@ == hex_text(signature@),
{
    hex_encode(signature.as_slice())
}

} // verus!
