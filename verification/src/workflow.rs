//! The signing workflows. Each is cut where the caller has to wait for the
//! signing service: one function says what to ask, the next takes the reply
//! and does the rest in one step, so that no check and no write of the
//! registry are ever parted by a wait. The reserved anonymous identity is
//! refused at every step.

use crate::encoding::{base64_bytes, base64_decode, base64_encode, base64_text, hex_text};
use crate::error::{text_outcome, WalletError};
use crate::identity::{anonymous_bytes, Identity};
use crate::registry::{Registry, RegistryView};
use crate::signer::{
    address_from_public_key, address_of_key, public_key_request, signature_request,
    signature_text, PublicKeyRequest, SignatureRequest,
};
use crate::transfer::{
    transfer_message, transfer_message_text, SendTransactionRequest, SignedTransactionResponse,
};
use vstd::prelude::*;
use vstd::string::StringSliceAdditionalSpecFns;
use vstd::utf8::encode_utf8;

verus! {

/// Whether a caller may ask for a mutating operation: everyone but the
/// reserved anonymous identity.
pub open spec fn admits(identity: Seq<u8>) -> bool {
    identity != anonymous_bytes()
}

/// What deriving the address of `identity` comes to, given the reply of the
/// signing service: the registry afterwards, and the address or the failure.
pub open spec fn address_outcome(
    registry: RegistryView,
    identity: Seq<u8>,
    reply: Result<Vec<u8>, String>,
) -> (RegistryView, Result<Seq<char>, WalletError>) {
    if !admits(identity) {
        (registry, Err(WalletError::UnauthorizedCaller))
    } else {
        match reply {
            Err(detail) => (registry, Err(WalletError::UpstreamSigningError(detail))),
            Ok(public_key) => match address_of_key(public_key@) {
                Err(error) => (registry, Err(error)),
                Ok(address) => if registry.can_register(address) {
                    (registry.register(address), Ok(address))
                } else {
                    (registry, Err(WalletError::StorageFault))
                },
            },
        }
    }
}

/// What the signing service's reply to a signature request comes to: the
/// signature in hexadecimal, or the failure that the service reported.
pub open spec fn signature_outcome(reply: Result<Vec<u8>, String>) -> Result<
    Seq<char>,
    WalletError,
> {
    match reply {
        Ok(signature) => Ok(hex_text(signature@)),
        Err(detail) => Err(WalletError::UpstreamSigningError(detail)),
    }
}

/// What counting a transaction comes to for a caller: the registry
/// afterwards, and the new total or the failure.
pub open spec fn count_outcome(registry: RegistryView, identity: Seq<u8>) -> (
    RegistryView,
    Result<u64, WalletError>,
) {
    if !admits(identity) {
        (registry, Err(WalletError::UnauthorizedCaller))
    } else if registry.counters.transactions == u64::MAX {
        (registry, Err(WalletError::StorageFault))
    } else {
        (registry.count_transaction(), Ok((registry.counters.transactions + 1) as u64))
    }
}

/// Counts one completed transaction for the caller and returns the new
/// total.
pub fn increment_transaction_counter(registry: &mut Registry, identity: &Identity) -> (counted:
    Result<u64, WalletError>)
    requires
        old(registry).wf(),
    ensures
        final(registry).wf(),
        (final(registry)@, counted) == count_outcome(old(registry)@, identity@),
{
    if identity.is_anonymous() {
        return Err(WalletError::UnauthorizedCaller);
    }
    registry.count_transaction()
}

/// First step of deriving the caller's address: the request for its public
/// key.
pub fn address_request(identity: &Identity) -> (request: Result<PublicKeyRequest, WalletError>)
    ensures
        match request {
            Ok(request) => admits(identity@) && request.is_for(identity@),
            Err(error) => !admits(identity@) && error == WalletError::UnauthorizedCaller,
        },
{
    if identity.is_anonymous() {
        return Err(WalletError::UnauthorizedCaller);
    }
    Ok(public_key_request(identity))
}

/// Second step of deriving the caller's address: the address of the public
/// key that the signing service replied, registered where it is new.
pub fn get_or_create_address(
    registry: &mut Registry,
    identity: &Identity,
    reply: Result<Vec<u8>, String>,
) -> (address: Result<String, WalletError>)
    requires
        old(registry).wf(),
    ensures
        final(registry).wf(),
        (final(registry)@, text_outcome(address)) == address_outcome(
            old(registry)@,
            identity@,
            reply,
        ),
{
    if identity.is_anonymous() {
        return Err(WalletError::UnauthorizedCaller);
    }
    let public_key = match reply {
        Ok(public_key) => public_key,
        Err(detail) => {
            return Err(WalletError::UpstreamSigningError(detail));
        },
    };
    let address = match address_from_public_key(&public_key) {
        Ok(address) => address,
        Err(error) => {
            return Err(error);
        },
    };
    match registry.register_account(address.clone()) {
        Ok(_) => Ok(address),
        Err(error) => Err(error),
    }
}

/// First step of signing a message: the request for a signature over the
/// bytes that the base64 text stands for.
pub fn sign_raw_request(identity: &Identity, base64_message: &str) -> (request: Result<
    SignatureRequest,
    WalletError,
>)
    ensures
        match request {
            Ok(request) => {
                &&& admits(identity@)
                &&& base64_bytes(base64_message@) matches Some(message)
                &&& request.is_for(identity@, message)
            },
            Err(error) => if admits(identity@) {
                error == WalletError::InvalidEncoding && base64_bytes(base64_message@) is None
            } else {
                error == WalletError::UnauthorizedCaller
            },
        },
{
    if identity.is_anonymous() {
        return Err(WalletError::UnauthorizedCaller);
    }
    match base64_decode(base64_message) {
        Ok(message) => Ok(signature_request(identity, message)),
        Err(_) => Err(WalletError::InvalidEncoding),
    }
}

/// Second step of signing a message: the signature that the signing service
/// replied, in lowercase hexadecimal.
pub fn sign_raw(reply: Result<Vec<u8>, String>) -> (signature: Result<String, WalletError>)
    ensures
        text_outcome(signature) == signature_outcome(reply),
{
    match reply {
        Ok(signature) => Ok(signature_text(&signature)),
        Err(detail) => Err(WalletError::UpstreamSigningError(detail)),
    }
}

/// A transfer whose sender address has been asked for.
#[derive(Debug, PartialEq, Eq)]
pub struct PendingTransfer {
    pub request: SendTransactionRequest,
}

/// A transfer whose message has been sent to be signed.
#[derive(Debug, PartialEq, Eq)]
pub struct UnsignedTransfer {
    pub transaction_base64: String,
    pub from_address: String,
    pub to_address: String,
    pub amount_lamports: u64,
}

/// The bytes that are signed for a transfer.
pub open spec fn transfer_bytes(from: Seq<char>, to: Seq<char>, amount: u64, timestamp: u64) -> Seq<
    u8,
> {
    encode_utf8(transfer_message(from, to, amount, timestamp))
}

impl UnsignedTransfer {
    /// Whether this is the transfer of `amount` from `from` to `to` at the
    /// time `timestamp`, with its message in base64.
    pub open spec fn drafts(
        &self,
        from: Seq<char>,
        to: Seq<char>,
        amount: u64,
        timestamp: u64,
    ) -> bool {
        &&& self.from_address@ == from
        &&& self.to_address@ == to
        &&& self.amount_lamports == amount
        &&& self.transaction_base64@ == base64_text(transfer_bytes(from, to, amount, timestamp))
    }
}

impl SignedTransactionResponse {
    /// Whether this is `transfer` with `signature` in hexadecimal.
    pub open spec fn signs(&self, transfer: UnsignedTransfer, signature: Seq<u8>) -> bool {
        &&& self.transaction_base64@ == transfer.transaction_base64@
        &&& self.from_address@ == transfer.from_address@
        &&& self.to_address@ == transfer.to_address@
        &&& self.amount_lamports == transfer.amount_lamports
        &&& self.signature_hex@ == hex_text(signature)
    }
}

/// First step of a transfer: the request for the sender's public key.
pub fn transfer_begin(identity: &Identity, request: SendTransactionRequest) -> (begun: Result<
    (PendingTransfer, PublicKeyRequest),
    WalletError,
>)
    ensures
        match begun {
            Ok((pending, key_request)) => {
                &&& admits(identity@)
                &&& pending.request == request
                &&& key_request.is_for(identity@)
            },
            Err(error) => !admits(identity@) && error == WalletError::UnauthorizedCaller,
        },
{
    match address_request(identity) {
        Ok(key_request) => Ok((PendingTransfer { request }, key_request)),
        Err(error) => Err(error),
    }
}

/// Second step of a transfer, on the reply with the sender's public key at
/// the time `now`: the sender's address is derived and registered, the
/// message is built, and its signature is asked for.
pub fn transfer_on_public_key(
    registry: &mut Registry,
    identity: &Identity,
    pending: PendingTransfer,
    reply: Result<Vec<u8>, String>,
    now: u64,
) -> (drafted: Result<(UnsignedTransfer, SignatureRequest), WalletError>)
    requires
        old(registry).wf(),
    ensures
        final(registry).wf(),
        final(registry)@ == address_outcome(old(registry)@, identity@, reply).0,
        match drafted {
            Ok((transfer, sign_request)) => {
                &&& address_outcome(old(registry)@, identity@, reply).1 matches Ok(from)
                &&& transfer.drafts(
                    from,
                    pending.request.to_address@,
                    pending.request.amount_lamports,
                    now,
                )
                &&& sign_request.is_for(
                    identity@,
                    transfer_bytes(
                        from,
                        pending.request.to_address@,
                        pending.request.amount_lamports,
                        now,
                    ),
                )
            },
            Err(error) => address_outcome(old(registry)@, identity@, reply).1 == Err::<
                Seq<char>,
                WalletError,
            >(error),
        },
{
    let from_address = match get_or_create_address(registry, identity, reply) {
        Ok(address) => address,
        Err(error) => {
            return Err(error);
        },
    };
    let request = pending.request;
    let message = transfer_message_text(
        from_address.as_str(),
        request.to_address.as_str(),
        request.amount_lamports,
        now,
    );
    let transaction_base64 = base64_encode(message.as_str().as_bytes());
    match sign_raw_request(identity, transaction_base64.as_str()) {
        Ok(sign_request) => Ok(
            (
                UnsignedTransfer {
                    transaction_base64,
                    from_address,
                    to_address: request.to_address,
                    amount_lamports: request.amount_lamports,
                },
                sign_request,
            ),
        ),
        Err(error) => Err(error),
    }
}

/// Last step of a transfer, on the reply with the signature: the signed
/// transfer.
pub fn transfer_on_signature(transfer: UnsignedTransfer, reply: Result<Vec<u8>, String>) -> (signed:
    Result<SignedTransactionResponse, WalletError>)
    ensures
        match signed {
            Ok(response) => reply matches Ok(signature) && response.signs(transfer, signature@),
            Err(error) => reply matches Err(detail) && error == WalletError::UpstreamSigningError(
                detail,
            ),
        },
{
    match sign_raw(reply) {
        Ok(signature_hex) => Ok(
            SignedTransactionResponse {
                transaction_base64: transfer.transaction_base64,
                signature_hex,
                from_address: transfer.from_address,
                to_address: transfer.to_address,
                amount_lamports: transfer.amount_lamports,
            },
        ),
        Err(error) => Err(error),
    }
}

} // verus!
