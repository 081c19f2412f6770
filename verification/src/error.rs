//! The failures of the wallet's operations.

use vstd::prelude::*;

verus! {

/// Why a wallet operation did not produce its result.
#[derive(Debug, PartialEq, Eq)]
pub enum WalletError {
    /// The reserved anonymous identity asked for a mutating operation.
    UnauthorizedCaller,
    /// A message was not valid base64, or a response body was not valid UTF-8.
    InvalidEncoding,
    /// The signer returned a public key that is not exactly 32 bytes long.
    InvalidKeyLength,
    /// The threshold signing service failed; the text is what it reported.
    UpstreamSigningError(String),
    /// The RPC endpoint could not be reached or answered with an error; the
    /// text is what was reported.
    RpcError(String),
    /// The response body is not a JSON-RPC envelope.
    MalformedResponse,
    /// The envelope carries neither a balance object nor a bare balance.
    UnexpectedResultShape,
    /// The durable store holds a record that cannot be used.
    StorageFault,
}

/// The outcome of an operation that yields text, with the text as the
/// characters it holds.
pub open spec fn text_outcome(outcome: Result<String, WalletError>) -> Result<
    Seq<char>,
    WalletError,
> {
    match outcome {
        Ok(text) => Ok(text@),
        Err(error) => Err(error),
    }
}

} // verus!
