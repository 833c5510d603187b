use vstd::prelude::*;

verus! {

/// The single tagged error surfaced to the caller by every stage of the
/// pipeline.  Each stage fails fast: the first error aborts the whole
/// submission attempt and nothing is retried.
#[derive(Clone, Copy, Debug, PartialEq, Eq, Structural)]
pub enum SaturnError {
    /// The account address string is not a valid account identifier.
    AddressParse,
    /// The call descriptor could not be encoded to bytes.
    CallEncoding,
    /// The query for the account nonce failed.
    NonceFetch,
    /// Invoking the external signer capability itself failed.
    BridgeInvocation,
    /// The resolved signer value does not match the expected single-field
    /// response structure.
    ResponseDecoding,
    /// The signature string is not valid hex or not a recognized scheme.
    SignatureFormat,
    /// Re-encoding the call for the final assembly failed.
    PartialConstruction,
    /// Broadcast, the wait for block inclusion, or the event fetch failed.
    Submission,
    /// The block included the transaction but the expected domain event is
    /// absent.
    OutcomeNotFound,
    /// The domain event is present without the generic success marker;
    /// non-recoverable.
    ProtocolViolation,
}

impl SaturnError {
    /// The human-readable message carried by this error kind.
    pub open spec fn message(self) -> Seq<char> {
        match self {
            SaturnError::AddressParse => "invalid account address"@,
            SaturnError::CallEncoding => "could not encode call data"@,
            SaturnError::NonceFetch => "fetching account nonce failed"@,
            SaturnError::BridgeInvocation => "external signer invocation failed"@,
            SaturnError::ResponseDecoding => "error deserializing signature response"@,
            SaturnError::SignatureFormat => "signature is not valid hex or not a recognized scheme"@,
            SaturnError::PartialConstruction => "partial extrinsic creation failed"@,
            SaturnError::Submission => "submission or block inclusion failed"@,
            SaturnError::OutcomeNotFound => "expected event not found in block"@,
            SaturnError::ProtocolViolation => "domain event present without extrinsic success"@,
        }
    }

    /// The message as an owned string, for the caller that reports the error.
    pub fn inner(self) -> (r: String)
        ensures
            r@ == self.message(),
    {
        match self {
            SaturnError::AddressParse => "invalid account address".to_owned(),
            SaturnError::CallEncoding => "could not encode call data".to_owned(),
            SaturnError::NonceFetch => "fetching account nonce failed".to_owned(),
            SaturnError::BridgeInvocation => "external signer invocation failed".to_owned(),
            SaturnError::ResponseDecoding => "error deserializing signature response".to_owned(),
            SaturnError::SignatureFormat => {
                "signature is not valid hex or not a recognized scheme".to_owned()
            },
            SaturnError::PartialConstruction => "partial extrinsic creation failed".to_owned(),
            SaturnError::Submission => "submission or block inclusion failed".to_owned(),
            SaturnError::OutcomeNotFound => "expected event not found in block".to_owned(),
            SaturnError::ProtocolViolation => {
                "domain event present without extrinsic success".to_owned()
            },
        }
    }
}

} // verus!
