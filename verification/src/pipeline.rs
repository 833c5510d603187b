use vstd::prelude::*;
use crate::account::AccountId;
use crate::errors::SaturnError;
use crate::hexfmt::bytes_of_hex;
use crate::payload::{payload_fields, render_payload, str_views, ChainProperties, SigningPayload};
use crate::signature::{
    decode_signature_response, response_decodes, sig_body_len, MultiSignature, SignatureResponse,
};

verus! {

/// What came back from invoking the external signer capability, as the
/// surrounding bridge reports it: the invocation itself failed, the
/// resolved value did not parse into a signature response, or a response
/// arrived.
#[derive(Debug)]
pub enum BridgeOutcome {
    InvocationFailed,
    DecodingFailed,
    Resolved(SignatureResponse),
}

/// A signed transaction ready for submission: the call bytes, the
/// account, the nonce and the decoded signature, bound together and
/// immutable from here on.
#[derive(Debug)]
pub struct SignedTransaction {
    pub call_data: Vec<u8>,
    pub account: AccountId,
    pub nonce: u64,
    pub signature: MultiSignature,
}

impl SignedTransaction {
    pub open spec fn wf(self) -> bool {
        self.account.wf() && self.signature.wf()
    }
}

/// Binds the bridge's outcome to the unsigned transaction parts.  A
/// failed invocation or an unparseable response aborts with its own error
/// kind and no transaction is ever constructed from it; a response is
/// decoded, and the transaction carries the very call bytes and nonce the
/// signing payload was derived from — divergence there would mean the
/// chain receives a transaction the signer never saw.  No cryptographic
/// verification happens here; the node judges the signature.
pub fn assemble_transaction(
    call_data: Vec<u8>,
    account: AccountId,
    nonce: u64,
    outcome: BridgeOutcome,
) -> (r: Result<SignedTransaction, SaturnError>)
    requires
        account.wf(),
    ensures
        outcome is InvocationFailed ==> r is Err && r->Err_0 == SaturnError::BridgeInvocation,
        outcome is DecodingFailed ==> r is Err && r->Err_0 == SaturnError::ResponseDecoding,
        outcome matches BridgeOutcome::Resolved(resp) ==> {
            &&& (r is Ok) == response_decodes(resp.signature@)
            &&& !response_decodes(resp.signature@) ==> r->Err_0 == SaturnError::SignatureFormat
        },
        r is Ok ==> {
            let t = r->Ok_0;
            &&& t.wf()
            &&& t.call_data == call_data
            &&& t.account == account
            &&& t.nonce == nonce
            &&& outcome matches BridgeOutcome::Resolved(resp) && t.signature.tag() == bytes_of_hex(
                resp.signature@.skip(2),
            )[0] as int && t.signature.body() == bytes_of_hex(resp.signature@.skip(2)).subrange(
                1,
                1 + sig_body_len(bytes_of_hex(resp.signature@.skip(2))[0] as int),
            )
        },
{
    match outcome {
        BridgeOutcome::InvocationFailed => Err(SaturnError::BridgeInvocation),
        BridgeOutcome::DecodingFailed => Err(SaturnError::ResponseDecoding),
        BridgeOutcome::Resolved(resp) => {
            match decode_signature_response(&resp) {
                Err(e) => Err(e),
                Ok(signature) => Ok(SignedTransaction { call_data, account, nonce, signature }),
            }
        },
    }
}

/// One submission attempt: the chain parameters, the account, the nonce
/// fetched immediately before this attempt, and the encoded call bytes,
/// fixed together at construction.  The signing payload and the signed
/// transaction are both derived from this one record, so the call bytes
/// and the nonce the signer inspects are, by construction, the ones the
/// chain receives — the agreement the whole pipeline exists to keep.
/// Nothing survives the attempt; a retry builds a fresh record around a
/// freshly fetched nonce.
#[derive(Debug)]
pub struct SubmissionAttempt {
    pub chain: ChainProperties,
    pub account: AccountId,
    pub nonce: u64,
    pub call_data: Vec<u8>,
}

impl SubmissionAttempt {
    pub open spec fn wf(self) -> bool {
        self.chain.wf() && self.account.wf()
    }

    pub fn new(chain: ChainProperties, account: AccountId, nonce: u64, call_data: Vec<u8>) -> (r:
        SubmissionAttempt)
        requires
            chain.wf(),
            account.wf(),
        ensures
            r.wf(),
            r.chain == chain,
            r.account == account,
            r.nonce == nonce,
            r.call_data == call_data,
    {
        SubmissionAttempt { chain, account, nonce, call_data }
    }

    /// The exact JSON text the external signer receives for this attempt:
    /// the payload is derived from the attempt's own fields and from
    /// nothing else.
    pub fn payload_json(&self) -> (r: String)
        requires
            self.wf(),
        ensures
            r@ == render_payload(
                payload_fields(
                    self.chain.genesis_hash@,
                    self.chain.spec_version,
                    self.chain.transaction_version,
                    self.account.display@,
                    self.nonce,
                    self.call_data@,
                    str_views(self.chain.signed_extensions@),
                ),
            ),
    {
        let payload = SigningPayload::new(&self.chain, &self.account, self.nonce, &self.call_data);
        payload.to_json()
    }

    /// Binds the bridge's outcome to this attempt's own call bytes, account
    /// and nonce — the very values `payload_json` displayed — and consumes
    /// the attempt: no second transaction can come from it.
    pub fn assemble(self, outcome: BridgeOutcome) -> (r: Result<SignedTransaction, SaturnError>)
        requires
            self.wf(),
        ensures
            outcome is InvocationFailed ==> r is Err && r->Err_0 == SaturnError::BridgeInvocation,
            outcome is DecodingFailed ==> r is Err && r->Err_0 == SaturnError::ResponseDecoding,
            outcome matches BridgeOutcome::Resolved(resp) ==> {
                &&& (r is Ok) == response_decodes(resp.signature@)
                &&& !response_decodes(resp.signature@) ==> r->Err_0 == SaturnError::SignatureFormat
            },
            r is Ok ==> {
                let t = r->Ok_0;
                &&& t.wf()
                &&& t.call_data == self.call_data
                &&& t.account == self.account
                &&& t.nonce == self.nonce
            },
    {
        assemble_transaction(self.call_data, self.account, self.nonce, outcome)
    }
}

} // verus!
