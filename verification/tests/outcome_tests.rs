use saturn::account::AccountId;
use saturn::errors::SaturnError;
use saturn::events::{extract_outcome, ChainEvent, CoreCreationResult};
use saturn::payload::chain_properties;
use saturn::pipeline::{assemble_transaction, BridgeOutcome, SignedTransaction, SubmissionAttempt};
use saturn::signature::{MultiSignature, SignatureResponse};

fn event(pallet: &str, variant: &str) -> ChainEvent {
    ChainEvent { pallet: pallet.to_string(), variant: variant.to_string() }
}

fn fixture_account() -> AccountId {
    AccountId::new(
        "5GrwvaEF5zXb26Fz9rcQpDWS57CtERHpNehXCPcNoHGKutQY".to_string(),
        vec![1u8; 32],
    )
    .unwrap()
}

#[test]
fn outcome_success_returns_generic_marker() {
    let events = vec![
        event("Balances", "Withdraw"),
        event("INV4", "CoreCreated"),
        event("System", "ExtrinsicSuccess"),
    ];
    let marker = extract_outcome(&events).unwrap();
    assert_eq!(marker.pallet, "System");
    assert_eq!(marker.variant, "ExtrinsicSuccess");
}

#[test]
fn outcome_domain_event_missing_is_not_success() {
    let events = vec![event("Balances", "Withdraw"), event("System", "ExtrinsicSuccess")];
    assert_eq!(extract_outcome(&events).unwrap_err(), SaturnError::OutcomeNotFound);
}

#[test]
fn outcome_domain_without_marker_is_violation() {
    let events = vec![event("INV4", "CoreCreated")];
    assert_eq!(extract_outcome(&events).unwrap_err(), SaturnError::ProtocolViolation);
}

#[test]
fn outcome_empty_event_list() {
    let events: Vec<ChainEvent> = Vec::new();
    assert_eq!(extract_outcome(&events).unwrap_err(), SaturnError::OutcomeNotFound);
}

#[test]
fn bridge_invocation_failure_builds_no_transaction() {
    let r = assemble_transaction(vec![0x12, 0x34], fixture_account(), 5, BridgeOutcome::InvocationFailed);
    assert_eq!(r.unwrap_err(), SaturnError::BridgeInvocation);
}

#[test]
fn bridge_decoding_failure_is_its_own_error() {
    let r = assemble_transaction(vec![0x12, 0x34], fixture_account(), 5, BridgeOutcome::DecodingFailed);
    assert_eq!(r.unwrap_err(), SaturnError::ResponseDecoding);
}

#[test]
fn assembled_transaction_reuses_call_and_nonce() {
    let bytes: Vec<u8> = std::iter::once(1u8).chain((0..64).map(|_| 0x77)).collect();
    let resp = SignatureResponse { signature: format!("0x{}", hex::encode(&bytes)) };
    let t: SignedTransaction = assemble_transaction(
        vec![0x12, 0x34],
        fixture_account(),
        5,
        BridgeOutcome::Resolved(resp),
    )
    .unwrap();
    assert_eq!(t.call_data, vec![0x12, 0x34]);
    assert_eq!(t.nonce, 5);
    assert!(matches!(t.signature, MultiSignature::Sr25519(body) if body == vec![0x77; 64]));
}

#[test]
fn assembly_rejects_malformed_signature() {
    let resp = SignatureResponse { signature: "0x1234".to_string() };
    let r = assemble_transaction(vec![], fixture_account(), 0, BridgeOutcome::Resolved(resp));
    assert_eq!(r.unwrap_err(), SaturnError::SignatureFormat);
}

#[test]
fn core_creation_result_holds_id() {
    let r = CoreCreationResult { core_id: 12 };
    assert_eq!(r.core_id, 12);
}

#[test]
fn attempt_displays_what_it_broadcasts() {
    let chain = chain_properties(vec![0xAA; 32], 100, 1, vec!["CheckNonce".to_string()]).unwrap();
    let attempt = SubmissionAttempt::new(chain, fixture_account(), 5, vec![0x12, 0x34]);
    let shown: serde_json::Value = serde_json::from_str(&attempt.payload_json()).unwrap();
    let bytes: Vec<u8> = std::iter::once(0u8).chain((0..64).map(|_| 0x55)).collect();
    let resp = SignatureResponse { signature: format!("0x{}", hex::encode(&bytes)) };
    let tx = attempt.assemble(BridgeOutcome::Resolved(resp)).unwrap();
    assert_eq!(
        shown.get("method").unwrap().as_str().unwrap(),
        format!("0x{}", hex::encode(&tx.call_data))
    );
    assert_eq!(
        shown.get("nonce").unwrap().as_str().unwrap(),
        format!("0x{}", hex::encode(tx.nonce.to_be_bytes()))
    );
}
