use saturn::account::AccountId;
use saturn::payload::{chain_properties, generate_payload, SigningPayload};

const ADDRESS: &str = "5GrwvaEF5zXb26Fz9rcQpDWS57CtERHpNehXCPcNoHGKutQY";

fn fixture_account() -> AccountId {
    AccountId::new(ADDRESS.to_string(), vec![1u8; 32]).unwrap()
}

fn fixture_extensions() -> Vec<String> {
    vec![
        "CheckNonce".to_string(),
        "CheckMortality".to_string(),
        "ChargeTransactionPayment".to_string(),
    ]
}

#[test]
fn payload_scenario_fixed_values() {
    let chain = chain_properties(vec![0xAA; 32], 100, 1, fixture_extensions()).unwrap();
    let account = fixture_account();
    let json = generate_payload(&chain, &account, 5, &vec![0x12, 0x34]);
    let value: serde_json::Value = serde_json::from_str(&json).unwrap();
    assert_eq!(value.get("specVersion").unwrap().as_str().unwrap(), "0x00000064");
    assert_eq!(value.get("transactionVersion").unwrap().as_str().unwrap(), "0x00000001");
    assert_eq!(value.get("nonce").unwrap().as_str().unwrap(), "0x0000000000000005");
    assert_eq!(value.get("method").unwrap().as_str().unwrap(), "0x1234");
    assert_eq!(value.get("address").unwrap().as_str().unwrap(), ADDRESS);
    let genesis_hex = format!("0x{}", "aa".repeat(32));
    assert_eq!(value.get("genesisHash").unwrap().as_str().unwrap(), genesis_hex);
    assert_eq!(value.get("blockHash").unwrap().as_str().unwrap(), genesis_hex);
    assert_eq!(value.get("blockNumber").unwrap().as_str().unwrap(), "0x00000000");
    assert_eq!(value.get("era").unwrap().as_str().unwrap(), "0x00");
    assert_eq!(value.get("tip").unwrap().as_str().unwrap(), "0x00");
    assert_eq!(value.get("version").unwrap().as_u64().unwrap(), 4);
}

#[test]
fn payload_extension_order_preserved() {
    let chain = chain_properties(vec![0xAA; 32], 100, 1, fixture_extensions()).unwrap();
    let account = fixture_account();
    let json = generate_payload(&chain, &account, 5, &vec![0x12, 0x34]);
    let value: serde_json::Value = serde_json::from_str(&json).unwrap();
    let exts: Vec<String> = value
        .get("signedExtensions")
        .unwrap()
        .as_array()
        .unwrap()
        .iter()
        .map(|v| v.as_str().unwrap().to_string())
        .collect();
    assert_eq!(exts, fixture_extensions());
}

#[test]
fn payload_generation_deterministic() {
    let chain = chain_properties(vec![0x42; 32], 7, 3, fixture_extensions()).unwrap();
    let account = fixture_account();
    let first = generate_payload(&chain, &account, 9, &vec![0x01, 0x02, 0x03]);
    let second = generate_payload(&chain, &account, 9, &vec![0x01, 0x02, 0x03]);
    assert_eq!(first, second);
}

#[test]
fn payload_distinct_nonces_render_distinct_fields() {
    let chain = chain_properties(vec![0x42; 32], 7, 3, fixture_extensions()).unwrap();
    let account = fixture_account();
    let first = generate_payload(&chain, &account, 1, &vec![0x01]);
    let second = generate_payload(&chain, &account, 2, &vec![0x01]);
    let v1: serde_json::Value = serde_json::from_str(&first).unwrap();
    let v2: serde_json::Value = serde_json::from_str(&second).unwrap();
    assert_eq!(v1.get("nonce").unwrap().as_str().unwrap(), "0x0000000000000001");
    assert_eq!(v2.get("nonce").unwrap().as_str().unwrap(), "0x0000000000000002");
}

#[test]
fn payload_record_carries_inputs_verbatim() {
    let chain = chain_properties(vec![0x11; 32], 42, 6, fixture_extensions()).unwrap();
    let account = fixture_account();
    let payload = SigningPayload::new(&chain, &account, 77, &vec![0xDE, 0xAD]);
    assert_eq!(payload.nonce, 77);
    assert_eq!(payload.method, vec![0xDE, 0xAD]);
    assert_eq!(payload.address, ADDRESS);
    assert_eq!(payload.block_number, 0);
    assert_eq!(payload.version, 4);
    assert_eq!(payload.era, vec![0x00]);
    assert_eq!(payload.tip, vec![0x00]);
    assert_eq!(payload.genesis_hash, vec![0x11; 32]);
    assert_eq!(payload.block_hash, vec![0x11; 32]);
}

#[test]
fn payload_empty_extension_list() {
    let chain = chain_properties(vec![0xAA; 32], 100, 1, Vec::new()).unwrap();
    let account = fixture_account();
    let json = generate_payload(&chain, &account, 5, &vec![0x12]);
    let value: serde_json::Value = serde_json::from_str(&json).unwrap();
    assert!(value.get("signedExtensions").unwrap().as_array().unwrap().is_empty());
}

#[test]
fn chain_properties_rejects_short_genesis_hash() {
    assert!(chain_properties(vec![0xAA; 31], 100, 1, Vec::new()).is_none());
}

#[test]
fn account_rejects_wrong_key_length() {
    let r = AccountId::new(ADDRESS.to_string(), vec![1u8; 31]);
    assert_eq!(r.unwrap_err(), saturn::errors::SaturnError::AddressParse);
}

#[test]
fn account_rejects_non_base58_address() {
    let r = AccountId::new("0OIl".to_string(), vec![1u8; 32]);
    assert_eq!(r.unwrap_err(), saturn::errors::SaturnError::AddressParse);
}

#[test]
fn account_rejects_empty_address() {
    let r = AccountId::new(String::new(), vec![1u8; 32]);
    assert_eq!(r.unwrap_err(), saturn::errors::SaturnError::AddressParse);
}
