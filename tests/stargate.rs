use anybuf::Anybuf;
use multi_test::stargate::{CODE_HASH_QUERY_PATH, resolve_code_hash, reject_execute, reject_query};
use multi_test::text::decimal_text;
use multi_test::{
    AppResponse, ContractData, ContractStore, CustomHelperMsg, EmptyMsg, Stargate,
    StargateAccepting, StargateCodeHash, StargateError, StargateFailing,
};

const ADDR: &str = "secret1contractaddress";

fn store_with_contract() -> ContractStore {
    let mut store = ContractStore::new();
    store.save(
        ADDR.to_string(),
        ContractData { code_id: 7, code_hash: b"c0ffee".to_vec() },
    );
    store
}

fn address_payload(address: &str) -> Vec<u8> {
    Anybuf::new().append_string(1, address).into_vec()
}

#[test]
fn failing_execute_names_type_url_and_sender() {
    let mut store = store_with_contract();
    let r = StargateFailing.execute_stargate(
        &mut store,
        "sender1".to_string(),
        "/cosmos.bank.v1beta1.MsgSend".to_string(),
        vec![1, 2, 3],
    );
    let e = r.err().unwrap();
    assert!(matches!(e, StargateError::UnexpectedExecute { .. }));
    let m = e.message();
    assert_eq!(
        m,
        "Unexpected stargate execute: type_url=/cosmos.bank.v1beta1.MsgSend, value=AQID from sender1"
    );
    assert!(store.load(&ADDR.to_string()).is_some());
}

#[test]
fn failing_query_names_path_and_payload() {
    let store = store_with_contract();
    let r = StargateFailing.query_stargate(&store, "/some.Query/Path".to_string(), vec![1, 2, 3]);
    let e = r.err().unwrap();
    assert_eq!(e.message(), "Unexpected stargate query: path=/some.Query/Path, data=AQID");
}

#[test]
fn failing_query_on_code_hash_path_still_fails() {
    let store = store_with_contract();
    let r = StargateFailing.query_stargate(
        &store,
        CODE_HASH_QUERY_PATH.to_string(),
        address_payload(ADDR),
    );
    assert!(matches!(r, Err(StargateError::UnexpectedQuery { .. })));
}

#[test]
fn accepting_execute_is_empty_and_leaves_store() {
    let mut store = store_with_contract();
    let r = StargateAccepting.execute_stargate(
        &mut store,
        "sender1".to_string(),
        "/any.Type".to_string(),
        vec![9, 9],
    );
    let resp = r.ok().unwrap();
    assert_eq!(resp.data, AppResponse::default().data);
    assert_eq!(resp.data, None);
    let d = store.load(&ADDR.to_string()).unwrap();
    assert_eq!(d.code_id, 7);
    assert_eq!(d.code_hash, b"c0ffee".to_vec());
}

#[test]
fn accepting_query_answers_empty_json() {
    let store = ContractStore::new();
    let r = StargateAccepting.query_stargate(&store, "/whatever".to_string(), vec![0xff]);
    assert_eq!(r.ok().unwrap(), b"{}".to_vec());
}

#[test]
fn code_hash_query_returns_hash() {
    let store = store_with_contract();
    let r = StargateCodeHash.query_stargate(
        &store,
        CODE_HASH_QUERY_PATH.to_string(),
        address_payload(ADDR),
    );
    assert_eq!(r.ok().unwrap(), b"c0ffee".to_vec());
}

#[test]
fn code_hash_query_unknown_contract_is_not_found() {
    let store = ContractStore::new();
    let r = StargateCodeHash.query_stargate(
        &store,
        CODE_HASH_QUERY_PATH.to_string(),
        address_payload(ADDR),
    );
    let e = r.err().unwrap();
    assert!(matches!(&e, StargateError::ContractNotFound { address } if address == ADDR));
    assert_eq!(e.message(), format!("Contract not found: {}", ADDR));
}

#[test]
fn code_hash_query_without_field_one_fails() {
    let store = store_with_contract();
    let payload = Anybuf::new().append_string(2, ADDR).into_vec();
    let r = StargateCodeHash.query_stargate(&store, CODE_HASH_QUERY_PATH.to_string(), payload);
    let e = r.err().unwrap();
    assert!(matches!(e, StargateError::MissingStringField { field: 1 }));
    assert_eq!(
        e.message(),
        "Failed to decode Protobuf message: String not found for field number 1"
    );
}

#[test]
fn code_hash_query_empty_payload_fails() {
    let store = store_with_contract();
    let r = StargateCodeHash.query_stargate(&store, CODE_HASH_QUERY_PATH.to_string(), vec![]);
    assert!(matches!(r, Err(StargateError::MissingStringField { field: 1 })));
}

#[test]
fn code_hash_query_malformed_payload_fails() {
    let store = store_with_contract();
    // a length-delimited field that claims more bytes than follow
    let r = StargateCodeHash.query_stargate(
        &store,
        CODE_HASH_QUERY_PATH.to_string(),
        vec![0x0a, 0x05, b'a'],
    );
    assert!(matches!(r, Err(StargateError::MissingStringField { field: 1 })));
}

#[test]
fn code_hash_query_non_utf8_field_fails() {
    let store = store_with_contract();
    let payload = Anybuf::new().append_bytes(1, vec![0xff, 0xfe]).into_vec();
    let r = StargateCodeHash.query_stargate(&store, CODE_HASH_QUERY_PATH.to_string(), payload);
    assert!(matches!(r, Err(StargateError::MissingStringField { field: 1 })));
}

#[test]
fn code_hash_unknown_path_behaves_as_failing() {
    let store = store_with_contract();
    let path = "/secret.compute.v1beta1.Query/codehashbycontractaddress".to_string();
    let a = StargateCodeHash
        .query_stargate(&store, path.clone(), vec![1, 2, 3])
        .err()
        .unwrap()
        .message();
    let b = StargateFailing.query_stargate(&store, path, vec![1, 2, 3]).err().unwrap().message();
    assert_eq!(a, b);
    assert!(a.contains("/secret.compute.v1beta1.Query/codehashbycontractaddress"));
    assert!(a.contains("AQID"));
}

#[test]
fn code_hash_execute_fails() {
    let mut store = store_with_contract();
    let r = StargateCodeHash.execute_stargate(
        &mut store,
        "sender2".to_string(),
        "/x.Msg".to_string(),
        vec![],
    );
    assert_eq!(r.err().unwrap().message(), "Unexpected stargate execute: type_url=/x.Msg, value= from sender2");
}

#[test]
fn code_hash_query_is_repeatable() {
    let store = store_with_contract();
    let q = || {
        StargateCodeHash.query_stargate(&store, CODE_HASH_QUERY_PATH.to_string(), address_payload(ADDR))
    };
    assert_eq!(q().ok().unwrap(), q().ok().unwrap());
    let e1 = StargateCodeHash
        .query_stargate(&store, CODE_HASH_QUERY_PATH.to_string(), vec![])
        .err()
        .unwrap()
        .message();
    let e2 = StargateCodeHash
        .query_stargate(&store, CODE_HASH_QUERY_PATH.to_string(), vec![])
        .err()
        .unwrap()
        .message();
    assert_eq!(e1, e2);
}

#[test]
fn resolve_code_hash_cases() {
    let store = store_with_contract();
    assert_eq!(resolve_code_hash(&store, Some(ADDR.to_string())).ok().unwrap(), b"c0ffee".to_vec());
    assert!(matches!(
        resolve_code_hash(&store, Some("other".to_string())),
        Err(StargateError::ContractNotFound { .. })
    ));
    assert!(matches!(
        resolve_code_hash(&store, Some(String::new())),
        Err(StargateError::MissingStringField { field: 1 })
    ));
    assert!(matches!(
        resolve_code_hash(&store, None),
        Err(StargateError::MissingStringField { field: 1 })
    ));
}

#[test]
fn reject_helpers_fail() {
    assert!(matches!(
        reject_execute("s".to_string(), "t".to_string(), vec![]),
        Err(StargateError::UnexpectedExecute { .. })
    ));
    assert!(matches!(
        reject_query("p".to_string(), vec![]),
        Err(StargateError::UnexpectedQuery { .. })
    ));
}

#[test]
fn store_save_replaces_and_load_misses() {
    let mut store = ContractStore::new();
    assert!(store.load(&"a".to_string()).is_none());
    store.save("a".to_string(), ContractData { code_id: 1, code_hash: vec![1] });
    store.save("b".to_string(), ContractData { code_id: 2, code_hash: vec![2] });
    store.save("a".to_string(), ContractData { code_id: 3, code_hash: vec![3] });
    assert_eq!(store.load(&"a".to_string()).unwrap().code_id, 3);
    assert_eq!(store.load(&"b".to_string()).unwrap().code_hash, vec![2]);
    assert!(store.load(&"c".to_string()).is_none());
}

#[test]
fn decimal_text_values() {
    assert_eq!(decimal_text(0), "0");
    assert_eq!(decimal_text(1), "1");
    assert_eq!(decimal_text(907), "907");
    assert_eq!(decimal_text(u32::MAX), "4294967295");
}

#[test]
fn helper_messages_defaults() {
    assert_eq!(CustomHelperMsg::default(), CustomHelperMsg::NoOp);
    assert_eq!(EmptyMsg::default(), EmptyMsg {});
    assert_ne!(
        CustomHelperMsg::SetName { name: "x".to_string() },
        CustomHelperMsg::SetAge { age: 1 }
    );
}
