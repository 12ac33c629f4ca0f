use vault::amount::Amount;
use vault::codec::{balance_of_request, call_payload, decode_balance};
use vault::identity::Identity;
use vault::vault::{query_balance, settle_balance_reply, Vault, VaultError};

fn addr(b: u8) -> Identity {
    Identity::new([b; 20])
}

fn word(value: u64) -> Vec<u8> {
    let mut w = vec![0u8; 24];
    w.extend_from_slice(&value.to_be_bytes());
    w
}

fn expected_request(account: [u8; 20]) -> Vec<u8> {
    let mut r = vec![0x70, 0xa0, 0x82, 0x31];
    r.extend_from_slice(&[0u8; 12]);
    r.extend_from_slice(&account);
    r
}

#[test]
fn initialize_once_then_rejected() {
    let mut v = Vault::new();
    assert!(v.asset().is_zero());
    assert_eq!(v.initialize(addr(1)), Ok(()));
    assert_eq!(v.asset(), addr(1));
    assert_eq!(v.initialize(addr(1)), Err(VaultError::AlreadyInitialized));
    assert_eq!(v.initialize(addr(2)), Err(VaultError::AlreadyInitialized));
    assert_eq!(v.asset(), addr(1));
}

#[test]
fn initialize_keeps_totals() {
    let mut v = Vault::from_parts(Identity::zero(), Amount::from_u64(4), Amount::from_u64(8));
    assert_eq!(v.initialize(addr(3)), Ok(()));
    assert_eq!(v.total_shares(), Amount::from_u64(4));
    assert_eq!(v.recorded_total_assets(), Amount::from_u64(8));
}

#[test]
fn request_encodes_balance_of_call() {
    let mut account = [0u8; 20];
    for (i, b) in account.iter_mut().enumerate() {
        *b = i as u8 + 1;
    }
    let req = balance_of_request(Identity::new(account));
    assert_eq!(req.len(), 36);
    assert_eq!(req, expected_request(account));
}

#[test]
fn decode_accepts_one_word() {
    assert_eq!(decode_balance(&word(1234)), Ok(Amount::from_u64(1234)));
    let mut high = vec![0u8; 32];
    high[0] = 1;
    assert_eq!(decode_balance(&high), Ok(Amount::from_limbs([0, 0, 0, 1 << 56])));
}

#[test]
fn decode_rejects_malformed() {
    assert!(decode_balance(&vec![]).is_err());
    assert!(decode_balance(&vec![0u8; 31]).is_err());
    assert!(decode_balance(&vec![0u8; 33]).is_err());
    assert!(decode_balance(&vec![0u8; 64]).is_err());
}

#[test]
fn settle_reply_kinds() {
    assert_eq!(settle_balance_reply(Ok(word(5))), Ok(Amount::from_u64(5)));
    assert_eq!(
        settle_balance_reply(Err(vec![8, 9])),
        Err(VaultError::ExternalCall(vec![8, 9]))
    );
    assert!(matches!(settle_balance_reply(Ok(vec![1, 2, 3])), Err(VaultError::Decode(_))));
}

#[test]
fn total_assets_queries_asset_contract() {
    let mut v = Vault::new();
    v.initialize(addr(0xaa)).unwrap();
    let me = addr(0x11);
    let r = v.total_assets(me, |to: Identity, data: Vec<u8>| {
        assert_eq!(to, addr(0xaa));
        assert_eq!(data, expected_request([0x11; 20]));
        Ok(word(777))
    });
    assert_eq!(r, Ok(Amount::from_u64(777)));
}

#[test]
fn total_assets_propagates_failure_payload() {
    let mut v = Vault::new();
    v.initialize(addr(0xaa)).unwrap();
    let payload = vec![0x08, 0xc3, 0x79, 0xa0, 0xff, 0x00, 0x01];
    let sent = payload.clone();
    let r = v.total_assets(addr(0x11), move |_to: Identity, _data: Vec<u8>| Err(sent));
    assert_eq!(r, Err(VaultError::ExternalCall(payload)));
}

#[test]
fn total_assets_short_reply_is_decode_error() {
    let mut v = Vault::new();
    v.initialize(addr(0xaa)).unwrap();
    let r = v.total_assets(addr(0x11), |_to: Identity, _data: Vec<u8>| Ok(vec![0u8; 16]));
    match r {
        Err(VaultError::Decode(msg)) => assert!(!msg.is_empty()),
        other => panic!("expected a decode error, got {:?}", other),
    }
    let empty = v.total_assets(addr(0x11), |_to: Identity, _data: Vec<u8>| Ok(vec![]));
    assert!(matches!(empty, Err(VaultError::Decode(_))));
}

#[test]
fn total_assets_repeated_reads_agree() {
    let mut v = Vault::new();
    v.initialize(addr(0xaa)).unwrap();
    let contract = |_to: Identity, _data: Vec<u8>| Ok(word(4242));
    let first = v.total_assets(addr(0x11), contract);
    let second = v.total_assets(addr(0x11), contract);
    assert_eq!(first, second);
    assert_eq!(first, Ok(Amount::from_u64(4242)));
}

#[test]
fn total_assets_unbound_vault_fails_fast() {
    let v = Vault::new();
    let r = v.total_assets(addr(0x11), |_to: Identity, _data: Vec<u8>| -> Result<Vec<u8>, Vec<u8>> {
        panic!("no call may be made for an unbound vault")
    });
    assert_eq!(r, Err(VaultError::Uninitialized));
}

#[test]
fn payload_takes_four_digest_bytes() {
    let digest: Vec<u8> = (1..=32).collect();
    assert_eq!(call_payload(&digest, &vec![9, 9]), vec![1, 2, 3, 4, 9, 9]);
    assert_eq!(call_payload(&digest, &vec![]), vec![1, 2, 3, 4]);
}

#[test]
fn query_balance_of_any_holder() {
    let r = query_balance(addr(0xbb), addr(0x22), |to: Identity, data: Vec<u8>| {
        assert_eq!(to, addr(0xbb));
        assert_eq!(data, expected_request([0x22; 20]));
        Ok(word(31))
    });
    assert_eq!(r, Ok(Amount::from_u64(31)));
}

#[test]
fn zero_identity_is_unset() {
    assert!(Identity::zero().is_zero());
    let mut bytes = [0u8; 20];
    bytes[19] = 1;
    assert!(!Identity::new(bytes).is_zero());
    assert_eq!(Identity::new(bytes).bytes(), bytes);
}

#[test]
fn initialize_with_zero_identity_leaves_vault_unbound() {
    let mut v = Vault::new();
    assert_eq!(v.initialize(Identity::zero()), Ok(()));
    assert!(v.asset().is_zero());
    assert_eq!(v.initialize(addr(4)), Ok(()));
    assert_eq!(v.asset(), addr(4));
}
