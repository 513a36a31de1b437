use seismic_provider::crypto::{public_key_from_bytes, random_encryption_nonce, EphemeralKeypair};
use seismic_provider::flow::{step, step_with_material};
use seismic_provider::tx::{MESSAGE_VERSION_RAW, TX_SEISMIC_TYPE};
use seismic_provider::tx::AccessListItem;
use seismic_provider::{
    build_seismic_tx, EncryptionMaterial, Operation, SeismicAction, SeismicError, SeismicEvent, SeismicLayer,
    SeismicProvider, SeismicState, SendableTx, TransactionInput, TransactionRequest, TxKind, TxSeismicElements,
};

const NETWORK_SK: &str = "311d54d3bf8359c70827122a44a7b4458733adce3c51c6b59d9acfce85e07505";
const NETWORK_PK: &str = "028e76821eb4d77fd30223ca971c49738eb5b5b71eabe93f96b348fdce788ae5a0";

fn unhex(s: &str) -> Vec<u8> {
    (0..s.len()).step_by(2).map(|i| u8::from_str_radix(&s[i..i + 2], 16).unwrap()).collect()
}

fn network_pk() -> Vec<u8> {
    unhex(NETWORK_PK)
}

fn network_sk() -> seismic_enclave::SecretKey {
    seismic_enclave::SecretKey::from_slice(&unhex(NETWORK_SK)).unwrap()
}

fn fixed_material() -> EncryptionMaterial {
    let secret_key = unhex("0101010101010101010101010101010101010101010101010101010101010101");
    EncryptionMaterial {
        keypair: EphemeralKeypair::from_secret_key(secret_key).unwrap(),
        nonce: vec![7u8; 12],
    }
}

fn request_of_type(input: Option<Vec<u8>>, nonce: Option<u64>, transaction_type: Option<u8>) -> TransactionRequest {
    TransactionRequest {
        from: Some([0x11; 20]),
        to: Some(TxKind::Call([0x22; 20])),
        gas_price: None,
        max_fee_per_gas: Some(30_000_000_000),
        max_priority_fee_per_gas: Some(1_000_000_000),
        max_fee_per_blob_gas: None,
        gas: Some(21_000),
        value: Some([0x01; 32]),
        input: TransactionInput { input, data: None },
        nonce,
        chain_id: Some(5124),
        access_list: Some(vec![AccessListItem { address: [0x33; 20], storage_keys: vec![[0x44; 32]] }]),
        transaction_type,
        blob_versioned_hashes: None,
        sidecar: None,
        authorization_list: None,
        seismic_elements: None,
    }
}

fn request_with(input: Option<Vec<u8>>, nonce: Option<u64>) -> TransactionRequest {
    request_of_type(input, nonce, Some(TX_SEISMIC_TYPE))
}

/// An EIP-1559 request (type 2), which is encrypted only once its nonce is set.
fn eip1559_request(input: Option<Vec<u8>>, nonce: Option<u64>) -> TransactionRequest {
    request_of_type(input, nonce, Some(2))
}

/// What the network does with a shielded request: it derives the same key from
/// its secret and the attached ephemeral public key, and decrypts.
fn network_decrypt(ciphertext: &[u8], elements: &TxSeismicElements) -> Vec<u8> {
    let client_pk = seismic_enclave::PublicKey::from_slice(&elements.encryption_pubkey).unwrap();
    seismic_enclave::ecdh_decrypt(&client_pk, &network_sk(), ciphertext.to_vec(), elements.encryption_nonce.clone())
        .unwrap()
}

fn network_encrypt(plaintext: &[u8], elements: &TxSeismicElements) -> Vec<u8> {
    let client_pk = seismic_enclave::PublicKey::from_slice(&elements.encryption_pubkey).unwrap();
    seismic_enclave::ecdh_encrypt(&client_pk, &network_sk(), plaintext.to_vec(), elements.encryption_nonce.clone())
        .unwrap()
}

#[test]
fn seismic_type_is_74() {
    assert_eq!(TX_SEISMIC_TYPE, 74);
    assert_eq!(MESSAGE_VERSION_RAW, 0);
}

#[test]
fn build_seismic_tx_sets_calldata_destination_sender_and_type() {
    let tx = build_seismic_tx(vec![1, 2, 3], TxKind::Create, [9; 20]);
    assert_eq!(tx.from, Some([9; 20]));
    assert!(matches!(tx.to, Some(TxKind::Create)));
    assert_eq!(tx.input.input, Some(vec![1, 2, 3]));
    assert_eq!(tx.input.data, None);
    assert_eq!(tx.transaction_type, Some(74));
    assert_eq!(tx.nonce, None);
    assert!(tx.seismic_elements.is_none());
    assert_eq!(tx.input(), Some(&vec![1, 2, 3]));
}

#[test]
fn built_request_is_encrypted_without_a_nonce() {
    let mut tx = build_seismic_tx(vec![1, 2, 3], TxKind::Call([1; 20]), [9; 20]);
    assert!(tx.should_encrypt_input());
    tx.nonce = Some(5);
    assert!(tx.should_encrypt_input());
    let empty = build_seismic_tx(vec![], TxKind::Call([1; 20]), [9; 20]);
    assert!(!empty.should_encrypt_input());
}

#[test]
fn other_types_are_encrypted_once_nonce_is_set() {
    let mut tx = eip1559_request(Some(vec![1]), None);
    assert!(!tx.should_encrypt_input());
    tx.nonce = Some(0);
    assert!(tx.should_encrypt_input());
    let untyped = request_of_type(Some(vec![1]), None, None);
    assert!(!untyped.should_encrypt_input());
}

#[test]
fn input_prefers_input_over_data() {
    let both = TransactionInput { input: Some(vec![1]), data: Some(vec![2]) };
    assert_eq!(both.input(), Some(&vec![1]));
    let data_only = TransactionInput { input: None, data: Some(vec![2]) };
    assert_eq!(data_only.input(), Some(&vec![2]));
    let none = TransactionInput { input: None, data: None };
    assert_eq!(none.input(), None);
}

#[test]
fn should_encrypt_reads_data_place_too() {
    let mut tx = eip1559_request(None, Some(1));
    assert!(!tx.should_encrypt_input());
    tx.input.data = Some(vec![4, 5]);
    assert!(tx.should_encrypt_input());
    tx.nonce = None;
    assert!(!tx.should_encrypt_input());
}

#[test]
fn set_input_clears_data_place() {
    let mut tx = request_with(None, Some(1));
    tx.input.data = Some(vec![4, 5]);
    tx.set_input(vec![6]);
    assert_eq!(tx.input.input, Some(vec![6]));
    assert_eq!(tx.input.data, None);
    assert_eq!(tx.input(), Some(&vec![6]));
}

#[test]
fn provider_wraps_inner_and_decides_encryption() {
    let p = SeismicProvider::new(42u32);
    assert_eq!(*p.inner(), 42);
    assert!(p.should_encrypt_input(&request_with(Some(vec![1]), Some(0))));
    assert!(!p.should_encrypt_input(&request_with(Some(vec![]), Some(0))));
    assert!(p.should_encrypt_input(&request_with(Some(vec![1]), None)));
    assert!(!p.should_encrypt_input(&eip1559_request(Some(vec![1]), None)));
    let layered = SeismicLayer {}.layer("inner");
    assert_eq!(*layered.inner(), "inner");
}

#[test]
fn tee_public_key_accepts_compressed_key() {
    assert_eq!(public_key_from_bytes(&network_pk()).unwrap(), network_pk());
}

#[test]
fn tee_public_key_rejects_other_bytes() {
    let mut bad_prefix = network_pk();
    bad_prefix[0] = 0x05;
    assert!(matches!(public_key_from_bytes(&bad_prefix), Err(SeismicError::InvalidTeePubkey(_))));
    assert!(matches!(public_key_from_bytes(&network_pk()[..32]), Err(SeismicError::InvalidTeePubkey(_))));
    assert!(matches!(public_key_from_bytes(&[]), Err(SeismicError::InvalidTeePubkey(_))));
    assert!(matches!(public_key_from_bytes(&off_curve_key()), Err(SeismicError::InvalidTeePubkey(_))));
}

#[test]
fn key_pair_of_a_secret_key() {
    let k = EphemeralKeypair::from_secret_key(unhex(NETWORK_SK)).unwrap();
    assert_eq!(k.public_key, network_pk());
    assert!(EphemeralKeypair::from_secret_key(vec![0u8; 32]).is_none());
    assert!(EphemeralKeypair::from_secret_key(vec![1u8; 31]).is_none());
    assert!(EphemeralKeypair::from_secret_key(vec![0xffu8; 32]).is_none());
}

#[test]
fn random_material_is_well_formed() {
    let k = EphemeralKeypair::random();
    assert_eq!(k.secret_key.len(), 32);
    assert_eq!(k.public_key.len(), 33);
    let sk = seismic_enclave::SecretKey::from_slice(&k.secret_key).unwrap();
    let pk = seismic_enclave::PublicKey::from_secret_key(&seismic_enclave::Secp256k1::new(), &sk);
    assert_eq!(pk.serialize().to_vec(), k.public_key);
    assert_eq!(random_encryption_nonce().len(), 12);
    let m = EncryptionMaterial::random();
    assert_eq!(m.nonce.len(), 12);
    assert_ne!(EphemeralKeypair::random().secret_key, EphemeralKeypair::random().secret_key);
}

#[test]
fn client_encrypt_round_trips_and_network_can_read_it() {
    let m = fixed_material();
    let elements = m.elements();
    assert_eq!(elements.encryption_pubkey, m.keypair.public_key);
    assert_eq!(elements.encryption_nonce, vec![7u8; 12]);
    assert_eq!(elements.message_version, 0);
    let plaintext = b"shielded calldata".to_vec();
    let c = elements.client_encrypt(&plaintext, &network_pk(), &m.keypair.secret_key).unwrap();
    assert_eq!(c.len(), plaintext.len() + 16);
    assert_ne!(&c[..plaintext.len()], &plaintext[..]);
    assert_eq!(elements.client_decrypt(&c, &network_pk(), &m.keypair.secret_key).unwrap(), plaintext);
    assert_eq!(network_decrypt(&c, &elements), plaintext);
    let again = elements.client_encrypt(&plaintext, &network_pk(), &m.keypair.secret_key).unwrap();
    assert_eq!(again, c);
}

#[test]
fn client_encrypt_fails_on_bad_keys_or_nonce() {
    let m = fixed_material();
    let elements = m.elements();
    assert!(matches!(elements.client_encrypt(b"x", &[1, 2, 3], &m.keypair.secret_key), Err(SeismicError::Encryption(_))));
    assert!(matches!(elements.client_encrypt(b"x", &network_pk(), &[0u8; 32]), Err(SeismicError::Encryption(_))));
    let mut short_nonce = elements.duplicate();
    short_nonce.encryption_nonce = vec![1, 2, 3];
    assert!(matches!(short_nonce.client_encrypt(b"x", &network_pk(), &m.keypair.secret_key), Err(SeismicError::Encryption(_))));
}

#[test]
fn client_decrypt_rejects_tampered_output() {
    let m = fixed_material();
    let elements = m.elements();
    let mut c = elements.client_encrypt(b"abc", &network_pk(), &m.keypair.secret_key).unwrap();
    c[0] ^= 1;
    assert!(matches!(elements.client_decrypt(&c, &network_pk(), &m.keypair.secret_key), Err(SeismicError::Decryption(_))));
    assert!(matches!(elements.client_decrypt(&[1, 2], &network_pk(), &m.keypair.secret_key), Err(SeismicError::Decryption(_))));
}

fn expect_forwarded_builder(a: SeismicAction) -> TransactionRequest {
    match a {
        SeismicAction::Forward(SendableTx::Builder(r)) => r,
        other => panic!("expected a forwarded request, got {:?}", other),
    }
}

#[test]
fn shielded_call_flow() {
    let m = fixed_material();
    let plaintext = vec![0xde, 0xad, 0xbe, 0xef];
    let tx = request_with(Some(plaintext.clone()), Some(3));
    let (s1, a1) = step_with_material(SeismicState::Idle, SeismicEvent::Begin { op: Operation::Call, tx: SendableTx::Builder(tx) }, &m);
    assert!(matches!(a1, SeismicAction::FetchTeePubkey));
    assert!(matches!(s1, SeismicState::AwaitingTeePubkey { .. }));
    let (s2, a2) = step_with_material(s1, SeismicEvent::TeePubkey(Ok(network_pk())), &m);
    let sent = expect_forwarded_builder(a2);
    let elements = sent.seismic_elements.clone().unwrap();
    assert_eq!(elements.encryption_pubkey, m.keypair.public_key);
    assert_eq!(elements.encryption_nonce, m.nonce);
    assert_eq!(sent.nonce, Some(3));
    assert_eq!(sent.from, Some([0x11; 20]));
    let ct = sent.input.input.clone().unwrap();
    assert_ne!(ct, plaintext);
    assert_eq!(network_decrypt(&ct, &elements), plaintext);
    let output = b"return data".to_vec();
    let encrypted_output = network_encrypt(&output, &elements);
    let (s3, a3) = step_with_material(s2, SeismicEvent::InnerReplied(Some(encrypted_output)), &m);
    assert!(matches!(s3, SeismicState::Finished));
    match a3 {
        SeismicAction::ReturnOutput(p) => assert_eq!(p, output),
        other => panic!("expected output, got {:?}", other),
    }
}

#[test]
fn shielded_call_with_random_material() {
    let plaintext = vec![1, 2, 3, 4, 5];
    let tx = request_with(Some(plaintext.clone()), Some(0));
    let p = SeismicProvider::new(());
    let (s1, a1) = p.begin_seismic_call(SendableTx::Builder(tx));
    assert!(matches!(a1, SeismicAction::FetchTeePubkey));
    let (s2, a2) = step(s1, SeismicEvent::TeePubkey(Ok(network_pk())));
    let sent = expect_forwarded_builder(a2);
    let elements = sent.seismic_elements.clone().unwrap();
    assert_eq!(network_decrypt(sent.input.input.as_ref().unwrap(), &elements), plaintext);
    let encrypted_output = network_encrypt(b"out", &elements);
    let (_, a3) = step(s2, SeismicEvent::InnerReplied(Some(encrypted_output)));
    assert!(matches!(a3, SeismicAction::ReturnOutput(ref o) if o == b"out"));
}

#[test]
fn shielded_call_output_that_does_not_decrypt_fails() {
    let m = fixed_material();
    let tx = request_with(Some(vec![1]), Some(0));
    let (s1, _) = step_with_material(SeismicState::Idle, SeismicEvent::Begin { op: Operation::Call, tx: SendableTx::Builder(tx) }, &m);
    let (s2, _) = step_with_material(s1, SeismicEvent::TeePubkey(Ok(network_pk())), &m);
    let (_, a3) = step_with_material(s2, SeismicEvent::InnerReplied(Some(vec![1, 2, 3])), &m);
    assert!(matches!(a3, SeismicAction::Fail(SeismicError::Decryption(_))));
}

#[test]
fn shielded_send_hands_back_inner_result() {
    let m = fixed_material();
    let tx = request_with(Some(vec![1, 2]), Some(9));
    let (s1, a1) = SeismicProvider::new(()).begin_send_transaction(SendableTx::Builder(tx));
    assert!(matches!(a1, SeismicAction::FetchTeePubkey));
    let (s2, a2) = step_with_material(s1, SeismicEvent::TeePubkey(Ok(network_pk())), &m);
    let sent = expect_forwarded_builder(a2);
    assert_eq!(network_decrypt(sent.input.input.as_ref().unwrap(), sent.seismic_elements.as_ref().unwrap()), vec![1, 2]);
    let (s3, a3) = step_with_material(s2, SeismicEvent::InnerReplied(None), &m);
    assert!(matches!(a3, SeismicAction::ReturnInnerResult));
    assert!(matches!(s3, SeismicState::Finished));
}

#[test]
fn unshielded_requests_pass_through() {
    let p = SeismicProvider::new(());
    // Not a Seismic transaction, and no nonce yet.
    let (s1, a1) = p.begin_seismic_call(SendableTx::Builder(eip1559_request(Some(vec![1]), None)));
    let fwd = expect_forwarded_builder(a1);
    assert_eq!(fwd.input.input, Some(vec![1]));
    assert!(fwd.seismic_elements.is_none());
    let (_, a2) = step(s1, SeismicEvent::InnerReplied(Some(vec![5, 6])));
    assert!(matches!(a2, SeismicAction::ReturnInnerResult));
    // Empty calldata.
    let (_, a3) = p.begin_send_transaction(SendableTx::Builder(request_with(Some(vec![]), Some(1))));
    assert!(expect_forwarded_builder(a3).seismic_elements.is_none());
    // A signed envelope.
    let (_, a4) = p.begin_seismic_call(SendableTx::Envelope(vec![0x4a, 1, 2]));
    assert!(matches!(a4, SeismicAction::Forward(SendableTx::Envelope(ref e)) if e == &vec![0x4a, 1, 2]));
}

/// A compressed encoding whose x coordinate is not below the field prime.
fn off_curve_key() -> Vec<u8> {
    let mut k = vec![0xff; 33];
    k[0] = 0x02;
    k
}

#[test]
fn tee_pubkey_errors_end_the_flow() {
    let p = SeismicProvider::new(());
    let (s1, _) = p.begin_seismic_call(SendableTx::Builder(request_with(Some(vec![1]), Some(1))));
    let (s2, a2) = step(s1, SeismicEvent::TeePubkey(Err("unreachable".to_string())));
    assert!(matches!(a2, SeismicAction::Fail(SeismicError::TeePubkey(ref m)) if m == "unreachable"));
    assert!(matches!(s2, SeismicState::Finished));
    let (s1, _) = p.begin_seismic_call(SendableTx::Builder(request_with(Some(vec![1]), Some(1))));
    let (_, a3) = step(s1, SeismicEvent::TeePubkey(Ok(off_curve_key())));
    assert!(matches!(a3, SeismicAction::Fail(SeismicError::InvalidTeePubkey(_))));
}

#[test]
fn events_out_of_order_fail() {
    let (s, a) = step(SeismicState::Idle, SeismicEvent::InnerReplied(None));
    assert!(matches!(a, SeismicAction::Fail(SeismicError::OutOfOrder)));
    let (_, a2) = step(s, SeismicEvent::Begin { op: Operation::Call, tx: SendableTx::Envelope(vec![]) });
    assert!(matches!(a2, SeismicAction::Fail(SeismicError::OutOfOrder)));
}

#[test]
fn built_request_is_sent_encrypted_before_its_nonce_is_filled() {
    let m = fixed_material();
    let plaintext = vec![9, 8, 7, 6];
    let tx = build_seismic_tx(plaintext.clone(), TxKind::Create, [0x55; 20]);
    let (s1, a1) = step_with_material(SeismicState::Idle, SeismicEvent::Begin { op: Operation::Send, tx: SendableTx::Builder(tx) }, &m);
    assert!(matches!(a1, SeismicAction::FetchTeePubkey));
    let (_, a2) = step_with_material(s1, SeismicEvent::TeePubkey(Ok(network_pk())), &m);
    let sent = expect_forwarded_builder(a2);
    assert_eq!(sent.nonce, None);
    assert_eq!(sent.transaction_type, Some(74));
    assert_eq!(sent.input.data, None);
    let ct = sent.input.input.clone().unwrap();
    assert_ne!(ct, plaintext);
    assert_eq!(network_decrypt(&ct, sent.seismic_elements.as_ref().unwrap()), plaintext);
}

#[test]
fn calldata_in_data_place_leaves_only_encrypted() {
    let m = fixed_material();
    let mut tx = request_with(None, Some(2));
    tx.input.data = Some(b"secret".to_vec());
    let (s1, a1) = step_with_material(SeismicState::Idle, SeismicEvent::Begin { op: Operation::Call, tx: SendableTx::Builder(tx) }, &m);
    assert!(matches!(a1, SeismicAction::FetchTeePubkey));
    let (_, a2) = step_with_material(s1, SeismicEvent::TeePubkey(Ok(network_pk())), &m);
    let sent = expect_forwarded_builder(a2);
    assert_eq!(sent.input.data, None);
    let ct = sent.input.input.clone().unwrap();
    assert_eq!(network_decrypt(&ct, sent.seismic_elements.as_ref().unwrap()), b"secret".to_vec());
}

#[test]
fn shielding_keeps_the_other_fields() {
    let m = fixed_material();
    let tx = request_with(Some(vec![1, 2, 3]), Some(4));
    let (s1, _) = step_with_material(SeismicState::Idle, SeismicEvent::Begin { op: Operation::Send, tx: SendableTx::Builder(tx) }, &m);
    let (_, a2) = step_with_material(s1, SeismicEvent::TeePubkey(Ok(network_pk())), &m);
    let sent = expect_forwarded_builder(a2);
    assert_eq!(sent.from, Some([0x11; 20]));
    assert!(matches!(sent.to, Some(TxKind::Call(a)) if a == [0x22; 20]));
    assert_eq!(sent.max_fee_per_gas, Some(30_000_000_000));
    assert_eq!(sent.max_priority_fee_per_gas, Some(1_000_000_000));
    assert_eq!(sent.gas, Some(21_000));
    assert_eq!(sent.value, Some([0x01; 32]));
    assert_eq!(sent.nonce, Some(4));
    assert_eq!(sent.chain_id, Some(5124));
    let al = sent.access_list.as_ref().unwrap();
    assert_eq!(al.len(), 1);
    assert_eq!(al[0].address, [0x33; 20]);
    assert_eq!(al[0].storage_keys, vec![[0x44; 32]]);
    assert_eq!(sent.transaction_type, Some(74));
}

#[test]
fn error_messages_keep_their_cause() {
    let m = fixed_material();
    let elements = m.elements();
    match elements.client_decrypt(&[1, 2, 3], &network_pk(), &m.keypair.secret_key) {
        Err(SeismicError::Decryption(msg)) => assert!(!msg.is_empty()),
        other => panic!("expected a decryption error, got {:?}", other),
    }
    match public_key_from_bytes(&off_curve_key()) {
        Err(SeismicError::InvalidTeePubkey(msg)) => assert_eq!(msg, "malformed public key"),
        other => panic!("expected an invalid key, got {:?}", other),
    }
    match public_key_from_bytes(&network_pk()[..32]) {
        Err(SeismicError::InvalidTeePubkey(msg)) => assert_eq!(msg, "expected the 33 bytes of a compressed public key"),
        other => panic!("expected an invalid key, got {:?}", other),
    }
}
