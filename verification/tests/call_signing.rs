use ed25519_dalek::{Signature, Signer, SigningKey, Verifier, VerifyingKey};
use holochain_zome_types::prelude::{
    AgentPubKey, CapSecret, CellId, DnaHash, ExternIO, FunctionName, Timestamp, ZomeCallUnsigned,
    ZomeName,
};
use moss_keystore::call::{validate, ZomeCallNapi, ZomeCallUnsignedNapi};
use moss_keystore::error::{CallDefect, KeystoreError};
use moss_keystore::hash_id::{from_raw_32, HashKind};
use moss_keystore::signer::{
    canonicalize, complete_raw_signing, complete_signing, prepare_raw_signing, prepare_signing,
    raw_signing_key, request_from_digest, signing_key, SignRequest,
};

const DNA_TEXT: &str = "uhC0kWCsAgoKkkfwyJAglj30xX_GLLV-3BXuFy436a2SqpcEwyBzm";
const AGENT_TEXT: &str = "uhCAkWCsAgoKkkfwyJAglj30xX_GLLV-3BXuFy436a2SqpcEwyBzm";

const TEST_SEED: [u8; 32] = [
    0x9d, 0x61, 0xb1, 0x9d, 0xef, 0xfd, 0x5a, 0x60, 0xba, 0x84, 0x4a, 0xf4, 0x92, 0xec, 0x2c, 0xc4,
    0x44, 0x49, 0xc5, 0x69, 0x7b, 0x32, 0x69, 0x19, 0x70, 0x3b, 0xac, 0x03, 0x1c, 0xae, 0x7f, 0x60,
];

const TEST_PUBLIC: [u8; 32] = [
    0xd7, 0x5a, 0x98, 0x01, 0x82, 0xb1, 0x0a, 0xb7, 0xd5, 0x4b, 0xfe, 0xd3, 0xc9, 0x64, 0x07, 0x3a,
    0x0e, 0xe1, 0x72, 0xf3, 0xda, 0xa6, 0x23, 0x25, 0xaf, 0x02, 0x1a, 0x68, 0xf7, 0x07, 0x51, 0x1a,
];

fn decode_id(text: &str) -> Vec<u8> {
    base64::decode_config(&text[1..], base64::URL_SAFE_NO_PAD).unwrap()
}

fn sample_call() -> ZomeCallUnsignedNapi {
    ZomeCallUnsignedNapi {
        cell_id: vec![decode_id(DNA_TEXT), decode_id(AGENT_TEXT)],
        zome_name: "profiles".to_string(),
        fn_name: "get_profile".to_string(),
        payload: vec![0xc0],
        cap_secret: Some(vec![7; 64]),
        provenance: from_raw_32(HashKind::Agent, &TEST_PUBLIC),
        nonce: vec![3; 32],
        expires_at: 1_700_000_000_000_000,
    }
}

/// A keystore that holds the test key and counts what it is asked.
struct CountingKeystore {
    key: SigningKey,
    calls: usize,
}

impl CountingKeystore {
    fn new() -> Self {
        CountingKeystore { key: SigningKey::from_bytes(&TEST_SEED), calls: 0 }
    }

    fn sign_by_pub_key(&mut self, public_key: [u8; 32], message: &[u8]) -> Result<[u8; 64], String> {
        self.calls += 1;
        if public_key != self.key.verifying_key().to_bytes() {
            return Err("no such key".to_string());
        }
        Ok(self.key.sign(message).to_bytes())
    }
}

fn sign(keystore: &mut CountingKeystore, call: ZomeCallUnsignedNapi) -> Result<ZomeCallNapi, KeystoreError> {
    let request = prepare_signing(&call)?;
    let response = keystore.sign_by_pub_key(request.public_key, &request.message);
    complete_signing(call, response)
}

fn verifies(public_key: &[u8; 32], message: &[u8], signature: &[u8]) -> bool {
    let key = VerifyingKey::from_bytes(public_key).unwrap();
    let mut raw = [0u8; 64];
    raw.copy_from_slice(signature);
    key.verify(message, &Signature::from_bytes(&raw)).is_ok()
}

fn independent_digest(call: &ZomeCallUnsignedNapi) -> Vec<u8> {
    let secret: Option<CapSecret> = call.cap_secret.clone().map(|s| {
        let mut raw = [0u8; 64];
        raw.copy_from_slice(&s);
        CapSecret::from(raw)
    });
    let mut nonce = [0u8; 32];
    nonce.copy_from_slice(&call.nonce);
    let unsigned = ZomeCallUnsigned {
        provenance: AgentPubKey::from_raw_39(call.provenance.clone()).unwrap(),
        cell_id: CellId::new(
            DnaHash::from_raw_39(call.cell_id[0].clone()).unwrap(),
            AgentPubKey::from_raw_39(call.cell_id[1].clone()).unwrap(),
        ),
        zome_name: ZomeName::from(call.zome_name.clone()),
        fn_name: FunctionName::from(call.fn_name.clone()),
        cap_secret: secret,
        payload: ExternIO::from(call.payload.clone()),
        nonce: nonce.into(),
        expires_at: Timestamp(call.expires_at),
    };
    unsigned.data_to_sign().unwrap().to_vec()
}

#[test]
fn test_key_pair_is_consistent() {
    assert_eq!(SigningKey::from_bytes(&TEST_SEED).verifying_key().to_bytes(), TEST_PUBLIC);
}

#[test]
fn valid_call_passes_validation() {
    assert_eq!(validate(&sample_call()), Ok(()));
    let mut no_secret = sample_call();
    no_secret.cap_secret = None;
    assert_eq!(validate(&no_secret), Ok(()));
}

#[test]
fn validation_names_the_first_defect() {
    let mut call = sample_call();
    call.cell_id = Vec::new();
    assert_eq!(validate(&call), Err(CallDefect::CellId));

    let mut call = sample_call();
    call.cell_id.pop();
    assert_eq!(validate(&call), Err(CallDefect::CellId));

    let mut call = sample_call();
    call.cell_id.push(decode_id(AGENT_TEXT));
    assert_eq!(validate(&call), Err(CallDefect::CellId));

    let mut call = sample_call();
    call.cell_id[0] = decode_id(AGENT_TEXT);
    assert_eq!(validate(&call), Err(CallDefect::DnaHash));

    let mut call = sample_call();
    call.cell_id[1] = decode_id(DNA_TEXT);
    assert_eq!(validate(&call), Err(CallDefect::AgentPubKey));

    let mut call = sample_call();
    call.cell_id[1].pop();
    assert_eq!(validate(&call), Err(CallDefect::AgentPubKey));

    let mut call = sample_call();
    call.cap_secret = Some(vec![7; 63]);
    assert_eq!(validate(&call), Err(CallDefect::CapSecret));

    let mut call = sample_call();
    call.provenance = decode_id(DNA_TEXT);
    assert_eq!(validate(&call), Err(CallDefect::Provenance));

    let mut call = sample_call();
    call.provenance = Vec::new();
    assert_eq!(validate(&call), Err(CallDefect::Provenance));

    let mut call = sample_call();
    call.nonce = vec![3; 31];
    assert_eq!(validate(&call), Err(CallDefect::Nonce));

    let mut call = sample_call();
    call.cell_id[0] = Vec::new();
    call.nonce = Vec::new();
    assert_eq!(validate(&call), Err(CallDefect::DnaHash));
}

#[test]
fn canonical_bytes_are_deterministic() {
    let first = canonicalize(&sample_call()).unwrap();
    let second = canonicalize(&sample_call()).unwrap();
    assert_eq!(first, second);
    assert_eq!(first.len(), 32);
    assert_eq!(canonicalize(&sample_call().clone()).unwrap(), first);
}

#[test]
fn canonical_bytes_are_those_of_the_zome_call() {
    let call = sample_call();
    assert_eq!(canonicalize(&call).unwrap(), independent_digest(&call));
    let mut no_secret = sample_call();
    no_secret.cap_secret = None;
    assert_eq!(canonicalize(&no_secret).unwrap(), independent_digest(&no_secret));
    assert_ne!(canonicalize(&call).unwrap(), call.payload);
}

#[test]
fn canonical_bytes_change_with_every_field() {
    let base = canonicalize(&sample_call()).unwrap();

    let mut call = sample_call();
    call.cell_id[0][10] ^= 1;
    assert_ne!(canonicalize(&call).unwrap(), base);

    let mut call = sample_call();
    call.cell_id[1][10] ^= 1;
    assert_ne!(canonicalize(&call).unwrap(), base);

    let mut call = sample_call();
    call.zome_name = "profile".to_string();
    assert_ne!(canonicalize(&call).unwrap(), base);

    let mut call = sample_call();
    call.fn_name = "get_profiles".to_string();
    assert_ne!(canonicalize(&call).unwrap(), base);

    let mut call = sample_call();
    call.payload = vec![0xc0, 0xc0];
    assert_ne!(canonicalize(&call).unwrap(), base);

    let mut call = sample_call();
    call.cap_secret = None;
    assert_ne!(canonicalize(&call).unwrap(), base);

    let mut call = sample_call();
    call.cap_secret = Some(vec![8; 64]);
    assert_ne!(canonicalize(&call).unwrap(), base);

    let mut call = sample_call();
    call.provenance = decode_id(AGENT_TEXT);
    assert_ne!(canonicalize(&call).unwrap(), base);

    let mut call = sample_call();
    call.nonce[31] ^= 1;
    assert_ne!(canonicalize(&call).unwrap(), base);

    let mut call = sample_call();
    call.expires_at += 1;
    assert_ne!(canonicalize(&call).unwrap(), base);
}

#[test]
fn canonicalize_rejects_malformed_calls() {
    let mut call = sample_call();
    call.cell_id.pop();
    assert_eq!(canonicalize(&call), Err(KeystoreError::MalformedCall(CallDefect::CellId)));
    let mut call = sample_call();
    call.nonce.push(0);
    assert_eq!(canonicalize(&call), Err(KeystoreError::MalformedCall(CallDefect::Nonce)));
}

#[test]
fn signing_key_is_the_core_of_the_provenance() {
    assert_eq!(signing_key(&sample_call()), Ok(TEST_PUBLIC));
    let mut call = sample_call();
    call.provenance[38] ^= 1;
    assert_eq!(signing_key(&call), Err(KeystoreError::MalformedKey));
    let mut call = sample_call();
    call.provenance[5] ^= 1;
    assert_eq!(signing_key(&call), Err(KeystoreError::MalformedKey));
    let mut call = sample_call();
    call.provenance[1] = 0x2d;
    assert_eq!(signing_key(&call), Err(KeystoreError::MalformedCall(CallDefect::Provenance)));
}

#[test]
fn request_from_digest_joins_or_fails() {
    assert_eq!(
        request_from_digest([1; 32], Ok(vec![2; 32])),
        Ok(SignRequest { public_key: [1; 32], message: vec![2; 32] })
    );
    assert_eq!(
        request_from_digest([1; 32], Err("no".to_string())),
        Err(KeystoreError::MalformedCall(CallDefect::NotEncodable))
    );
}

#[test]
fn prepared_request_holds_key_and_canonical_bytes() {
    let call = sample_call();
    let request = prepare_signing(&call).unwrap();
    assert_eq!(request.public_key, TEST_PUBLIC);
    assert_eq!(request.message, canonicalize(&call).unwrap());
    assert_eq!(request.message, independent_digest(&call));
}

#[test]
fn signed_call_verifies_and_keeps_every_field() {
    let mut keystore = CountingKeystore::new();
    let call = sample_call();
    let signed = sign(&mut keystore, call.clone()).unwrap();
    assert_eq!(keystore.calls, 1);
    assert_eq!(signed.cell_id, call.cell_id);
    assert_eq!(signed.zome_name, call.zome_name);
    assert_eq!(signed.fn_name, call.fn_name);
    assert_eq!(signed.payload, call.payload);
    assert_eq!(signed.cap_secret, call.cap_secret);
    assert_eq!(signed.provenance, call.provenance);
    assert_eq!(signed.nonce, call.nonce);
    assert_eq!(signed.expires_at, call.expires_at);
    assert_eq!(signed.signature.len(), 64);

    let message = canonicalize(&call).unwrap();
    let mut embedded = [0u8; 32];
    embedded.copy_from_slice(&signed.provenance[3..35]);
    assert!(verifies(&embedded, &message, &signed.signature));
}

#[test]
fn any_flipped_bit_fails_verification() {
    let mut keystore = CountingKeystore::new();
    let call = sample_call();
    let signed = sign(&mut keystore, call.clone()).unwrap();
    let message = canonicalize(&call).unwrap();
    for byte in 0..message.len() {
        for bit in 0..8 {
            let mut changed = message.clone();
            changed[byte] ^= 1 << bit;
            assert!(!verifies(&TEST_PUBLIC, &changed, &signed.signature));
        }
    }
    for byte in 0..signed.signature.len() {
        for bit in 0..8 {
            let mut changed = signed.signature.clone();
            changed[byte] ^= 1 << bit;
            assert!(!verifies(&TEST_PUBLIC, &message, &changed));
        }
    }
}

#[test]
fn malformed_calls_never_reach_the_keystore() {
    let mut keystore = CountingKeystore::new();

    let mut one_identifier = sample_call();
    one_identifier.cell_id.pop();
    assert_eq!(
        sign(&mut keystore, one_identifier),
        Err(KeystoreError::MalformedCall(CallDefect::CellId))
    );

    let mut no_identifier = sample_call();
    no_identifier.cell_id = Vec::new();
    assert_eq!(
        sign(&mut keystore, no_identifier),
        Err(KeystoreError::MalformedCall(CallDefect::CellId))
    );

    let mut short_provenance = sample_call();
    short_provenance.provenance.pop();
    assert_eq!(
        sign(&mut keystore, short_provenance),
        Err(KeystoreError::MalformedCall(CallDefect::Provenance))
    );

    let mut wrong_prefix = sample_call();
    wrong_prefix.provenance[1] = 0x21;
    assert_eq!(
        sign(&mut keystore, wrong_prefix),
        Err(KeystoreError::MalformedCall(CallDefect::Provenance))
    );

    let mut wrong_suffix = sample_call();
    wrong_suffix.provenance[36] ^= 0xff;
    assert_eq!(sign(&mut keystore, wrong_suffix), Err(KeystoreError::MalformedKey));

    assert_eq!(keystore.calls, 0);
}

#[test]
fn refusal_of_the_keystore_is_a_signing_error() {
    let mut keystore = CountingKeystore::new();
    let mut call = sample_call();
    call.provenance = decode_id(AGENT_TEXT);
    assert_eq!(
        sign(&mut keystore, call),
        Err(KeystoreError::Signing("no such key".to_string()))
    );
    assert_eq!(keystore.calls, 1);
    assert_eq!(
        complete_signing(sample_call(), Err("channel closed".to_string())),
        Err(KeystoreError::Signing("channel closed".to_string()))
    );
}

#[test]
fn complete_signing_attaches_the_signature() {
    let signed = complete_signing(sample_call(), Ok([5; 64])).unwrap();
    assert_eq!(signed.signature, vec![5; 64]);
    assert_eq!(signed.zome_name, "profiles");
}

#[test]
fn bare_agent_key_gives_its_core() {
    let agent = decode_id(AGENT_TEXT);
    assert_eq!(raw_signing_key(&agent).unwrap().to_vec(), agent[3..35].to_vec());
    assert_eq!(raw_signing_key(&decode_id(DNA_TEXT)), Err(KeystoreError::MalformedKey));
    assert_eq!(raw_signing_key(&Vec::new()), Err(KeystoreError::MalformedKey));
    let mut bad = agent.clone();
    bad[35] ^= 1;
    assert_eq!(raw_signing_key(&bad), Err(KeystoreError::MalformedKey));
}

#[test]
fn bare_payload_is_signed_as_it_is() {
    let mut keystore = CountingKeystore::new();
    let agent = from_raw_32(HashKind::Agent, &TEST_PUBLIC);
    let request = prepare_raw_signing(vec![1, 2, 3], &agent).unwrap();
    assert_eq!(request, SignRequest { public_key: TEST_PUBLIC, message: vec![1, 2, 3] });
    let response = keystore.sign_by_pub_key(request.public_key, &request.message);
    let signature = complete_raw_signing(response).unwrap();
    assert!(verifies(&TEST_PUBLIC, &[1, 2, 3], &signature));
    assert!(!verifies(&TEST_PUBLIC, &[1, 2, 4], &signature));

    assert_eq!(
        prepare_raw_signing(vec![1, 2, 3], &agent[..38].to_vec()),
        Err(KeystoreError::MalformedKey)
    );
    assert_eq!(
        complete_raw_signing(Err("gone".to_string())),
        Err(KeystoreError::Signing("gone".to_string()))
    );
    assert_eq!(complete_raw_signing(Ok([3; 64])), Ok(vec![3; 64]));
}
