//! Signing of calls: from an unsigned call to the request that the keystore
//! answers, and from its answer to the signed call.

use vstd::prelude::*;
use holochain_zome_types::prelude::{
    AgentPubKey, CapSecret, CellId, DnaHash, ExternIO, FunctionName, Timestamp,
    ZomeCallUnsigned, ZomeName,
};
use crate::call::{first_defect, is_valid, validate, UnsignedCall, ZomeCallNapi, ZomeCallUnsignedNapi};
use crate::error::{CallDefect, KeystoreError};
use crate::hash_id::{
    checked_identifier_is_rebuilt_from_its_core, core_of, has_valid_suffix, identifier_of,
    is_well_shaped, raw_32, suffix_matches, well_shaped, HashKind,
};
use crate::utils::{arr_to_vec, copy_bytes, vec_to_arr};

verus! {

/// What the keystore is asked to sign, and with which key.
#[derive(Clone, Debug, PartialEq, Eq)]
pub struct SignRequest {
    /// The Ed25519 public key taken from the provenance of the call.
    pub public_key: [u8; 32],
    /// The canonical bytes of the call.
    pub message: Vec<u8>,
}

/// What `holochain_zome_types` gives as the bytes to sign for a call with
/// these fields: a digest of its serialized form, or the reason why it
/// could not be serialized.
pub uninterp spec fn signable_digest(
    provenance: Seq<u8>,
    dna: Seq<u8>,
    agent: Seq<u8>,
    zome_name: Seq<char>,
    fn_name: Seq<char>,
    cap_secret: Option<Seq<u8>>,
    payload: Seq<u8>,
    nonce: Seq<u8>,
    expires_at: i64,
) -> Result<Seq<u8>, Seq<char>>;

/// The plain content of a digest result.
pub open spec fn digest_view(digest: Result<Vec<u8>, String>) -> Result<Seq<u8>, Seq<char>> {
    match digest {
        Ok(bytes) => Ok(bytes@),
        Err(cause) => Err(cause@),
    }
}

/// The canonical bytes of a valid call.
pub open spec fn canonical_bytes(call: UnsignedCall) -> Result<Seq<u8>, Seq<char>> {
    signable_digest(
        call.provenance,
        call.cell_id[0],
        call.cell_id[1],
        call.zome_name,
        call.fn_name,
        call.cap_secret,
        call.payload,
        call.nonce,
        call.expires_at,
    )
}

/// The result of preparing a call for signing, given the digest of a valid
/// call: the key and the message, or the failure.
pub open spec fn prepared(call: UnsignedCall, digest: Result<Seq<u8>, Seq<char>>) -> Result<
    (Seq<u8>, Seq<u8>),
    KeystoreError,
> {
    match first_defect(call) {
        Some(defect) => Err(KeystoreError::MalformedCall(defect)),
        None => if !suffix_matches(call.provenance) {
            Err(KeystoreError::MalformedKey)
        } else {
            match digest {
                Ok(message) => Ok((core_of(call.provenance), message)),
                Err(_) => Err(KeystoreError::MalformedCall(CallDefect::NotEncodable)),
            }
        },
    }
}

/// The plain content of a prepared request.
pub open spec fn request_view(r: Result<SignRequest, KeystoreError>) -> Result<
    (Seq<u8>, Seq<u8>),
    KeystoreError,
> {
    match r {
        Ok(request) => Ok((request.public_key@, request.message@)),
        Err(e) => Err(e),
    }
}

/// `ZomeCallUnsigned::data_to_sign` of `holochain_zome_types`, on a call
/// assembled from the given fields: the digest of the serialized call, 32
/// bytes long, or the text of the serialization error. The identifiers must
/// carry their prefixes, as the outside constructors demand.
#[verifier::external_body]
fn data_to_sign(
    provenance: Vec<u8>,
    dna: Vec<u8>,
    agent: Vec<u8>,
    zome_name: String,
    fn_name: String,
    cap_secret: Option<[u8; 64]>,
    payload: Vec<u8>,
    nonce: [u8; 32],
    expires_at: i64,
) -> (digest: Result<Vec<u8>, String>)
    requires
        well_shaped(provenance@, HashKind::Agent),
        well_shaped(dna@, HashKind::Dna),
        well_shaped(agent@, HashKind::Agent),
    ensures
        digest_view(digest) == signable_digest(
            provenance@,
            dna@,
            agent@,
            zome_name@,
            fn_name@,
            match cap_secret {
                Some(secret) => Some(secret@),
                None => None,
            },
            payload@,
            nonce@,
            expires_at,
        ),
        digest matches Ok(bytes) ==> bytes@.len() == 32,
{
    let unsigned = ZomeCallUnsigned {
        provenance: AgentPubKey::from_raw_39_panicky(provenance),
        cell_id: CellId::new(
            DnaHash::from_raw_39_panicky(dna),
            AgentPubKey::from_raw_39_panicky(agent),
        ),
        zome_name: ZomeName::from(zome_name),
        fn_name: FunctionName::from(fn_name),
        cap_secret: cap_secret.map(CapSecret::from),
        payload: ExternIO::from(payload),
        nonce: nonce.into(),
        expires_at: Timestamp(expires_at),
    };
    unsigned.data_to_sign().map(|d| d.to_vec()).map_err(|e| format!("{e}"))
}

/// Extracts the Ed25519 public key from the provenance of a valid call,
/// after checking that the suffix belongs to it.
pub fn signing_key(call: &ZomeCallUnsignedNapi) -> (r: Result<[u8; 32], KeystoreError>)
    ensures
        match r {
            Ok(key) => is_valid(call@) && suffix_matches(call@.provenance) && key@ == core_of(
                call@.provenance,
            ),
            Err(e) => match first_defect(call@) {
                Some(defect) => e == KeystoreError::MalformedCall(defect),
                None => !suffix_matches(call@.provenance) && e == KeystoreError::MalformedKey,
            },
        },
{
    match validate(call) {
        Err(defect) => Err(KeystoreError::MalformedCall(defect)),
        Ok(()) => {
            if has_valid_suffix(&call.provenance) {
                Ok(raw_32(&call.provenance))
            } else {
                Err(KeystoreError::MalformedKey)
            }
        },
    }
}

/// Extracts the Ed25519 public key from an agent key given on its own.
/// Anything but 39 bytes with the agent prefix and the suffix that belongs
/// to the core is refused.
pub fn raw_signing_key(agent_key: &Vec<u8>) -> (r: Result<[u8; 32], KeystoreError>)
    ensures
        match r {
            Ok(key) => well_shaped(agent_key@, HashKind::Agent) && suffix_matches(agent_key@)
                && key@ == core_of(agent_key@),
            Err(e) => e == KeystoreError::MalformedKey && !(well_shaped(
                agent_key@,
                HashKind::Agent,
            ) && suffix_matches(agent_key@)),
        },
{
    if is_well_shaped(agent_key, HashKind::Agent) && has_valid_suffix(agent_key) {
        Ok(raw_32(agent_key))
    } else {
        Err(KeystoreError::MalformedKey)
    }
}

/// Prepares the request to sign bytes that the caller has made canonical
/// already, with the key of the given agent.
pub fn prepare_raw_signing(payload: Vec<u8>, agent_key: &Vec<u8>) -> (r: Result<
    SignRequest,
    KeystoreError,
>)
    ensures
        match r {
            Ok(request) => well_shaped(agent_key@, HashKind::Agent) && suffix_matches(agent_key@)
                && request.public_key@ == core_of(agent_key@) && request.message == payload,
            Err(e) => e == KeystoreError::MalformedKey && !(well_shaped(
                agent_key@,
                HashKind::Agent,
            ) && suffix_matches(agent_key@)),
        },
{
    match raw_signing_key(agent_key) {
        Ok(key) => Ok(SignRequest { public_key: key, message: payload }),
        Err(e) => Err(e),
    }
}

/// Hands on the keystore's answer to a request for a bare signature.
pub fn complete_raw_signing(response: Result<[u8; 64], String>) -> (r: Result<
    Vec<u8>,
    KeystoreError,
>)
    ensures
        match response {
            Ok(signature) => r matches Ok(bytes) && bytes@ == signature@,
            Err(cause) => r matches Err(KeystoreError::Signing(text)) && text@ == cause@,
        },
{
    match response {
        Ok(signature) => Ok(arr_to_vec(&signature)),
        Err(cause) => Err(KeystoreError::Signing(cause)),
    }
}

/// Serializes and digests a valid call.
fn digest_of(call: &ZomeCallUnsignedNapi) -> (digest: Result<Vec<u8>, String>)
    requires
        is_valid(call@),
    ensures
        digest_view(digest) == canonical_bytes(call@),
        digest matches Ok(bytes) ==> bytes@.len() == 32,
{
    let cap_secret: Option<[u8; 64]> = match &call.cap_secret {
        Some(secret) => Some(vec_to_arr(copy_bytes(secret))),
        None => None,
    };
    let nonce: [u8; 32] = vec_to_arr(copy_bytes(&call.nonce));
    data_to_sign(
        copy_bytes(&call.provenance),
        copy_bytes(&call.cell_id[0]),
        copy_bytes(&call.cell_id[1]),
        call.zome_name.clone(),
        call.fn_name.clone(),
        cap_secret,
        copy_bytes(&call.payload),
        nonce,
        call.expires_at,
    )
}

/// The canonical bytes of a call: the exact bytes that must be signed.
/// Fails on a call that breaks a shape rule, and names the rule.
pub fn canonicalize(call: &ZomeCallUnsignedNapi) -> (r: Result<Vec<u8>, KeystoreError>)
    ensures
        match r {
            Ok(bytes) => is_valid(call@) && canonical_bytes(call@) == Ok::<Seq<u8>, Seq<char>>(
                bytes@,
            ) && bytes@.len() == 32,
            Err(e) => match first_defect(call@) {
                Some(defect) => e == KeystoreError::MalformedCall(defect),
                None => canonical_bytes(call@) is Err && e == KeystoreError::MalformedCall(
                    CallDefect::NotEncodable,
                ),
            },
        },
{
    match validate(call) {
        Err(defect) => Err(KeystoreError::MalformedCall(defect)),
        Ok(()) => match digest_of(call) {
            Ok(bytes) => Ok(bytes),
            Err(_) => Err(KeystoreError::MalformedCall(CallDefect::NotEncodable)),
        },
    }
}

/// Joins the key of a call and the digest of that call into the request
/// for the keystore.
pub fn request_from_digest(key: [u8; 32], digest: Result<Vec<u8>, String>) -> (r: Result<
    SignRequest,
    KeystoreError,
>)
    ensures
        match digest {
            Ok(bytes) => r matches Ok(request) && request.public_key == key && request.message@
                == bytes@,
            Err(_) => r == Err::<SignRequest, KeystoreError>(
                KeystoreError::MalformedCall(CallDefect::NotEncodable),
            ),
        },
{
    match digest {
        Ok(bytes) => Ok(SignRequest { public_key: key, message: bytes }),
        Err(_) => Err(KeystoreError::MalformedCall(CallDefect::NotEncodable)),
    }
}

/// Validates a call and prepares the one request that signing it takes.
/// A call that is rejected yields no request, so nothing reaches the
/// keystore for it.
pub fn prepare_signing(call: &ZomeCallUnsignedNapi) -> (r: Result<SignRequest, KeystoreError>)
    ensures
        request_view(r) == prepared(call@, canonical_bytes(call@)),
        r is Ok ==> is_valid(call@) && suffix_matches(call@.provenance),
{
    match signing_key(call) {
        Err(e) => Err(e),
        Ok(key) => {
            let digest = digest_of(call);
            request_from_digest(key, digest)
        },
    }
}

/// Joins a call and the keystore's answer to its signing request into the
/// signed call. Every field of the call is kept; a refusal of the keystore
/// is handed on with its cause.
pub fn complete_signing(call: ZomeCallUnsignedNapi, response: Result<[u8; 64], String>) -> (r:
    Result<ZomeCallNapi, KeystoreError>)
    ensures
        match response {
            Ok(signature) => r matches Ok(signed) && signed@.call == call@ && signed@.signature
                == signature@,
            Err(cause) => r matches Err(KeystoreError::Signing(text)) && text@ == cause@,
        },
{
    match response {
        Ok(signature) => Ok(
            ZomeCallNapi {
                cell_id: call.cell_id,
                zome_name: call.zome_name,
                fn_name: call.fn_name,
                payload: call.payload,
                cap_secret: call.cap_secret,
                provenance: call.provenance,
                nonce: call.nonce,
                expires_at: call.expires_at,
                signature: arr_to_vec(&signature),
            },
        ),
        Err(cause) => Err(KeystoreError::Signing(cause)),
    }
}

/// A call that breaks a shape rule, or whose provenance carries a suffix
/// that does not belong to its key, yields no request, whatever its digest
/// would be: the failure names the rule, and nothing is left to hand to
/// the keystore.
pub proof fn malformed_call_yields_no_request(
    call: UnsignedCall,
    digest: Result<Seq<u8>, Seq<char>>,
)
    requires
        !is_valid(call) || !suffix_matches(call.provenance),
    ensures
        prepared(call, digest) is Err,
        first_defect(call) matches Some(defect) ==> prepared(call, digest) == Err::<
            (Seq<u8>, Seq<u8>),
            KeystoreError,
        >(KeystoreError::MalformedCall(defect)),
        is_valid(call) ==> prepared(call, digest) == Err::<(Seq<u8>, Seq<u8>), KeystoreError>(
            KeystoreError::MalformedKey,
        ),
{
}

/// The request for a call that passes every check carries the key that is
/// embedded in the provenance of the call, and no other.
pub proof fn request_carries_the_provenance_key(
    call: UnsignedCall,
    digest: Result<Seq<u8>, Seq<char>>,
)
    requires
        prepared(call, digest) is Ok,
    ensures
        is_valid(call),
        suffix_matches(call.provenance),
        digest is Ok,
        prepared(call, digest)->Ok_0.0 == core_of(call.provenance),
        prepared(call, digest)->Ok_0.1 == digest->Ok_0,
        identifier_of(HashKind::Agent, prepared(call, digest)->Ok_0.0) == call.provenance,
{
    checked_identifier_is_rebuilt_from_its_core(call.provenance, HashKind::Agent);
}

/// Everything of a call that is handed on to be serialized and digested.
pub open spec fn signing_input(call: UnsignedCall) -> (
    Seq<u8>,
    Seq<u8>,
    Seq<u8>,
    Seq<char>,
    Seq<char>,
    Option<Seq<u8>>,
    Seq<u8>,
    Seq<u8>,
    i64,
) {
    (
        call.provenance,
        call.cell_id[0],
        call.cell_id[1],
        call.zome_name,
        call.fn_name,
        call.cap_secret,
        call.payload,
        call.nonce,
        call.expires_at,
    )
}

/// Two calls with the same content are validated alike and have the same
/// canonical bytes: nothing but the content of a call enters them.
pub proof fn equal_calls_have_equal_canonical_bytes(
    first: ZomeCallUnsignedNapi,
    second: ZomeCallUnsignedNapi,
)
    requires
        first@ == second@,
    ensures
        first_defect(first@) == first_defect(second@),
        canonical_bytes(first@) == canonical_bytes(second@),
        prepared(first@, canonical_bytes(first@)) == prepared(second@, canonical_bytes(second@)),
{
}

/// Every field of a valid call is handed on to be digested: two valid
/// calls that differ in any field differ in what is serialized.
pub proof fn signing_input_is_injective(first: UnsignedCall, second: UnsignedCall)
    requires
        is_valid(first),
        is_valid(second),
        signing_input(first) == signing_input(second),
    ensures
        first == second,
{
    assert(first.cell_id =~= second.cell_id);
}

} // verus!
