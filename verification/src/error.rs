//! The failures that the library reports.

use vstd::prelude::*;

verus! {

/// The part of an unsigned call that fails shape validation.
#[derive(Clone, Copy, Debug, PartialEq, Eq, Structural)]
pub enum CallDefect {
    /// The target does not consist of exactly two identifiers.
    CellId,
    /// The first identifier of the target is no DNA hash.
    DnaHash,
    /// The second identifier of the target is no agent key.
    AgentPubKey,
    /// The capability secret is not 64 bytes long.
    CapSecret,
    /// The provenance is no agent key.
    Provenance,
    /// The nonce is not 32 bytes long.
    Nonce,
    /// The call could not be serialized.
    NotEncodable,
}

/// Everything that can go wrong between the caller and the keystore.
#[derive(Clone, Debug, PartialEq, Eq)]
pub enum KeystoreError {
    /// The keystore could not be reached or refused the passphrase.
    Connection(String),
    /// An operation was asked of a session that is not connected.
    NotConnected,
    /// The call failed shape validation.
    MalformedCall(CallDefect),
    /// The suffix of the provenance does not belong to its key.
    MalformedKey,
    /// The bundle is locked by something other than a passphrase.
    UnsupportedCipher,
    /// The bundle could not be decoded or unlocked.
    Unlock(String),
    /// A reserved tag holds an entry that is no seed.
    KeystoreConsistency,
    /// The keystore refused to sign.
    Signing(String),
    /// The keystore refused to encrypt the seed.
    Encryption(String),
    /// The keystore failed while looking up, creating or importing a seed.
    Import(String),
    /// An answer arrived that does not belong to the pending request.
    UnexpectedResponse,
}

} // verus!
