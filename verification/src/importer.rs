//! Import of a foreign seed into the keystore.
//!
//! A seed that was made outside the keystore arrives as a locked bundle.
//! The keystore accepts a seed only as ciphertext between two key pairs that
//! it holds itself, so the flow unlocks the bundle, makes sure that the two
//! key pairs exist, has the keystore encrypt the seed between them, and has
//! it import the ciphertext under the caller's tag.
//!
//! The flow is a state machine. Each step takes the answer to the pending
//! request and says what to ask next. The unlocked seed never enters the
//! machine: it stays with the driver, which is told when to release it.

use vstd::prelude::*;
use crate::error::KeystoreError;
use crate::hash_id::{agent_identity_text, holo_hash_text, identifier_of, HashKind};

verus! {

/// The two key pairs that the keystore holds for imports.
#[derive(Clone, Copy, Debug, PartialEq, Eq, Structural)]
pub enum BootstrapKey {
    /// The sender's side of the encryption.
    Encryption,
    /// The recipient's side of the encryption.
    Decryption,
}

impl BootstrapKey {
    /// The reserved tag under which the keystore holds the key pair.
    pub open spec fn tag(self) -> Seq<char> {
        match self {
            BootstrapKey::Encryption => "import-encryption-key"@,
            BootstrapKey::Decryption => "import-decryption-key"@,
        }
    }

    /// The reserved tag under which the keystore holds the key pair.
    pub fn exec_tag(self) -> (t: String)
        ensures
            t@ == self.tag(),
    {
        match self {
            BootstrapKey::Encryption => "import-encryption-key".to_owned(),
            BootstrapKey::Decryption => "import-decryption-key".to_owned(),
        }
    }
}

/// The public half of a seed in the keystore.
#[derive(Clone, Copy, Debug, PartialEq, Eq)]
pub struct SeedInfo {
    /// The signing key.
    pub ed25519_pub_key: [u8; 32],
    /// The encryption key.
    pub x25519_pub_key: [u8; 32],
    /// Whether the keystore would hand the secret out again.
    pub exportable: bool,
}

/// What the keystore holds under a tag.
#[derive(Clone, Copy, Debug, PartialEq, Eq)]
pub enum EntryInfo {
    /// A plain seed.
    Seed(SeedInfo),
    /// An entry of any other shape.
    Other,
}

/// Where an import stands.
#[derive(Clone, Copy, Debug, PartialEq, Eq)]
pub enum ImportPhase {
    /// The bundle is being unlocked.
    Unlocking,
    /// The keystore is asked for the encryption key pair.
    LookingUpEncryption,
    /// The keystore is asked to create the encryption key pair.
    CreatingEncryption,
    /// The keystore is asked for the decryption key pair.
    LookingUpDecryption { encryption_key: [u8; 32] },
    /// The keystore is asked to create the decryption key pair.
    CreatingDecryption { encryption_key: [u8; 32] },
    /// The keystore is asked to encrypt the seed.
    Encrypting { encryption_key: [u8; 32], decryption_key: [u8; 32] },
    /// The keystore is asked to import the ciphertext.
    Importing,
    /// The seed is in the keystore.
    Done,
    /// The import was given up.
    Failed,
}

impl ImportPhase {
    /// The driver holds the unlocked seed in protected memory.
    pub open spec fn holds_seed(self) -> bool {
        match self {
            ImportPhase::LookingUpEncryption => true,
            ImportPhase::CreatingEncryption => true,
            ImportPhase::LookingUpDecryption { .. } => true,
            ImportPhase::CreatingDecryption { .. } => true,
            ImportPhase::Encrypting { .. } => true,
            _ => false,
        }
    }

    /// The import has ended, one way or the other.
    pub open spec fn is_terminal(self) -> bool {
        self == ImportPhase::Done || self == ImportPhase::Failed
    }

    /// The driver holds the unlocked seed in protected memory.
    pub fn exec_holds_seed(&self) -> (b: bool)
        ensures
            b == self.holds_seed(),
    {
        match self {
            ImportPhase::LookingUpEncryption => true,
            ImportPhase::CreatingEncryption => true,
            ImportPhase::LookingUpDecryption { .. } => true,
            ImportPhase::CreatingDecryption { .. } => true,
            ImportPhase::Encrypting { .. } => true,
            _ => false,
        }
    }
}

/// The answer to the pending request.
#[derive(Clone, Debug, PartialEq, Eq)]
pub enum ImportEvent {
    /// The bundle was unlocked; the driver holds the seed.
    Unlocked,
    /// The bundle is locked by something other than a passphrase.
    UnsupportedCipher,
    /// The bundle could not be read or the passphrase was wrong.
    UnlockFailed(String),
    /// The keystore holds this entry under the tag asked for.
    Entry(EntryInfo),
    /// The keystore holds nothing under the tag asked for.
    EntryMissing,
    /// The keystore created the seed asked for.
    SeedCreated(SeedInfo),
    /// The keystore encrypted the seed.
    Boxed { nonce: [u8; 24], cipher: Vec<u8> },
    /// The keystore imported the seed.
    Imported(SeedInfo),
    /// The keystore reported a failure of the pending request.
    Failed(String),
}

/// What the driver is to do next.
#[derive(Clone, Debug, PartialEq, Eq)]
pub enum ImportAction {
    /// Read the envelope from these bytes and unlock it with the
    /// passphrase.
    Unlock { bundle: Vec<u8> },
    /// Ask the keystore for the entry under a tag.
    GetEntry { tag: String },
    /// Ask the keystore to create a seed under a tag.
    NewSeed { tag: String, exportable: bool },
    /// Ask the keystore to encrypt the unlocked seed from `sender` to
    /// `recipient`.
    CryptoBox { sender: [u8; 32], recipient: [u8; 32] },
    /// Ask the keystore to decrypt the ciphertext and keep the seed under a
    /// tag.
    ImportSeed {
        sender: [u8; 32],
        recipient: [u8; 32],
        nonce: [u8; 24],
        cipher: Vec<u8>,
        tag: String,
        exportable: bool,
    },
    /// Hand the identity of the imported seed to the caller.
    Return(String),
    /// Hand the failure to the caller.
    Fail(KeystoreError),
    /// Nothing: the import had ended before.
    Idle,
}

/// A step's instructions to the driver.
#[derive(Clone, Debug, PartialEq, Eq)]
pub struct Directive {
    /// The next request, or the end of the import.
    pub action: ImportAction,
    /// Whether the driver must now release the unlocked seed.
    pub release_seed: bool,
}

/// An import in progress.
#[derive(Debug, PartialEq, Eq)]
pub struct SeedImport {
    phase: ImportPhase,
    tag: String,
}

/// The mathematical content of an import in progress.
pub struct ImportState {
    /// Where the import stands.
    pub phase: ImportPhase,
    /// The tag under which the seed is to be kept.
    pub tag: Seq<char>,
}

impl View for SeedImport {
    type V = ImportState;

    closed spec fn view(&self) -> ImportState {
        ImportState { phase: self.phase, tag: self.tag@ }
    }
}

/// How a cipher in the envelope of a bundle locks the seed.
#[derive(Clone, Copy, Debug, PartialEq, Eq, Structural)]
pub enum CipherKind {
    /// By a passphrase.
    PwHash,
    /// By answers to security questions.
    SecurityQuestions,
    /// By something that is not known here.
    Unsupported,
}

/// The first cipher of the envelope, the only one that counts, locks the
/// seed by a passphrase.
pub open spec fn passphrase_locked(kinds: Seq<CipherKind>) -> bool {
    kinds.len() > 0 && kinds[0] == CipherKind::PwHash
}

/// Tells whether the bundle can be unlocked with a passphrase, from the
/// kinds of the ciphers in its envelope, in their order. An envelope that
/// cannot is answered with the event that ends the import.
pub fn check_envelope(kinds: &Vec<CipherKind>) -> (rejected: Option<ImportEvent>)
    ensures
        rejected == if passphrase_locked(kinds@) {
            None::<ImportEvent>
        } else {
            Some(ImportEvent::UnsupportedCipher)
        },
{
    if kinds.len() > 0 {
        match kinds[0] {
            CipherKind::PwHash => None,
            _ => Some(ImportEvent::UnsupportedCipher),
        }
    } else {
        Some(ImportEvent::UnsupportedCipher)
    }
}

/// What `base64` decodes from a text in the URL-safe alphabet without
/// padding: the bytes, or the description of the decoding error.
pub uninterp spec fn base64_url_decoded(text: Seq<char>) -> Result<Seq<u8>, Seq<char>>;

/// The plain content of a decoding result.
pub open spec fn decoded_view(decoded: Result<Vec<u8>, String>) -> Result<Seq<u8>, Seq<char>> {
    match decoded {
        Ok(bytes) => Ok(bytes@),
        Err(cause) => Err(cause@),
    }
}

/// `base64::decode_config` with `base64::URL_SAFE_NO_PAD`: the decoded
/// bytes, or the description of the decoding error.
#[verifier::external_body]
fn decode_base64_url(text: &String) -> (decoded: Result<Vec<u8>, String>)
    ensures
        decoded_view(decoded) == base64_url_decoded(text@),
{
    base64::decode_config(text, base64::URL_SAFE_NO_PAD).map_err(|e| format!("{:?}", e))
}

/// The key pair that a lookup or creation phase is about.
pub open spec fn pending_key(phase: ImportPhase) -> Option<BootstrapKey> {
    match phase {
        ImportPhase::LookingUpEncryption => Some(BootstrapKey::Encryption),
        ImportPhase::CreatingEncryption => Some(BootstrapKey::Encryption),
        ImportPhase::LookingUpDecryption { .. } => Some(BootstrapKey::Decryption),
        ImportPhase::CreatingDecryption { .. } => Some(BootstrapKey::Decryption),
        _ => None,
    }
}

/// The phase after a key pair has been obtained with public key `key`.
pub open spec fn after_key(phase: ImportPhase, key: [u8; 32]) -> ImportPhase {
    match phase {
        ImportPhase::LookingUpEncryption => ImportPhase::LookingUpDecryption {
            encryption_key: key,
        },
        ImportPhase::CreatingEncryption => ImportPhase::LookingUpDecryption {
            encryption_key: key,
        },
        ImportPhase::LookingUpDecryption { encryption_key } => ImportPhase::Encrypting {
            encryption_key,
            decryption_key: key,
        },
        ImportPhase::CreatingDecryption { encryption_key } => ImportPhase::Encrypting {
            encryption_key,
            decryption_key: key,
        },
        _ => ImportPhase::Failed,
    }
}

/// The phase in which the keystore creates the key pair that a lookup did
/// not find.
pub open spec fn creating(phase: ImportPhase) -> ImportPhase {
    match phase {
        ImportPhase::LookingUpEncryption => ImportPhase::CreatingEncryption,
        ImportPhase::LookingUpDecryption { encryption_key } => ImportPhase::CreatingDecryption {
            encryption_key,
        },
        _ => ImportPhase::Failed,
    }
}

/// The phase that follows `phase` on `event`.
pub open spec fn next_phase(phase: ImportPhase, event: ImportEvent) -> ImportPhase {
    match phase {
        ImportPhase::Unlocking => match event {
            ImportEvent::Unlocked => ImportPhase::LookingUpEncryption,
            _ => ImportPhase::Failed,
        },
        ImportPhase::LookingUpEncryption | ImportPhase::LookingUpDecryption { .. } => match event {
            ImportEvent::Entry(EntryInfo::Seed(info)) => after_key(phase, info.x25519_pub_key),
            ImportEvent::EntryMissing => creating(phase),
            _ => ImportPhase::Failed,
        },
        ImportPhase::CreatingEncryption | ImportPhase::CreatingDecryption { .. } => match event {
            ImportEvent::SeedCreated(info) => after_key(phase, info.x25519_pub_key),
            _ => ImportPhase::Failed,
        },
        ImportPhase::Encrypting { .. } => match event {
            ImportEvent::Boxed { .. } => ImportPhase::Importing,
            _ => ImportPhase::Failed,
        },
        ImportPhase::Importing => match event {
            ImportEvent::Imported(_) => ImportPhase::Done,
            _ => ImportPhase::Failed,
        },
        ImportPhase::Done => ImportPhase::Done,
        ImportPhase::Failed => ImportPhase::Failed,
    }
}

/// `error` is the failure that ends an import in `phase` on `event`.
pub open spec fn failure_fits(error: KeystoreError, phase: ImportPhase, event: ImportEvent) -> bool {
    match event {
        ImportEvent::UnsupportedCipher => if phase == ImportPhase::Unlocking {
            error == KeystoreError::UnsupportedCipher
        } else {
            error == KeystoreError::UnexpectedResponse
        },
        ImportEvent::UnlockFailed(cause) => if phase == ImportPhase::Unlocking {
            error matches KeystoreError::Unlock(text) && text@ == cause@
        } else {
            error == KeystoreError::UnexpectedResponse
        },
        ImportEvent::Entry(EntryInfo::Other) => if phase == ImportPhase::LookingUpEncryption
            || phase is LookingUpDecryption {
            error == KeystoreError::KeystoreConsistency
        } else {
            error == KeystoreError::UnexpectedResponse
        },
        ImportEvent::Failed(cause) => if phase is Encrypting {
            error matches KeystoreError::Encryption(text) && text@ == cause@
        } else if phase == ImportPhase::Unlocking {
            error == KeystoreError::UnexpectedResponse
        } else {
            error matches KeystoreError::Import(text) && text@ == cause@
        },
        _ => error == KeystoreError::UnexpectedResponse,
    }
}

/// `action` is the request that follows once a key pair has been obtained
/// in `phase`, with `next` the phase that follows.
pub open spec fn request_after_key(action: ImportAction, next: ImportPhase) -> bool {
    match next {
        ImportPhase::LookingUpDecryption { .. } => action matches ImportAction::GetEntry { tag }
            && tag@ == BootstrapKey::Decryption.tag(),
        ImportPhase::Encrypting { encryption_key, decryption_key } => action
            == (ImportAction::CryptoBox { sender: encryption_key, recipient: decryption_key }),
        _ => false,
    }
}

/// `action` is what a step in `phase` on `event` tells the driver to do,
/// for an import under `tag`.
pub open spec fn action_fits(
    action: ImportAction,
    phase: ImportPhase,
    tag: Seq<char>,
    event: ImportEvent,
) -> bool {
    let next = next_phase(phase, event);
    if phase.is_terminal() {
        action == ImportAction::Idle
    } else {
        match next {
            ImportPhase::Failed => action matches ImportAction::Fail(error) && failure_fits(
                error,
                phase,
                event,
            ),
            ImportPhase::LookingUpEncryption => action matches ImportAction::GetEntry { tag: asked }
                && asked@ == BootstrapKey::Encryption.tag(),
            ImportPhase::CreatingEncryption | ImportPhase::CreatingDecryption { .. } => action
                matches ImportAction::NewSeed { tag: asked, exportable } && pending_key(next)
                matches Some(which) && asked@ == which.tag() && !exportable,
            ImportPhase::LookingUpDecryption { .. } | ImportPhase::Encrypting { .. } =>
                request_after_key(action, next),
            ImportPhase::Importing => action matches ImportAction::ImportSeed {
                sender,
                recipient,
                nonce,
                cipher,
                tag: kept,
                exportable,
            } && phase matches ImportPhase::Encrypting { encryption_key, decryption_key }
                && event matches ImportEvent::Boxed { nonce: given_nonce, cipher: given_cipher }
                && sender == encryption_key && recipient == decryption_key && nonce
                == given_nonce && cipher@ == given_cipher@ && kept@ == tag && !exportable,
            ImportPhase::Done => action matches ImportAction::Return(identity) && event
                matches ImportEvent::Imported(info) && identity@ == holo_hash_text(
                identifier_of(HashKind::Agent, info.ed25519_pub_key@),
            ),
            ImportPhase::Unlocking => false,
        }
    }
}

/// The request that follows once a key pair with public key `key` has been
/// obtained in `phase`.
fn proceed_with_key(phase: ImportPhase, key: [u8; 32]) -> (r: (ImportPhase, ImportAction))
    requires
        pending_key(phase) is Some,
    ensures
        r.0 == after_key(phase, key),
        request_after_key(r.1, r.0),
{
    match phase {
        ImportPhase::LookingUpEncryption | ImportPhase::CreatingEncryption => (
            ImportPhase::LookingUpDecryption { encryption_key: key },
            ImportAction::GetEntry { tag: BootstrapKey::Decryption.exec_tag() },
        ),
        ImportPhase::LookingUpDecryption { encryption_key }
        | ImportPhase::CreatingDecryption { encryption_key } => (
            ImportPhase::Encrypting { encryption_key, decryption_key: key },
            ImportAction::CryptoBox { sender: encryption_key, recipient: key },
        ),
        _ => (ImportPhase::Failed, ImportAction::Idle),
    }
}

/// The end of an import whose pending keystore request, other than the
/// encryption, was answered by `event` instead of what was asked for.
fn give_up(event: ImportEvent) -> (action: ImportAction)
    ensures
        match event {
            ImportEvent::Failed(cause) => action matches ImportAction::Fail(
                KeystoreError::Import(text),
            ) && text@ == cause@,
            _ => action == ImportAction::Fail(KeystoreError::UnexpectedResponse),
        },
{
    match event {
        ImportEvent::Failed(cause) => ImportAction::Fail(KeystoreError::Import(cause)),
        _ => ImportAction::Fail(KeystoreError::UnexpectedResponse),
    }
}

/// Decodes a locked bundle from its text form, URL-safe base64 without
/// padding.
pub fn decode_device_bundle(device_bundle: &String) -> (r: Result<Vec<u8>, KeystoreError>)
    ensures
        match base64_url_decoded(device_bundle@) {
            Ok(bytes) => r matches Ok(decoded) && decoded@ == bytes,
            Err(cause) => r matches Err(KeystoreError::Unlock(text)) && text@ == cause,
        },
{
    match decode_base64_url(device_bundle) {
        Ok(bytes) => Ok(bytes),
        Err(cause) => Err(KeystoreError::Unlock(cause)),
    }
}

/// `import` and `directive` are the start of an import under `tag` of a
/// bundle whose text decodes as `decoded` says: the decoded bytes go to the
/// driver to be unlocked, and a text that cannot be decoded ends the import
/// at once.
pub open spec fn begins(
    import: SeedImport,
    directive: Directive,
    decoded: Result<Seq<u8>, Seq<char>>,
    tag: Seq<char>,
) -> bool {
    &&& import@.tag == tag
    &&& !directive.release_seed
    &&& match decoded {
        Ok(bytes) => directive.action matches ImportAction::Unlock { bundle } && bundle@ == bytes
            && import@.phase == ImportPhase::Unlocking,
        Err(cause) => directive.action matches ImportAction::Fail(KeystoreError::Unlock(text))
            && text@ == cause && import@.phase == ImportPhase::Failed,
    }
}

impl SeedImport {
    /// Starts an import from the outcome of decoding the bundle's text: the
    /// decoded bytes go to the driver to be unlocked, and a text that could
    /// not be decoded ends the import at once.
    pub fn begin_with(decoded: Result<Vec<u8>, KeystoreError>, tag: String) -> (r: (
        SeedImport,
        Directive,
    ))
        ensures
            r.0@.tag == tag@,
            !r.1.release_seed,
            match decoded {
                Ok(bytes) => r.1.action matches ImportAction::Unlock { bundle } && bundle@
                    == bytes@ && r.0@.phase == ImportPhase::Unlocking,
                Err(e) => r.0@.phase == ImportPhase::Failed && r.1.action == ImportAction::Fail(
                    e,
                ),
            },
    {
        match decoded {
            Ok(bytes) => (
                SeedImport { phase: ImportPhase::Unlocking, tag },
                Directive { action: ImportAction::Unlock { bundle: bytes }, release_seed: false },
            ),
            Err(e) => (
                SeedImport { phase: ImportPhase::Failed, tag },
                Directive { action: ImportAction::Fail(e), release_seed: false },
            ),
        }
    }

    /// Starts the import of a locked bundle, given as URL-safe base64
    /// without padding, under `tag`.
    pub fn begin(locked_bundle: &String, tag: String) -> (r: (SeedImport, Directive))
        ensures
            begins(r.0, r.1, base64_url_decoded(locked_bundle@), tag@),
    {
        let decoded = decode_device_bundle(locked_bundle);
        SeedImport::begin_with(decoded, tag)
    }

    /// Where the import stands.
    pub fn phase(&self) -> (p: ImportPhase)
        ensures
            p == self@.phase,
    {
        self.phase
    }

    /// The tag under which the seed is to be kept.
    pub fn tag(&self) -> (t: &String)
        ensures
            t@ == self@.tag,
    {
        &self.tag
    }

    /// Takes the answer to the pending request and says what to do next.
    ///
    /// An answer that does not belong to the pending request ends the
    /// import, as does every failure; once ended, the import stays as it is
    /// and asks for nothing more.
    pub fn step(&mut self, event: ImportEvent) -> (d: Directive)
        ensures
            final(self)@.phase == next_phase(old(self)@.phase, event),
            final(self)@.tag == old(self)@.tag,
            action_fits(d.action, old(self)@.phase, old(self)@.tag, event),
            d.release_seed == (old(self)@.phase.holds_seed() && !final(self)@.phase.holds_seed()),
    {
        let phase = self.phase;
        let held = phase.exec_holds_seed();
        let (next, action): (ImportPhase, ImportAction) = match phase {
            ImportPhase::Done => (ImportPhase::Done, ImportAction::Idle),
            ImportPhase::Failed => (ImportPhase::Failed, ImportAction::Idle),
            ImportPhase::Unlocking => match event {
                ImportEvent::Unlocked => (
                    ImportPhase::LookingUpEncryption,
                    ImportAction::GetEntry { tag: BootstrapKey::Encryption.exec_tag() },
                ),
                ImportEvent::UnsupportedCipher => (
                    ImportPhase::Failed,
                    ImportAction::Fail(KeystoreError::UnsupportedCipher),
                ),
                ImportEvent::UnlockFailed(cause) => (
                    ImportPhase::Failed,
                    ImportAction::Fail(KeystoreError::Unlock(cause)),
                ),
                _ => (ImportPhase::Failed, ImportAction::Fail(KeystoreError::UnexpectedResponse)),
            },
            ImportPhase::LookingUpEncryption => match event {
                ImportEvent::Entry(EntryInfo::Seed(info)) => proceed_with_key(
                    phase,
                    info.x25519_pub_key,
                ),
                ImportEvent::Entry(EntryInfo::Other) => (
                    ImportPhase::Failed,
                    ImportAction::Fail(KeystoreError::KeystoreConsistency),
                ),
                ImportEvent::EntryMissing => (
                    ImportPhase::CreatingEncryption,
                    ImportAction::NewSeed {
                        tag: BootstrapKey::Encryption.exec_tag(),
                        exportable: false,
                    },
                ),
                other => (ImportPhase::Failed, give_up(other)),
            },
            ImportPhase::LookingUpDecryption { encryption_key } => match event {
                ImportEvent::Entry(EntryInfo::Seed(info)) => proceed_with_key(
                    phase,
                    info.x25519_pub_key,
                ),
                ImportEvent::Entry(EntryInfo::Other) => (
                    ImportPhase::Failed,
                    ImportAction::Fail(KeystoreError::KeystoreConsistency),
                ),
                ImportEvent::EntryMissing => (
                    ImportPhase::CreatingDecryption { encryption_key },
                    ImportAction::NewSeed {
                        tag: BootstrapKey::Decryption.exec_tag(),
                        exportable: false,
                    },
                ),
                other => (ImportPhase::Failed, give_up(other)),
            },
            ImportPhase::CreatingEncryption | ImportPhase::CreatingDecryption { .. } => match event {
                ImportEvent::SeedCreated(info) => proceed_with_key(phase, info.x25519_pub_key),
                other => (ImportPhase::Failed, give_up(other)),
            },
            ImportPhase::Encrypting { encryption_key, decryption_key } => match event {
                ImportEvent::Boxed { nonce, cipher } => (
                    ImportPhase::Importing,
                    ImportAction::ImportSeed {
                        sender: encryption_key,
                        recipient: decryption_key,
                        nonce,
                        cipher,
                        tag: self.tag.clone(),
                        exportable: false,
                    },
                ),
                ImportEvent::Failed(cause) => (
                    ImportPhase::Failed,
                    ImportAction::Fail(KeystoreError::Encryption(cause)),
                ),
                _ => (ImportPhase::Failed, ImportAction::Fail(KeystoreError::UnexpectedResponse)),
            },
            ImportPhase::Importing => match event {
                ImportEvent::Imported(info) => (
                    ImportPhase::Done,
                    ImportAction::Return(agent_identity_text(&info.ed25519_pub_key)),
                ),
                other => (ImportPhase::Failed, give_up(other)),
            },
        };
        self.phase = next;
        Directive { action, release_seed: held && !next.exec_holds_seed() }
    }
}

/// A key pair that the keystore already holds under a reserved tag is
/// used as it is: the lookup that finds it is never followed by a request
/// to create one, and the key that the import goes on with is the one
/// found. Two imports that find the same entry therefore use the same key,
/// whatever their bundles and tags.
pub proof fn found_bootstrap_key_is_reused(
    first: ImportPhase,
    second: ImportPhase,
    info: SeedInfo,
    first_action: ImportAction,
    second_action: ImportAction,
    first_tag: Seq<char>,
    second_tag: Seq<char>,
)
    requires
        is_lookup(first),
        is_lookup(second),
        pending_key(first) == pending_key(second),
        action_fits(first_action, first, first_tag, ImportEvent::Entry(EntryInfo::Seed(info))),
        action_fits(second_action, second, second_tag, ImportEvent::Entry(EntryInfo::Seed(info))),
    ensures
        !(first_action is NewSeed),
        !(second_action is NewSeed),
        obtained_key(next_phase(first, ImportEvent::Entry(EntryInfo::Seed(info))), pending_key(
            first,
        )->0) == Some(info.x25519_pub_key),
        obtained_key(next_phase(second, ImportEvent::Entry(EntryInfo::Seed(info))), pending_key(
            second,
        )->0) == Some(info.x25519_pub_key),
{
}

/// The keystore is being asked for one of the two key pairs.
pub open spec fn is_lookup(phase: ImportPhase) -> bool {
    phase == ImportPhase::LookingUpEncryption || phase is LookingUpDecryption
}

/// The public key of a bootstrap key pair, as far as a phase records it.
pub open spec fn obtained_key(phase: ImportPhase, which: BootstrapKey) -> Option<[u8; 32]> {
    match (phase, which) {
        (ImportPhase::LookingUpDecryption { encryption_key }, BootstrapKey::Encryption) => Some(
            encryption_key,
        ),
        (ImportPhase::CreatingDecryption { encryption_key }, BootstrapKey::Encryption) => Some(
            encryption_key,
        ),
        (ImportPhase::Encrypting { encryption_key, .. }, BootstrapKey::Encryption) => Some(
            encryption_key,
        ),
        (ImportPhase::Encrypting { decryption_key, .. }, BootstrapKey::Decryption) => Some(
            decryption_key,
        ),
        _ => None,
    }
}

/// A key pair is created only after a lookup under the same reserved tag
/// found nothing, and it is created as not exportable.
pub proof fn seed_created_only_when_missing(
    phase: ImportPhase,
    tag: Seq<char>,
    event: ImportEvent,
    action: ImportAction,
)
    requires
        action_fits(action, phase, tag, event),
        action is NewSeed,
    ensures
        event == ImportEvent::EntryMissing,
        is_lookup(phase),
        action matches ImportAction::NewSeed { tag: asked, exportable } && pending_key(phase)
            matches Some(which) && asked@ == which.tag() && !exportable,
{
}

/// An import that has ended holds no seed: whatever ends it, success or
/// failure, leaves the driver with nothing to keep. Before the bundle is
/// unlocked and after the keystore has encrypted the seed none is held
/// either.
pub proof fn seed_released_on_every_exit(phase: ImportPhase, event: ImportEvent)
    ensures
        next_phase(phase, event).is_terminal() ==> !next_phase(phase, event).holds_seed(),
        phase is Encrypting ==> !next_phase(phase, event).holds_seed(),
        !ImportPhase::Unlocking.holds_seed(),
{
}

/// A bundle that cannot be unlocked, for a wrong passphrase or any other
/// reason, ends the import with the matching failure before anything is
/// asked of the keystore.
pub proof fn failed_unlock_ends_import(
    tag: Seq<char>,
    event: ImportEvent,
    action: ImportAction,
)
    requires
        event is UnlockFailed || event is UnsupportedCipher,
        action_fits(action, ImportPhase::Unlocking, tag, event),
    ensures
        next_phase(ImportPhase::Unlocking, event) == ImportPhase::Failed,
        event matches ImportEvent::UnlockFailed(cause) ==> action matches ImportAction::Fail(
            KeystoreError::Unlock(text),
        ) && text@ == cause@,
        event is UnsupportedCipher ==> action == ImportAction::Fail(
            KeystoreError::UnsupportedCipher,
        ),
{
}

/// A failure that the keystore reports ends the import, in whatever phase
/// it arrives, and goes to the caller with its cause: as an encryption
/// failure while the seed is being encrypted, as an import failure
/// otherwise.
pub proof fn keystore_failure_ends_import(
    phase: ImportPhase,
    tag: Seq<char>,
    cause: String,
    action: ImportAction,
)
    requires
        !phase.is_terminal(),
        phase != ImportPhase::Unlocking,
        action_fits(action, phase, tag, ImportEvent::Failed(cause)),
    ensures
        next_phase(phase, ImportEvent::Failed(cause)) == ImportPhase::Failed,
        phase is Encrypting ==> (action matches ImportAction::Fail(
            KeystoreError::Encryption(text),
        ) && text@ == cause@),
        !(phase is Encrypting) ==> (action matches ImportAction::Fail(KeystoreError::Import(text))
            && text@ == cause@),
{
}

/// An identity goes to the caller only when the keystore has confirmed the
/// import, and it is the identity of the key that the keystore reported.
/// Nothing short of that yields a result.
pub proof fn identity_only_after_import(
    phase: ImportPhase,
    tag: Seq<char>,
    event: ImportEvent,
    action: ImportAction,
)
    requires
        action_fits(action, phase, tag, event),
        action is Return || next_phase(phase, event) == ImportPhase::Done && !phase.is_terminal(),
    ensures
        phase == ImportPhase::Importing,
        next_phase(phase, event) == ImportPhase::Done,
        event matches ImportEvent::Imported(info) && action matches ImportAction::Return(identity)
            && identity@ == holo_hash_text(identifier_of(HashKind::Agent, info.ed25519_pub_key@)),
{
}

/// An import that has ended stays ended and asks for nothing more.
pub proof fn ended_import_stays_ended(
    phase: ImportPhase,
    tag: Seq<char>,
    event: ImportEvent,
    action: ImportAction,
)
    requires
        phase.is_terminal(),
        action_fits(action, phase, tag, event),
    ensures
        next_phase(phase, event) == phase,
        action == ImportAction::Idle,
{
}

/// Whatever is asked of the keystore for a seed is asked with the
/// exportable flag off, and the ciphertext goes in between the two key
/// pairs that the import obtained.
pub proof fn import_request_uses_obtained_keys(
    phase: ImportPhase,
    tag: Seq<char>,
    event: ImportEvent,
    action: ImportAction,
)
    requires
        action_fits(action, phase, tag, event),
        action is ImportSeed,
    ensures
        action matches ImportAction::ImportSeed { sender, recipient, tag: kept, exportable, .. }
            && !exportable && kept@ == tag && obtained_key(phase, BootstrapKey::Encryption)
            == Some(sender) && obtained_key(phase, BootstrapKey::Decryption) == Some(recipient),
{
}

/// The phase that an import reaches from `phase` through a sequence of
/// answers, taken in their order.
pub open spec fn run(phase: ImportPhase, events: Seq<ImportEvent>) -> ImportPhase
    decreases events.len(),
{
    if events.len() == 0 {
        phase
    } else {
        run(next_phase(phase, events[0]), events.drop_first())
    }
}

/// The least number of answers that it takes from a phase to the end of a
/// successful import.
pub open spec fn answers_needed(phase: ImportPhase) -> nat {
    match phase {
        ImportPhase::Unlocking => 5,
        ImportPhase::LookingUpEncryption => 4,
        ImportPhase::CreatingEncryption => 4,
        ImportPhase::LookingUpDecryption { .. } => 3,
        ImportPhase::CreatingDecryption { .. } => 3,
        ImportPhase::Encrypting { .. } => 2,
        ImportPhase::Importing => 1,
        ImportPhase::Done => 0,
        ImportPhase::Failed => 0,
    }
}

/// Whatever answers arrive after an import has ended, it stays as it
/// ended.
pub proof fn ended_import_ignores_all_answers(phase: ImportPhase, events: Seq<ImportEvent>)
    requires
        phase.is_terminal(),
    ensures
        run(phase, events) == phase,
    decreases events.len(),
{
    if events.len() > 0 {
        ended_import_ignores_all_answers(phase, events.drop_first());
    }
}

/// A failed import never succeeds later, and an import succeeds only
/// after every stage has been answered: unlocking, both key pairs,
/// encryption and import. There is no shorter way to an identity.
pub proof fn success_takes_every_stage(phase: ImportPhase, events: Seq<ImportEvent>)
    requires
        run(phase, events) == ImportPhase::Done,
    ensures
        phase != ImportPhase::Failed,
        events.len() >= answers_needed(phase),
    decreases events.len(),
{
    if phase == ImportPhase::Failed {
        ended_import_ignores_all_answers(phase, events);
    } else if events.len() > 0 {
        success_takes_every_stage(next_phase(phase, events[0]), events.drop_first());
    }
}

/// An import on a keystore that holds both key pairs goes from unlocking
/// straight to encryption with the keys found, and an import on a keystore
/// that holds neither gets there with the keys created. So the first import
/// on a fresh keystore and every later one, which finds what the first
/// created, encrypt between the same two keys.
pub proof fn warm_and_cold_imports_use_the_same_keys(encryption: SeedInfo, decryption: SeedInfo)
    ensures
        run(
            ImportPhase::Unlocking,
            seq![
                ImportEvent::Unlocked,
                ImportEvent::EntryMissing,
                ImportEvent::SeedCreated(encryption),
                ImportEvent::EntryMissing,
                ImportEvent::SeedCreated(decryption),
            ],
        ) == (ImportPhase::Encrypting {
            encryption_key: encryption.x25519_pub_key,
            decryption_key: decryption.x25519_pub_key,
        }),
        run(
            ImportPhase::Unlocking,
            seq![
                ImportEvent::Unlocked,
                ImportEvent::Entry(EntryInfo::Seed(encryption)),
                ImportEvent::Entry(EntryInfo::Seed(decryption)),
            ],
        ) == (ImportPhase::Encrypting {
            encryption_key: encryption.x25519_pub_key,
            decryption_key: decryption.x25519_pub_key,
        }),
{
    let goal = ImportPhase::Encrypting {
        encryption_key: encryption.x25519_pub_key,
        decryption_key: decryption.x25519_pub_key,
    };
    let none = Seq::<ImportEvent>::empty();
    assert(run(goal, none) == goal);

    let c5 = seq![ImportEvent::SeedCreated(decryption)];
    let c4 = seq![ImportEvent::EntryMissing, ImportEvent::SeedCreated(decryption)];
    let c3 = seq![
        ImportEvent::SeedCreated(encryption),
        ImportEvent::EntryMissing,
        ImportEvent::SeedCreated(decryption),
    ];
    let c2 = seq![
        ImportEvent::EntryMissing,
        ImportEvent::SeedCreated(encryption),
        ImportEvent::EntryMissing,
        ImportEvent::SeedCreated(decryption),
    ];
    let c1 = seq![
        ImportEvent::Unlocked,
        ImportEvent::EntryMissing,
        ImportEvent::SeedCreated(encryption),
        ImportEvent::EntryMissing,
        ImportEvent::SeedCreated(decryption),
    ];
    assert(c5.drop_first() =~= none);
    assert(c4.drop_first() =~= c5);
    assert(c3.drop_first() =~= c4);
    assert(c2.drop_first() =~= c3);
    assert(c1.drop_first() =~= c2);
    let with_encryption = ImportPhase::LookingUpDecryption {
        encryption_key: encryption.x25519_pub_key,
    };
    let creating_decryption = ImportPhase::CreatingDecryption {
        encryption_key: encryption.x25519_pub_key,
    };
    assert(run(creating_decryption, c5) == goal);
    assert(run(with_encryption, c4) == goal);
    assert(run(ImportPhase::CreatingEncryption, c3) == goal);
    assert(run(ImportPhase::LookingUpEncryption, c2) == goal);
    assert(run(ImportPhase::Unlocking, c1) == goal);

    let w3 = seq![ImportEvent::Entry(EntryInfo::Seed(decryption))];
    let w2 = seq![
        ImportEvent::Entry(EntryInfo::Seed(encryption)),
        ImportEvent::Entry(EntryInfo::Seed(decryption)),
    ];
    let w1 = seq![
        ImportEvent::Unlocked,
        ImportEvent::Entry(EntryInfo::Seed(encryption)),
        ImportEvent::Entry(EntryInfo::Seed(decryption)),
    ];
    assert(w3.drop_first() =~= none);
    assert(w2.drop_first() =~= w3);
    assert(w1.drop_first() =~= w2);
    assert(run(with_encryption, w3) == goal);
    assert(run(ImportPhase::LookingUpEncryption, w2) == goal);
    assert(run(ImportPhase::Unlocking, w1) == goal);
}

} // verus!
