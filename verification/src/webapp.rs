//! Digests of application bundles.

use vstd::prelude::*;
use crate::utils::{hash_bytes_sha256, hex_lower, sha256_digest};

verus! {

/// The digests of an application bundle and, where it came inside a web
/// application bundle, of that bundle and of its user interface.
#[derive(Clone, Debug, PartialEq, Eq)]
pub struct HappAndUiHashes {
    pub happ_sha256: String,
    pub webhapp_sha256: Option<String>,
    pub ui_sha256: Option<String>,
}

/// The place where an application bundle was stored, with its digests.
#[derive(Clone, Debug, PartialEq, Eq)]
pub struct StoredHappPathAndHashes {
    pub happ_path: String,
    pub happ_sha256: String,
    pub webhapp_sha256: Option<String>,
    pub ui_sha256: Option<String>,
}

/// The digest text of a byte sequence.
pub open spec fn digest_text(bytes: Seq<u8>) -> Seq<char> {
    hex_lower(sha256_digest(bytes))
}

/// The text of an optional digest.
pub open spec fn text_view(text: Option<String>) -> Option<Seq<char>> {
    match text {
        Some(t) => Some(t@),
        None => None,
    }
}

impl HappAndUiHashes {
    /// Digests the encoded application bundle alone.
    pub fn of_happ(happ_bytes: Vec<u8>) -> (h: HappAndUiHashes)
        ensures
            h.happ_sha256@ == digest_text(happ_bytes@),
            h.webhapp_sha256 is None,
            h.ui_sha256 is None,
    {
        HappAndUiHashes {
            happ_sha256: hash_bytes_sha256(happ_bytes),
            webhapp_sha256: None,
            ui_sha256: None,
        }
    }

    /// Digests the encoded application bundle, the web application bundle
    /// that it came in, and the archive of the user interface.
    pub fn of_webhapp(happ_bytes: Vec<u8>, webhapp_bytes: Vec<u8>, ui_zip_bytes: Vec<u8>) -> (h:
        HappAndUiHashes)
        ensures
            h.happ_sha256@ == digest_text(happ_bytes@),
            text_view(h.webhapp_sha256) == Some(digest_text(webhapp_bytes@)),
            text_view(h.ui_sha256) == Some(digest_text(ui_zip_bytes@)),
    {
        HappAndUiHashes {
            happ_sha256: hash_bytes_sha256(happ_bytes),
            webhapp_sha256: Some(hash_bytes_sha256(webhapp_bytes)),
            ui_sha256: Some(hash_bytes_sha256(ui_zip_bytes)),
        }
    }
}

impl StoredHappPathAndHashes {
    /// Joins the path of a stored bundle and its digests.
    pub fn at(happ_path: String, hashes: HappAndUiHashes) -> (s: StoredHappPathAndHashes)
        ensures
            s.happ_path == happ_path,
            s.happ_sha256 == hashes.happ_sha256,
            s.webhapp_sha256 == hashes.webhapp_sha256,
            s.ui_sha256 == hashes.ui_sha256,
    {
        StoredHappPathAndHashes {
            happ_path,
            happ_sha256: hashes.happ_sha256,
            webhapp_sha256: hashes.webhapp_sha256,
            ui_sha256: hashes.ui_sha256,
        }
    }
}

} // verus!
