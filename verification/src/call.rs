//! Unsigned and signed calls, and the shape rules for their fields.

use vstd::prelude::*;
use crate::error::CallDefect;
use crate::hash_id::{is_well_shaped, well_shaped, HashKind};

verus! {

/// Length of a capability secret.
pub const CAP_SECRET_LEN: usize = 64;

/// Length of a nonce.
pub const NONCE_LEN: usize = 32;

/// A call that awaits its signature.
#[derive(Clone, Debug, PartialEq, Eq)]
pub struct ZomeCallUnsignedNapi {
    /// The target: a DNA hash followed by an agent key.
    pub cell_id: Vec<Vec<u8>>,
    /// The module that is called.
    pub zome_name: String,
    /// The function that is called.
    pub fn_name: String,
    /// The serialized arguments.
    pub payload: Vec<u8>,
    /// The secret that authorizes the call, if one is needed.
    pub cap_secret: Option<Vec<u8>>,
    /// The agent key of the caller.
    pub provenance: Vec<u8>,
    /// A random value that protects against replay.
    pub nonce: Vec<u8>,
    /// Microseconds since the epoch after which the call is void.
    pub expires_at: i64,
}

/// A call together with its signature.
#[derive(Clone, Debug, PartialEq, Eq)]
pub struct ZomeCallNapi {
    /// The target: a DNA hash followed by an agent key.
    pub cell_id: Vec<Vec<u8>>,
    /// The module that is called.
    pub zome_name: String,
    /// The function that is called.
    pub fn_name: String,
    /// The serialized arguments.
    pub payload: Vec<u8>,
    /// The secret that authorizes the call, if one is needed.
    pub cap_secret: Option<Vec<u8>>,
    /// The agent key of the caller.
    pub provenance: Vec<u8>,
    /// A random value that protects against replay.
    pub nonce: Vec<u8>,
    /// Microseconds since the epoch after which the call is void.
    pub expires_at: i64,
    /// The signature over the canonical bytes of the call.
    pub signature: Vec<u8>,
}

/// The mathematical content of an unsigned call.
pub struct UnsignedCall {
    pub cell_id: Seq<Seq<u8>>,
    pub zome_name: Seq<char>,
    pub fn_name: Seq<char>,
    pub payload: Seq<u8>,
    pub cap_secret: Option<Seq<u8>>,
    pub provenance: Seq<u8>,
    pub nonce: Seq<u8>,
    pub expires_at: i64,
}

/// The mathematical content of a signed call.
pub struct SignedCall {
    pub call: UnsignedCall,
    pub signature: Seq<u8>,
}

/// The identifiers of a target as sequences of bytes.
pub open spec fn target_view(cell_id: Vec<Vec<u8>>) -> Seq<Seq<u8>> {
    Seq::new(cell_id@.len(), |i: int| cell_id@[i]@)
}

/// The bytes of an optional secret.
pub open spec fn secret_view(secret: Option<Vec<u8>>) -> Option<Seq<u8>> {
    match secret {
        Some(bytes) => Some(bytes@),
        None => None,
    }
}

impl View for ZomeCallUnsignedNapi {
    type V = UnsignedCall;

    open spec fn view(&self) -> UnsignedCall {
        UnsignedCall {
            cell_id: target_view(self.cell_id),
            zome_name: self.zome_name@,
            fn_name: self.fn_name@,
            payload: self.payload@,
            cap_secret: secret_view(self.cap_secret),
            provenance: self.provenance@,
            nonce: self.nonce@,
            expires_at: self.expires_at,
        }
    }
}

impl View for ZomeCallNapi {
    type V = SignedCall;

    open spec fn view(&self) -> SignedCall {
        SignedCall {
            call: UnsignedCall {
                cell_id: target_view(self.cell_id),
                zome_name: self.zome_name@,
                fn_name: self.fn_name@,
                payload: self.payload@,
                cap_secret: secret_view(self.cap_secret),
                provenance: self.provenance@,
                nonce: self.nonce@,
                expires_at: self.expires_at,
            },
            signature: self.signature@,
        }
    }
}

/// The first shape rule that a call breaks, in the order target, capability
/// secret, provenance, nonce.
pub open spec fn first_defect(call: UnsignedCall) -> Option<CallDefect> {
    if call.cell_id.len() != 2 {
        Some(CallDefect::CellId)
    } else if !well_shaped(call.cell_id[0], HashKind::Dna) {
        Some(CallDefect::DnaHash)
    } else if !well_shaped(call.cell_id[1], HashKind::Agent) {
        Some(CallDefect::AgentPubKey)
    } else if call.cap_secret is Some && call.cap_secret->0.len() != CAP_SECRET_LEN {
        Some(CallDefect::CapSecret)
    } else if !well_shaped(call.provenance, HashKind::Agent) {
        Some(CallDefect::Provenance)
    } else if call.nonce.len() != NONCE_LEN {
        Some(CallDefect::Nonce)
    } else {
        None
    }
}

/// Every field of the call has its required shape.
pub open spec fn is_valid(call: UnsignedCall) -> bool {
    first_defect(call) is None
}

/// Checks the shape of every field and names the first that fails.
pub fn validate(call: &ZomeCallUnsignedNapi) -> (r: Result<(), CallDefect>)
    ensures
        r == match first_defect(call@) {
            Some(defect) => Err::<(), CallDefect>(defect),
            None => Ok::<(), CallDefect>(()),
        },
{
    if call.cell_id.len() != 2 {
        return Err(CallDefect::CellId);
    }
    if !is_well_shaped(&call.cell_id[0], HashKind::Dna) {
        return Err(CallDefect::DnaHash);
    }
    if !is_well_shaped(&call.cell_id[1], HashKind::Agent) {
        return Err(CallDefect::AgentPubKey);
    }
    match &call.cap_secret {
        Some(secret) => {
            if secret.len() != CAP_SECRET_LEN {
                return Err(CallDefect::CapSecret);
            }
        },
        None => {},
    }
    if !is_well_shaped(&call.provenance, HashKind::Agent) {
        return Err(CallDefect::Provenance);
    }
    if call.nonce.len() != NONCE_LEN {
        return Err(CallDefect::Nonce);
    }
    Ok(())
}

} // verus!
