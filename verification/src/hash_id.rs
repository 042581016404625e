//! Hash identifiers: 39 bytes made of a 3-byte type prefix, a 32-byte core
//! and a 4-byte location suffix derived from the core.

use vstd::prelude::*;
use crate::utils::vec_to_arr;

verus! {

/// Length of the type prefix.
pub const PREFIX_LEN: usize = 3;

/// Length of the core.
pub const CORE_LEN: usize = 32;

/// Length of the location suffix.
pub const LOC_LEN: usize = 4;

/// Length of a whole identifier.
pub const FULL_LEN: usize = 39;

/// What an identifier names.
#[derive(Clone, Copy, Debug, PartialEq, Eq, Structural)]
pub enum HashKind {
    /// A DNA.
    Dna,
    /// An agent's public key.
    Agent,
}

impl HashKind {
    /// The middle byte of the prefix, the only one that differs by kind.
    pub open spec fn type_byte(self) -> u8 {
        match self {
            HashKind::Dna => 0x2d,
            HashKind::Agent => 0x20,
        }
    }

    /// The three prefix bytes of the kind.
    pub open spec fn prefix(self) -> Seq<u8> {
        seq![0x84u8, self.type_byte(), 0x24u8]
    }

    /// The middle byte of the prefix.
    pub fn exec_type_byte(self) -> (b: u8)
        ensures
            b == self.type_byte(),
    {
        match self {
            HashKind::Dna => 0x2d,
            HashKind::Agent => 0x20,
        }
    }
}

/// The location suffix that `holo_hash` derives from a 32-byte core.
pub uninterp spec fn dht_location(core: Seq<u8>) -> Seq<u8>;

/// The text that `holo_hash` writes for the bytes of an identifier.
pub uninterp spec fn holo_hash_text(bytes: Seq<u8>) -> Seq<char>;

/// The identifier has the full length and carries the prefix of `kind`.
pub open spec fn well_shaped(bytes: Seq<u8>, kind: HashKind) -> bool {
    &&& bytes.len() == FULL_LEN
    &&& bytes.subrange(0, PREFIX_LEN as int) == kind.prefix()
}

/// The 32 bytes between prefix and suffix.
pub open spec fn core_of(bytes: Seq<u8>) -> Seq<u8> {
    bytes.subrange(PREFIX_LEN as int, PREFIX_LEN + CORE_LEN)
}

/// The last four bytes.
pub open spec fn suffix_of(bytes: Seq<u8>) -> Seq<u8> {
    bytes.subrange(PREFIX_LEN + CORE_LEN, FULL_LEN as int)
}

/// The suffix is the location of the core.
pub open spec fn suffix_matches(bytes: Seq<u8>) -> bool {
    suffix_of(bytes) == dht_location(core_of(bytes))
}

/// The identifier that belongs to a core: prefix, core, location.
pub open spec fn identifier_of(kind: HashKind, core: Seq<u8>) -> Seq<u8> {
    kind.prefix() + core + dht_location(core)
}

/// `holo_hash::encode::holo_dht_location_bytes`: four bytes folded from a
/// digest of the core. The outside function accepts 32-byte input only,
/// which the array type guarantees.
#[verifier::external_body]
fn location_bytes(core: &[u8; 32]) -> (loc: Vec<u8>)
    ensures
        loc@ == dht_location(core@),
        loc@.len() == LOC_LEN,
{
    holo_hash::encode::holo_dht_location_bytes(core)
}

/// `holo_hash::encode::holo_hash_encode`: the text form of identifier bytes.
#[verifier::external_body]
fn encode_text(bytes: &Vec<u8>) -> (text: String)
    ensures
        text@ == holo_hash_text(bytes@),
{
    holo_hash::encode::holo_hash_encode(bytes)
}

/// Tells whether `bytes` has the full length and the prefix of `kind`.
pub fn is_well_shaped(bytes: &Vec<u8>, kind: HashKind) -> (ok: bool)
    ensures
        ok == well_shaped(bytes@, kind),
{
    if bytes.len() != FULL_LEN {
        return false;
    }
    let ok = bytes[0] == 0x84 && bytes[1] == kind.exec_type_byte() && bytes[2] == 0x24;
    proof {
        let p = bytes@.subrange(0, PREFIX_LEN as int);
        assert(p.len() == 3);
        assert(p[0] == bytes@[0] && p[1] == bytes@[1] && p[2] == bytes@[2]);
        if ok {
            assert(p =~= kind.prefix());
        }
    }
    ok
}

/// Copies the core out of an identifier of full length.
pub fn raw_32(bytes: &Vec<u8>) -> (core: [u8; 32])
    requires
        bytes@.len() == FULL_LEN,
    ensures
        core@ == core_of(bytes@),
{
    let mut out: Vec<u8> = Vec::new();
    let mut i: usize = 0;
    while i < CORE_LEN
        invariant
            bytes@.len() == FULL_LEN,
            i <= CORE_LEN,
            out@.len() == i,
            forall|k: int| 0 <= k < i ==> out@[k] == bytes@[k + PREFIX_LEN],
        decreases CORE_LEN - i,
    {
        out.push(bytes[i + PREFIX_LEN]);
        i += 1;
    }
    assert(out@ =~= core_of(bytes@));
    vec_to_arr(out)
}

/// Tells whether the suffix of an identifier of full length is the location
/// of its core.
pub fn has_valid_suffix(bytes: &Vec<u8>) -> (ok: bool)
    requires
        bytes@.len() == FULL_LEN,
    ensures
        ok == suffix_matches(bytes@),
{
    let core = raw_32(bytes);
    let loc = location_bytes(&core);
    let ok = loc[0] == bytes[35] && loc[1] == bytes[36] && loc[2] == bytes[37] && loc[3]
        == bytes[38];
    proof {
        let s = suffix_of(bytes@);
        assert(s.len() == 4);
        assert(s[0] == bytes@[35] && s[1] == bytes@[36] && s[2] == bytes@[37] && s[3]
            == bytes@[38]);
        if ok {
            assert(s =~= loc@);
        }
    }
    ok
}

/// Builds the full identifier of `kind` around a core.
pub fn from_raw_32(kind: HashKind, core: &[u8; 32]) -> (bytes: Vec<u8>)
    ensures
        bytes@ == identifier_of(kind, core@),
        well_shaped(bytes@, kind),
        core_of(bytes@) == core@,
        suffix_matches(bytes@),
{
    let loc = location_bytes(core);
    let mut out: Vec<u8> = Vec::new();
    out.push(0x84);
    out.push(kind.exec_type_byte());
    out.push(0x24);
    assert(out@ =~= kind.prefix());
    let mut i: usize = 0;
    while i < CORE_LEN
        invariant
            i <= CORE_LEN,
            out@ =~= kind.prefix() + core@.subrange(0, i as int),
        decreases CORE_LEN - i,
    {
        out.push(core[i]);
        i += 1;
    }
    assert(core@.subrange(0, CORE_LEN as int) =~= core@);
    let mut j: usize = 0;
    while j < LOC_LEN
        invariant
            j <= LOC_LEN,
            loc@.len() == LOC_LEN,
            out@ =~= kind.prefix() + core@ + loc@.subrange(0, j as int),
        decreases LOC_LEN - j,
    {
        out.push(loc[j]);
        j += 1;
    }
    assert(loc@.subrange(0, LOC_LEN as int) =~= loc@);
    assert(out@.subrange(0, PREFIX_LEN as int) =~= kind.prefix());
    assert(core_of(out@) =~= core@);
    assert(suffix_of(out@) =~= loc@);
    out
}

/// An identifier that passes the shape check and the suffix check is the
/// one that belongs to its core: prefix, core and location leave no room
/// for a second identifier of the same kind over the same core.
pub proof fn checked_identifier_is_rebuilt_from_its_core(bytes: Seq<u8>, kind: HashKind)
    requires
        well_shaped(bytes, kind),
        suffix_matches(bytes),
    ensures
        identifier_of(kind, core_of(bytes)) == bytes,
{
    let core = core_of(bytes);
    let built = identifier_of(kind, core);
    assert(suffix_of(bytes).len() == LOC_LEN);
    assert(built.len() == FULL_LEN);
    assert forall|i: int| 0 <= i < FULL_LEN implies built[i] == bytes[i] by {
        if i < PREFIX_LEN {
            assert(bytes.subrange(0, PREFIX_LEN as int)[i] == bytes[i]);
        } else if i < PREFIX_LEN + CORE_LEN {
            assert(core[i - PREFIX_LEN] == bytes[i]);
        } else {
            assert(suffix_of(bytes)[i - PREFIX_LEN - CORE_LEN] == bytes[i]);
        }
    }
    assert(built =~= bytes);
}

/// Two checked identifiers of one kind with the same core are the same
/// identifier.
pub proof fn checked_identifiers_differ_in_their_cores(
    first: Seq<u8>,
    second: Seq<u8>,
    kind: HashKind,
)
    requires
        well_shaped(first, kind),
        suffix_matches(first),
        well_shaped(second, kind),
        suffix_matches(second),
        core_of(first) == core_of(second),
    ensures
        first == second,
{
    checked_identifier_is_rebuilt_from_its_core(first, kind);
    checked_identifier_is_rebuilt_from_its_core(second, kind);
}

/// The text form of the agent identifier that belongs to a 32-byte public
/// key.
pub fn agent_identity_text(public_key: &[u8; 32]) -> (text: String)
    ensures
        text@ == holo_hash_text(identifier_of(HashKind::Agent, public_key@)),
{
    let bytes = from_raw_32(HashKind::Agent, public_key);
    encode_text(&bytes)
}

} // verus!
