//! Ciphertexts produced by a verified proof, their handles and the content
//! digest over a result set.
//!
//! Handle scheme, version 0. With `payload_hash` the Keccak-256 hash of the
//! raw proof bytes, the handle of the ciphertext at position `index` is the
//! Keccak-256 hash of
//! `payload_hash || index (1 byte) || acl address (20) || chain id (32, big-endian)`
//! whose last three bytes are replaced by the index, the type tag and the
//! format version. The content digest of a result set is the Keccak-256 hash
//! of its handles, concatenated in order.

use crate::address::spec_chain_id_word;
use crate::binding::{append_bytes, BindingContext, BindingView};
use crate::hashing::{keccak256, spec_keccak256, HASH_LEN};
use vstd::prelude::*;

verus! {

/// The ciphertext format version in effect.
pub const CIPHERTEXT_VERSION: i16 = 0;

/// Largest number of ciphertexts in one result set: a handle carries the
/// position in one byte.
pub const MAX_CIPHERTEXTS: usize = 256;

/// Position of the index byte in a handle.
pub const HANDLE_INDEX_BYTE: usize = 29;

/// Position of the type-tag byte in a handle.
pub const HANDLE_TYPE_BYTE: usize = 30;

/// Position of the format-version byte in a handle.
pub const HANDLE_VERSION_BYTE: usize = 31;

/// The semantic type of an encrypted value.
#[derive(Clone, Copy, Debug, PartialEq, Eq, Structural)]
pub enum FheType {
    Bool,
    Uint4,
    Uint8,
    Uint16,
    Uint32,
    Uint64,
    Uint128,
    Uint160,
    Uint256,
    Uint512,
    Uint1024,
    Uint2048,
}

impl FheType {
    /// The tag under which the type is stored.
    pub open spec fn spec_tag(self) -> i16 {
        match self {
            FheType::Bool => 0,
            FheType::Uint4 => 1,
            FheType::Uint8 => 2,
            FheType::Uint16 => 3,
            FheType::Uint32 => 4,
            FheType::Uint64 => 5,
            FheType::Uint128 => 6,
            FheType::Uint160 => 7,
            FheType::Uint256 => 8,
            FheType::Uint512 => 9,
            FheType::Uint1024 => 10,
            FheType::Uint2048 => 11,
        }
    }

    /// The tag under which the type is stored.
    pub fn tag(self) -> (tag: i16)
        ensures
            tag == self.spec_tag(),
            0 <= tag <= 11,
    {
        match self {
            FheType::Bool => 0,
            FheType::Uint4 => 1,
            FheType::Uint8 => 2,
            FheType::Uint16 => 3,
            FheType::Uint32 => 4,
            FheType::Uint64 => 5,
            FheType::Uint128 => 6,
            FheType::Uint160 => 7,
            FheType::Uint256 => 8,
            FheType::Uint512 => 9,
            FheType::Uint1024 => 10,
            FheType::Uint2048 => 11,
        }
    }

    /// The type stored under a tag, if the tag names one.
    pub fn from_tag(tag: i16) -> (kind: Option<FheType>)
        ensures
            match kind {
                Some(k) => k.spec_tag() == tag,
                None => forall|k: FheType| k.spec_tag() != tag,
            },
    {
        match tag {
            0 => Some(FheType::Bool),
            1 => Some(FheType::Uint4),
            2 => Some(FheType::Uint8),
            3 => Some(FheType::Uint16),
            4 => Some(FheType::Uint32),
            5 => Some(FheType::Uint64),
            6 => Some(FheType::Uint128),
            7 => Some(FheType::Uint160),
            8 => Some(FheType::Uint256),
            9 => Some(FheType::Uint512),
            10 => Some(FheType::Uint1024),
            11 => Some(FheType::Uint2048),
            _ => None,
        }
    }
}

/// One value of an expanded ciphertext list, before it has a handle.
#[derive(Clone, Debug)]
pub struct ExpandedCiphertext {
    /// The semantic type of the value.
    pub kind: FheType,
    /// The compressed, serialized ciphertext.
    pub compressed: Vec<u8>,
}

/// An expanded ciphertext as plain values.
pub ghost struct ExpandedView {
    pub kind: FheType,
    pub compressed: Seq<u8>,
}

impl View for ExpandedCiphertext {
    type V = ExpandedView;

    open spec fn view(&self) -> ExpandedView {
        ExpandedView { kind: self.kind, compressed: self.compressed@ }
    }
}

/// One ciphertext of a verified request.
#[derive(Clone, Debug)]
pub struct Ciphertext {
    /// The content-derived identifier, 32 bytes.
    pub handle: Vec<u8>,
    /// The compressed, serialized ciphertext.
    pub compressed: Vec<u8>,
    /// The tag of the semantic type.
    pub ct_type: i16,
    /// The format version.
    pub ct_version: i16,
}

/// A ciphertext as plain values.
pub ghost struct CiphertextView {
    pub handle: Seq<u8>,
    pub compressed: Seq<u8>,
    pub ct_type: i16,
    pub ct_version: i16,
}

impl View for Ciphertext {
    type V = CiphertextView;

    open spec fn view(&self) -> CiphertextView {
        CiphertextView {
            handle: self.handle@,
            compressed: self.compressed@,
            ct_type: self.ct_type,
            ct_version: self.ct_version,
        }
    }
}

/// The bytes that are hashed into the handle at position `index`.
pub open spec fn spec_handle_preimage(
    payload_hash: Seq<u8>,
    index: int,
    acl_contract_address: Seq<u8>,
    chain_id: int,
) -> Seq<u8> {
    payload_hash + seq![index as u8] + acl_contract_address + spec_chain_id_word(chain_id)
}

/// The handle at position `index`: the hash of the preimage, with the index,
/// the type tag and the format version in its last three bytes.
pub open spec fn spec_handle(
    payload_hash: Seq<u8>,
    index: int,
    kind: FheType,
    acl_contract_address: Seq<u8>,
    chain_id: int,
) -> Seq<u8> {
    let hash = spec_keccak256(
        spec_handle_preimage(payload_hash, index, acl_contract_address, chain_id),
    );
    Seq::new(
        HASH_LEN as nat,
        |i: int|
            if i == HANDLE_INDEX_BYTE {
                index as u8
            } else if i == HANDLE_TYPE_BYTE {
                kind.spec_tag() as u8
            } else if i == HANDLE_VERSION_BYTE {
                CIPHERTEXT_VERSION as u8
            } else {
                hash[i]
            },
    )
}

/// The ciphertext that the value at position `index` becomes.
pub open spec fn spec_ciphertext(
    payload_hash: Seq<u8>,
    index: int,
    item: ExpandedView,
    binding: BindingView,
) -> CiphertextView {
    CiphertextView {
        handle: spec_handle(
            payload_hash,
            index,
            item.kind,
            binding.acl_contract_address,
            binding.chain_id,
        ),
        compressed: item.compressed,
        ct_type: item.kind.spec_tag(),
        ct_version: CIPHERTEXT_VERSION,
    }
}

/// The handles of a result set, joined in order.
pub open spec fn spec_joined_handles(ciphertexts: Seq<CiphertextView>) -> Seq<u8>
    decreases ciphertexts.len(),
{
    if ciphertexts.len() == 0 {
        Seq::empty()
    } else {
        spec_joined_handles(ciphertexts.drop_last()) + ciphertexts.last().handle
    }
}

/// The content digest of a result set.
pub open spec fn spec_content_digest(ciphertexts: Seq<CiphertextView>) -> Seq<u8> {
    spec_keccak256(spec_joined_handles(ciphertexts))
}

/// Builds the ciphertext at position `index` of a result set.
pub fn create_ciphertext(
    payload_hash: &[u8],
    index: u8,
    item: &ExpandedCiphertext,
    context: &BindingContext,
) -> (ciphertext: Ciphertext)
    ensures
        ciphertext@ == spec_ciphertext(payload_hash@, index as int, item@, context@),
        ciphertext.handle@.len() == HASH_LEN,
{
    let acl = context.acl_contract_address().to_bytes();
    let word = context.chain_word();
    let mut preimage: Vec<u8> = Vec::new();
    append_bytes(&mut preimage, payload_hash);
    preimage.push(index);
    append_bytes(&mut preimage, acl.as_slice());
    append_bytes(&mut preimage, word.as_slice());
    proof {
        assert(preimage@ == spec_handle_preimage(
            payload_hash@,
            index as int,
            context@.acl_contract_address,
            context@.chain_id,
        ));
    }
    let tag = item.kind.tag();
    let mut handle = keccak256(preimage.as_slice());
    let ghost hash = handle@;
    handle[HANDLE_INDEX_BYTE] = index;
    handle[HANDLE_TYPE_BYTE] = tag as u8;
    handle[HANDLE_VERSION_BYTE] = CIPHERTEXT_VERSION as u8;
    proof {
        assert(handle@ =~= spec_handle(
            payload_hash@,
            index as int,
            item.kind,
            context@.acl_contract_address,
            context@.chain_id,
        ));
    }
    let mut compressed: Vec<u8> = Vec::new();
    append_bytes(&mut compressed, item.compressed.as_slice());
    Ciphertext { handle, compressed, ct_type: tag, ct_version: CIPHERTEXT_VERSION }
}

/// Joins the handles of a result set in order.
pub fn join_handles(ciphertexts: &Vec<Ciphertext>) -> (joined: Vec<u8>)
    ensures
        joined@ == spec_joined_handles(ciphertexts@.map_values(|c: Ciphertext| c@)),
{
    let ghost views = ciphertexts@.map_values(|c: Ciphertext| c@);
    let mut joined: Vec<u8> = Vec::new();
    let mut i: usize = 0;
    while i < ciphertexts.len()
        invariant
            i <= ciphertexts.len(),
            views == ciphertexts@.map_values(|c: Ciphertext| c@),
            joined@ == spec_joined_handles(views.take(i as int)),
        decreases ciphertexts.len() - i,
    {
        proof {
            assert(views.take(i + 1).drop_last() == views.take(i as int));
            assert(views.take(i + 1).last() == ciphertexts@[i as int]@);
        }
        append_bytes(&mut joined, ciphertexts[i].handle.as_slice());
        i += 1;
    }
    proof {
        assert(views.take(views.len() as int) == views);
    }
    joined
}

/// Computes the content digest of a result set.
pub fn content_digest(ciphertexts: &Vec<Ciphertext>) -> (digest: Vec<u8>)
    ensures
        digest@ == spec_content_digest(ciphertexts@.map_values(|c: Ciphertext| c@)),
        digest@.len() == HASH_LEN,
{
    let joined = join_handles(ciphertexts);
    keccak256(joined.as_slice())
}

/// Handles at different positions of one result set differ, whatever the
/// payload and the types: the position is part of the handle.
pub proof fn lemma_handles_distinct(
    payload_hash: Seq<u8>,
    i: int,
    kind_i: FheType,
    j: int,
    kind_j: FheType,
    acl_contract_address: Seq<u8>,
    chain_id: int,
)
    requires
        0 <= i < MAX_CIPHERTEXTS,
        0 <= j < MAX_CIPHERTEXTS,
        i != j,
    ensures
        spec_handle(payload_hash, i, kind_i, acl_contract_address, chain_id) != spec_handle(
            payload_hash,
            j,
            kind_j,
            acl_contract_address,
            chain_id,
        ),
{
    let a = spec_handle(payload_hash, i, kind_i, acl_contract_address, chain_id);
    let b = spec_handle(payload_hash, j, kind_j, acl_contract_address, chain_id);
    assert(a[HANDLE_INDEX_BYTE as int] == i as u8);
    assert(b[HANDLE_INDEX_BYTE as int] == j as u8);
}

/// A handle names the position, the type and the format version of its
/// ciphertext in its last three bytes.
pub proof fn lemma_handle_metadata(
    payload_hash: Seq<u8>,
    index: int,
    kind: FheType,
    acl_contract_address: Seq<u8>,
    chain_id: int,
)
    requires
        0 <= index < MAX_CIPHERTEXTS,
    ensures
        ({
            let handle = spec_handle(payload_hash, index, kind, acl_contract_address, chain_id);
            &&& handle.len() == HASH_LEN
            &&& handle[HANDLE_INDEX_BYTE as int] == index
            &&& handle[HANDLE_TYPE_BYTE as int] == kind.spec_tag()
            &&& handle[HANDLE_VERSION_BYTE as int] == CIPHERTEXT_VERSION
        }),
{
}

} // verus!
