//! The binding context: the tuple of contract, user, access-control contract
//! and chain that a proof is tied to, and its byte encoding.

use crate::address::{
    chain_id_word_bytes, spec_chain_id_word, spec_parse_address, Address, ADDRESS_LEN,
};
use vstd::prelude::*;

verus! {

/// Number of bytes in an encoded binding context.
pub const BINDING_LEN: usize = 92;

/// Why a binding context could not be built.
#[derive(Clone, Copy, Debug, PartialEq, Eq, Structural)]
pub enum BindingError {
    /// The contract address is not an address.
    InvalidContractAddress,
    /// The user address is not an address.
    InvalidUserAddress,
    /// The chain id is negative.
    NegativeChainId,
}

/// A binding context as plain values.
pub ghost struct BindingView {
    pub contract_address: Seq<u8>,
    pub user_address: Seq<u8>,
    pub acl_contract_address: Seq<u8>,
    pub chain_id: int,
}

/// Well-formed binding values: three addresses and a chain id that the
/// queue's 32-bit signed column can hold.
pub open spec fn binding_wf(b: BindingView) -> bool {
    &&& b.contract_address.len() == ADDRESS_LEN
    &&& b.user_address.len() == ADDRESS_LEN
    &&& b.acl_contract_address.len() == ADDRESS_LEN
    &&& 0 <= b.chain_id <= i32::MAX
}

/// The bytes bound into a proof: contract address, user address,
/// access-control contract address, then the chain id as a 32-byte word.
pub open spec fn spec_assemble(b: BindingView) -> Seq<u8> {
    b.contract_address + b.user_address + b.acl_contract_address + spec_chain_id_word(b.chain_id)
}

/// The domain-separation tuple of one verification.
#[derive(Clone, Copy, Debug)]
pub struct BindingContext {
    contract_address: Address,
    user_address: Address,
    acl_contract_address: Address,
    chain_id: i32,
}

impl View for BindingContext {
    type V = BindingView;

    closed spec fn view(&self) -> BindingView {
        BindingView {
            contract_address: self.contract_address@,
            user_address: self.user_address@,
            acl_contract_address: self.acl_contract_address@,
            chain_id: self.chain_id as int,
        }
    }
}

impl BindingContext {
    #[verifier::type_invariant]
    spec fn chain_id_is_valid(self) -> bool {
        self.chain_id >= 0
    }

    /// Binds the given addresses and chain. Fails exactly on a negative
    /// chain id.
    pub fn new(
        contract_address: Address,
        user_address: Address,
        chain_id: i32,
        acl_contract_address: Address,
    ) -> (built: Result<BindingContext, BindingError>)
        ensures
            match built {
                Ok(context) => chain_id >= 0 && binding_wf(context@) && context@ == (BindingView {
                    contract_address: contract_address@,
                    user_address: user_address@,
                    acl_contract_address: acl_contract_address@,
                    chain_id: chain_id as int,
                }),
                Err(error) => chain_id < 0 && error == BindingError::NegativeChainId,
            },
    {
        if chain_id < 0 {
            return Err(BindingError::NegativeChainId);
        }
        proof {
            contract_address.lemma_len();
            user_address.lemma_len();
            acl_contract_address.lemma_len();
        }
        Ok(BindingContext { contract_address, user_address, acl_contract_address, chain_id })
    }

    /// Binds a request's addresses, given as text, to a tenant's
    /// access-control contract. The contract address is checked first, then
    /// the user address, then the chain id.
    pub fn from_text(
        contract_address: &str,
        user_address: &str,
        chain_id: i32,
        acl_contract_address: Address,
    ) -> (built: Result<BindingContext, BindingError>)
        ensures
            match built {
                Ok(context) => {
                    &&& spec_parse_address(contract_address@) == Some(context@.contract_address)
                    &&& spec_parse_address(user_address@) == Some(context@.user_address)
                    &&& context@.acl_contract_address == acl_contract_address@
                    &&& context@.chain_id == chain_id
                    &&& binding_wf(context@)
                },
                Err(BindingError::InvalidContractAddress) => spec_parse_address(
                    contract_address@,
                ) is None,
                Err(BindingError::InvalidUserAddress) => {
                    &&& spec_parse_address(contract_address@) is Some
                    &&& spec_parse_address(user_address@) is None
                },
                Err(BindingError::NegativeChainId) => {
                    &&& spec_parse_address(contract_address@) is Some
                    &&& spec_parse_address(user_address@) is Some
                    &&& chain_id < 0
                },
            },
    {
        let contract = match Address::parse(contract_address) {
            Some(address) => address,
            None => {
                return Err(BindingError::InvalidContractAddress);
            },
        };
        let user = match Address::parse(user_address) {
            Some(address) => address,
            None => {
                return Err(BindingError::InvalidUserAddress);
            },
        };
        BindingContext::new(contract, user, chain_id, acl_contract_address)
    }

    /// The contract the ciphertexts are meant for.
    pub fn contract_address(&self) -> (address: Address)
        ensures
            address@ == self@.contract_address,
    {
        self.contract_address
    }

    /// The user who submitted the ciphertexts.
    pub fn user_address(&self) -> (address: Address)
        ensures
            address@ == self@.user_address,
    {
        self.user_address
    }

    /// The tenant's access-control contract.
    pub fn acl_contract_address(&self) -> (address: Address)
        ensures
            address@ == self@.acl_contract_address,
    {
        self.acl_contract_address
    }

    /// The chain the request belongs to.
    pub fn chain_id(&self) -> (chain_id: i32)
        ensures
            chain_id == self@.chain_id,
            binding_wf(self@),
    {
        proof {
            use_type_invariant(self);
            self.contract_address.lemma_len();
            self.user_address.lemma_len();
            self.acl_contract_address.lemma_len();
        }
        self.chain_id
    }

    /// The chain id as the 32-byte word that is hashed and bound.
    pub fn chain_word(&self) -> (word: [u8; 32])
        ensures
            word@ == spec_chain_id_word(self@.chain_id),
    {
        proof {
            use_type_invariant(self);
        }
        chain_id_word_bytes(self.chain_id)
    }

    /// The bytes that the proof is verified against.
    pub fn assemble(&self) -> (bytes: Vec<u8>)
        ensures
            bytes@ == spec_assemble(self@),
            bytes@.len() == BINDING_LEN,
            binding_wf(self@),
    {
        let contract = self.contract_address.to_bytes();
        let user = self.user_address.to_bytes();
        let acl = self.acl_contract_address.to_bytes();
        let word = self.chain_word();
        let mut bytes: Vec<u8> = Vec::with_capacity(BINDING_LEN);
        append_bytes(&mut bytes, contract.as_slice());
        append_bytes(&mut bytes, user.as_slice());
        append_bytes(&mut bytes, acl.as_slice());
        append_bytes(&mut bytes, word.as_slice());
        proof {
            use_type_invariant(self);
            self.contract_address.lemma_len();
            self.user_address.lemma_len();
            self.acl_contract_address.lemma_len();
        }
        bytes
    }
}

/// Appends `more` to `bytes`.
pub fn append_bytes(bytes: &mut Vec<u8>, more: &[u8])
    ensures
        final(bytes)@ == old(bytes)@ + more@,
{
    let ghost before = bytes@;
    let mut i: usize = 0;
    while i < more.len()
        invariant
            i <= more.len(),
            bytes@ == before + more@.take(i as int),
        decreases more.len() - i,
    {
        bytes.push(more[i]);
        proof {
            assert(more@.take(i + 1) == more@.take(i as int).push(more@[i as int]));
        }
        i += 1;
    }
    proof {
        assert(more@.take(more@.len() as int) == more@);
    }
}

/// Two well-formed binding contexts with the same bytes are the same
/// context: no two distinct tuples of contract, user, access-control
/// contract and chain are bound to a proof by the same bytes.
pub proof fn lemma_assemble_injective(a: BindingView, b: BindingView)
    requires
        binding_wf(a),
        binding_wf(b),
        spec_assemble(a) == spec_assemble(b),
    ensures
        a == b,
{
    let ea = spec_assemble(a);
    let eb = spec_assemble(b);
    assert(a.contract_address == ea.subrange(0, 20));
    assert(b.contract_address == eb.subrange(0, 20));
    assert(a.user_address == ea.subrange(20, 40));
    assert(b.user_address == eb.subrange(20, 40));
    assert(a.acl_contract_address == ea.subrange(40, 60));
    assert(b.acl_contract_address == eb.subrange(40, 60));
    assert(spec_chain_id_word(a.chain_id) == ea.subrange(60, 92));
    assert(spec_chain_id_word(b.chain_id) == eb.subrange(60, 92));
    crate::address::lemma_chain_id_word_injective(a.chain_id, b.chain_id);
}

} // verus!
