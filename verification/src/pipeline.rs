//! The proof-verification pipeline: from the outcome of the cryptographic
//! check to the ciphertexts and the content digest of a request.
//!
//! The pipeline reads nothing but its arguments. The proof system itself
//! (reading the tenant's keys, installing the server key, the conformance
//! check, the proof check against the binding bytes, the expansion) runs
//! where a failure of it can be contained, and reports what it found as a
//! [`ProofCheck`]. From that report the pipeline decides the verdict and
//! derives handles and digest.

use crate::address::{spec_parse_address, Address};
use crate::binding::{
    binding_wf, lemma_assemble_injective, spec_assemble, BindingContext, BindingError,
    BindingView,
};
use crate::ciphertext::{
    content_digest, create_ciphertext, lemma_handles_distinct, spec_ciphertext,
    spec_content_digest, Ciphertext, CiphertextView, ExpandedCiphertext, ExpandedView, FheType,
    MAX_CIPHERTEXTS,
};
use crate::hashing::{keccak256, spec_keccak256, HASH_LEN};
use vstd::prelude::*;

verus! {

/// Why a request's proof did not verify. Each of these is an expected
/// outcome of a request, not a fault of the worker.
#[derive(Clone, Copy, Debug, PartialEq, Eq, Structural)]
pub enum ProofError {
    /// The payload does not conform to the current ciphertext-list format.
    Malformed,
    /// The proof is not valid for the payload under the binding context.
    InvalidProof,
    /// The list holds more ciphertexts than a handle can number.
    TooManyCiphertexts,
    /// The request names no valid contract, user or chain to bind to.
    InvalidBinding(BindingError),
}

/// What the cryptographic check made of a payload.
#[derive(Debug)]
pub enum Expansion {
    /// The conformance check refused the payload.
    Malformed,
    /// The payload conforms, but its proof is invalid.
    InvalidProof,
    /// The proof is valid, but the list holds more values than a handle
    /// can number.
    Oversized,
    /// The proof is valid; these are the values of the list, in order.
    Expanded(Vec<ExpandedCiphertext>),
}

/// An expansion as plain values.
pub ghost enum ExpansionView {
    Malformed,
    InvalidProof,
    Oversized,
    Expanded(Seq<ExpandedView>),
}

impl View for Expansion {
    type V = ExpansionView;

    open spec fn view(&self) -> ExpansionView {
        match self {
            Expansion::Malformed => ExpansionView::Malformed,
            Expansion::InvalidProof => ExpansionView::InvalidProof,
            Expansion::Oversized => ExpansionView::Oversized,
            Expansion::Expanded(items) => ExpansionView::Expanded(
                items@.map_values(|item: ExpandedCiphertext| item@),
            ),
        }
    }
}

/// The ciphertexts and the content digest of a verified request.
pub type Verified = (Vec<Ciphertext>, Vec<u8>);

/// The outcome of the pipeline as plain values.
pub type VerifiedView = Result<(Seq<CiphertextView>, Seq<u8>), ProofError>;

/// The plain values of an outcome.
pub open spec fn outcome_view(outcome: Result<Verified, ProofError>) -> VerifiedView {
    match outcome {
        Ok((ciphertexts, digest)) => Ok(
            (ciphertexts@.map_values(|c: Ciphertext| c@), digest@),
        ),
        Err(error) => Err(error),
    }
}

/// The ciphertexts of an expanded list, each with its handle.
pub open spec fn spec_ciphertexts(
    payload_hash: Seq<u8>,
    items: Seq<ExpandedView>,
    binding: BindingView,
) -> Seq<CiphertextView> {
    Seq::new(items.len(), |i: int| spec_ciphertext(payload_hash, i, items[i], binding))
}

/// What the pipeline returns: the error of a refused payload or proof, or
/// the ciphertexts in the order of the list with the digest over their
/// handles.
pub open spec fn spec_verify(
    raw: Seq<u8>,
    binding: BindingView,
    expansion: ExpansionView,
) -> VerifiedView {
    match expansion {
        ExpansionView::Malformed => Err(ProofError::Malformed),
        ExpansionView::InvalidProof => Err(ProofError::InvalidProof),
        ExpansionView::Oversized => Err(ProofError::TooManyCiphertexts),
        ExpansionView::Expanded(items) => if items.len() > MAX_CIPHERTEXTS {
            Err(ProofError::TooManyCiphertexts)
        } else {
            let ciphertexts = spec_ciphertexts(spec_keccak256(raw), items, binding);
            Ok((ciphertexts, spec_content_digest(ciphertexts)))
        },
    }
}

/// The binding of a request, given as text, to a tenant's access-control
/// contract: the contract address is examined first, then the user address,
/// then the chain id, and the first that is invalid refuses the request.
pub open spec fn spec_bind(
    contract_address: Seq<char>,
    user_address: Seq<char>,
    chain_id: i32,
    acl_contract_address: Seq<u8>,
) -> Result<BindingView, ProofError> {
    if spec_parse_address(contract_address) is None {
        Err(ProofError::InvalidBinding(BindingError::InvalidContractAddress))
    } else if spec_parse_address(user_address) is None {
        Err(ProofError::InvalidBinding(BindingError::InvalidUserAddress))
    } else if chain_id < 0 {
        Err(ProofError::InvalidBinding(BindingError::NegativeChainId))
    } else {
        Ok(
            BindingView {
                contract_address: spec_parse_address(contract_address)->0,
                user_address: spec_parse_address(user_address)->0,
                acl_contract_address,
                chain_id: chain_id as int,
            },
        )
    }
}

/// Binds a request to the tenant's access-control contract, before its
/// proof is checked. A request whose contract address, user address or
/// chain id is invalid is refused as a request, with
/// `ProofError::InvalidBinding`.
pub fn bind_request(
    contract_address: &str,
    user_address: &str,
    chain_id: i32,
    acl_contract_address: Address,
) -> (bound: Result<BindingContext, ProofError>)
    ensures
        match bound {
            Ok(context) => Ok::<BindingView, ProofError>(context@) == spec_bind(
                contract_address@,
                user_address@,
                chain_id,
                acl_contract_address@,
            ) && binding_wf(context@),
            Err(error) => Err::<BindingView, ProofError>(error) == spec_bind(
                contract_address@,
                user_address@,
                chain_id,
                acl_contract_address@,
            ),
        },
{
    match BindingContext::from_text(contract_address, user_address, chain_id, acl_contract_address) {
        Ok(context) => Ok(context),
        Err(error) => Err(ProofError::InvalidBinding(error)),
    }
}

/// Turns what the proof system made of `raw` under `context` into the
/// request's ciphertexts and content digest.
pub fn conclude(raw: &[u8], context: &BindingContext, expansion: &Expansion) -> (outcome:
    Result<Verified, ProofError>)
    ensures
        outcome_view(outcome) == spec_verify(raw@, context@, expansion@),
        outcome matches Ok((_, digest)) ==> digest@.len() == HASH_LEN,
{
    let items = match expansion {
        Expansion::Malformed => {
            return Err(ProofError::Malformed);
        },
        Expansion::InvalidProof => {
            return Err(ProofError::InvalidProof);
        },
        Expansion::Oversized => {
            return Err(ProofError::TooManyCiphertexts);
        },
        Expansion::Expanded(items) => items,
    };
    if items.len() > MAX_CIPHERTEXTS {
        return Err(ProofError::TooManyCiphertexts);
    }
    let payload_hash = keccak256(raw);
    let ghost views = items@.map_values(|item: ExpandedCiphertext| item@);
    let ghost expected = spec_ciphertexts(payload_hash@, views, context@);
    let mut ciphertexts: Vec<Ciphertext> = Vec::new();
    let mut i: usize = 0;
    while i < items.len()
        invariant
            i <= items.len() <= MAX_CIPHERTEXTS,
            views == items@.map_values(|item: ExpandedCiphertext| item@),
            expected == spec_ciphertexts(payload_hash@, views, context@),
            ciphertexts@.map_values(|c: Ciphertext| c@) == expected.take(i as int),
        decreases items.len() - i,
    {
        let ciphertext = create_ciphertext(payload_hash.as_slice(), i as u8, &items[i], context);
        proof {
            assert(ciphertext@ == expected[i as int]);
            assert(ciphertexts@.push(ciphertext).map_values(|c: Ciphertext| c@)
                == ciphertexts@.map_values(|c: Ciphertext| c@).push(ciphertext@));
            assert(expected.take(i + 1) == expected.take(i as int).push(expected[i as int]));
        }
        ciphertexts.push(ciphertext);
        i += 1;
    }
    proof {
        assert(expected.take(expected.len() as int) == expected);
    }
    let digest = content_digest(&ciphertexts);
    Ok((ciphertexts, digest))
}

/// Which of a tenant's keys the proof system could not use.
#[derive(Clone, Copy, Debug, PartialEq, Eq, Structural)]
pub enum UnusableKeys {
    /// The server key could not be read.
    ServerKey,
    /// The public key that proofs are checked against could not be read.
    PublicKey,
    /// The public parameters of the proof system could not be read.
    PublicParams,
    /// The server key could not compress a value of a valid list.
    CompressionKey,
}

/// What the proof system handed out for one place of an expanded list.
#[derive(Clone, Debug)]
pub enum Handed {
    /// The value, compressed and serialized.
    Value(Vec<u8>),
    /// No value of the type that the list tells for the place.
    Refused,
    /// A value that the tenant's server key could not compress.
    KeyFault,
}

/// What was handed out, as plain values.
pub ghost enum HandedView {
    Value(Seq<u8>),
    Refused,
    KeyFault,
}

impl View for Handed {
    type V = HandedView;

    open spec fn view(&self) -> HandedView {
        match self {
            Handed::Value(bytes) => HandedView::Value(bytes@),
            Handed::Refused => HandedView::Refused,
            Handed::KeyFault => HandedView::KeyFault,
        }
    }
}

/// What the proof system found for a payload under a tenant's keys and the
/// binding bytes.
#[derive(Debug)]
pub enum ProofCheck {
    /// One of the tenant's keys could not be read.
    Unreadable(UnusableKeys),
    /// The conformance check refused the payload.
    NotConformant,
    /// The payload conforms, but its proof is invalid.
    InvalidProof,
    /// The proof is valid and the list is expanded.
    Expanded {
        /// The type that the list tells for each place; none where it tells
        /// no type that has a tag.
        kinds: Vec<Option<FheType>>,
        /// What was handed out for each place.
        values: Vec<Handed>,
    },
}

/// What the proof system found, as plain values.
pub ghost enum ProofCheckView {
    Unreadable(UnusableKeys),
    NotConformant,
    InvalidProof,
    Expanded { kinds: Seq<Option<FheType>>, values: Seq<HandedView> },
}

impl View for ProofCheck {
    type V = ProofCheckView;

    open spec fn view(&self) -> ProofCheckView {
        match self {
            ProofCheck::Unreadable(unusable) => ProofCheckView::Unreadable(*unusable),
            ProofCheck::NotConformant => ProofCheckView::NotConformant,
            ProofCheck::InvalidProof => ProofCheckView::InvalidProof,
            ProofCheck::Expanded { kinds, values } => ProofCheckView::Expanded {
                kinds: kinds@,
                values: values@.map_values(|value: Handed| value@),
            },
        }
    }
}

/// Whether every place of a list has a type with a tag and a value.
pub open spec fn all_handed(kinds: Seq<Option<FheType>>, values: Seq<HandedView>) -> bool {
    &&& values.len() == kinds.len()
    &&& forall|i: int|
        #![trigger kinds[i]]
        #![trigger values[i]]
        0 <= i < kinds.len() ==> kinds[i] is Some && values[i] is Value
}

/// Whether the server key failed on some place.
pub open spec fn some_key_fault(values: Seq<HandedView>) -> bool {
    exists|i: int| 0 <= i < values.len() && #[trigger] values[i] is KeyFault
}

/// The expansion that the types and the handed-out values of a list make.
/// A list of more than `MAX_CIPHERTEXTS` places is oversized, whatever was
/// handed out. Otherwise a fault of the server key on any place gives no
/// expansion: it is the tenant's keys that are at fault, not the payload.
/// Otherwise the list is expanded if every place has a type and a value,
/// item by item in order, and the payload is malformed if not.
pub open spec fn spec_gather(kinds: Seq<Option<FheType>>, values: Seq<HandedView>) -> Result<
    ExpansionView,
    UnusableKeys,
> {
    if kinds.len() > MAX_CIPHERTEXTS {
        Ok(ExpansionView::Oversized)
    } else if some_key_fault(values) {
        Err(UnusableKeys::CompressionKey)
    } else if all_handed(kinds, values) {
        Ok(
            ExpansionView::Expanded(
                Seq::new(
                    kinds.len(),
                    |i: int| ExpandedView { kind: kinds[i]->0, compressed: values[i]->Value_0 },
                ),
            ),
        )
    } else {
        Ok(ExpansionView::Malformed)
    }
}

/// Pairs the types of an expanded list with the values handed out for its
/// places.
pub fn gather(kinds: &Vec<Option<FheType>>, values: &Vec<Handed>) -> (gathered: Result<
    Expansion,
    UnusableKeys,
>)
    ensures
        match gathered {
            Ok(expansion) => Ok::<ExpansionView, UnusableKeys>(expansion@) == spec_gather(
                kinds@,
                values@.map_values(|value: Handed| value@),
            ),
            Err(unusable) => Err::<ExpansionView, UnusableKeys>(unusable) == spec_gather(
                kinds@,
                values@.map_values(|value: Handed| value@),
            ),
        },
{
    let ghost views = values@.map_values(|value: Handed| value@);
    if kinds.len() > MAX_CIPHERTEXTS {
        return Ok(Expansion::Oversized);
    }
    let mut at: usize = 0;
    while at < values.len()
        invariant
            at <= values.len(),
            kinds.len() <= MAX_CIPHERTEXTS,
            views == values@.map_values(|value: Handed| value@),
            forall|i: int| 0 <= i < at ==> !(#[trigger] views[i] is KeyFault),
        decreases values.len() - at,
    {
        if let Handed::KeyFault = &values[at] {
            proof {
                assert(views[at as int] is KeyFault);
                assert(some_key_fault(views));
            }
            return Err(UnusableKeys::CompressionKey);
        }
        at += 1;
    }
    proof {
        assert(!some_key_fault(views));
    }
    if values.len() != kinds.len() {
        return Ok(Expansion::Malformed);
    }
    let ghost expected = Seq::new(
        kinds@.len(),
        |i: int| ExpandedView { kind: kinds@[i]->0, compressed: views[i]->Value_0 },
    );
    let mut items: Vec<ExpandedCiphertext> = Vec::new();
    let mut index: usize = 0;
    while index < kinds.len()
        invariant
            index <= kinds.len() == values.len(),
            kinds.len() <= MAX_CIPHERTEXTS,
            views == values@.map_values(|value: Handed| value@),
            !some_key_fault(views),
            expected == Seq::new(
                kinds@.len(),
                |i: int| ExpandedView { kind: kinds@[i]->0, compressed: views[i]->Value_0 },
            ),
            items@.len() == index,
            forall|i: int|
                0 <= i < index ==> (#[trigger] kinds@[i]) is Some && views[i] is Value,
            items@.map_values(|item: ExpandedCiphertext| item@) == expected.take(index as int),
        decreases kinds.len() - index,
    {
        let kind = match kinds[index] {
            Some(kind) => kind,
            None => {
                proof {
                    assert(kinds@[index as int] is None);
                    assert(!all_handed(kinds@, views));
                }
                return Ok(Expansion::Malformed);
            },
        };
        let compressed = match &values[index] {
            Handed::Value(bytes) => {
                let copy = bytes.clone();
                proof {
                    assert(copy@ =~= bytes@);
                }
                copy
            },
            _ => {
                proof {
                    assert(!(views[index as int] is Value));
                    assert(!all_handed(kinds@, views));
                }
                return Ok(Expansion::Malformed);
            },
        };
        let item = ExpandedCiphertext { kind, compressed };
        proof {
            assert(item@ == expected[index as int]);
            assert(items@.push(item).map_values(|item: ExpandedCiphertext| item@)
                == items@.map_values(|item: ExpandedCiphertext| item@).push(item@));
            assert(expected.take(index + 1) == expected.take(index as int).push(
                expected[index as int],
            ));
        }
        items.push(item);
        index += 1;
    }
    proof {
        assert(expected.take(expected.len() as int) == expected);
        assert(all_handed(kinds@, views));
    }
    Ok(Expansion::Expanded(items))
}

/// The outcome of a pipeline run: a verdict, or keys that could not be
/// used.
pub type Run = Result<Result<Verified, ProofError>, UnusableKeys>;

/// The outcome of a pipeline run as plain values.
pub type RunView = Result<VerifiedView, UnusableKeys>;

/// The plain values of the outcome of a run.
pub open spec fn run_view(run: Run) -> RunView {
    match run {
        Ok(outcome) => Ok(outcome_view(outcome)),
        Err(unusable) => Err(unusable),
    }
}

/// What the pipeline makes of the proof system's report. Keys that cannot
/// be used give no verdict. A payload that does not conform is malformed,
/// an invalid proof is an invalid proof, and an expanded list is gathered
/// and turned into ciphertexts and a digest as `spec_verify` says.
pub open spec fn spec_run(raw: Seq<u8>, binding: BindingView, check: ProofCheckView) -> RunView {
    match check {
        ProofCheckView::Unreadable(unusable) => Err(unusable),
        ProofCheckView::NotConformant => Ok(spec_verify(raw, binding, ExpansionView::Malformed)),
        ProofCheckView::InvalidProof => Ok(
            spec_verify(raw, binding, ExpansionView::InvalidProof),
        ),
        ProofCheckView::Expanded { kinds, values } => match spec_gather(kinds, values) {
            Ok(expansion) => Ok(spec_verify(raw, binding, expansion)),
            Err(unusable) => Err(unusable),
        },
    }
}

/// Decides the verdict on `raw` under `context` from what the proof system
/// found, and returns the ciphertexts of a verified payload with their
/// content digest.
pub fn verify_proof(raw: &[u8], context: &BindingContext, check: &ProofCheck) -> (run: Run)
    ensures
        run_view(run) == spec_run(raw@, context@, check@),
        run matches Ok(Ok((_, digest))) ==> digest@.len() == HASH_LEN,
{
    match check {
        ProofCheck::Unreadable(unusable) => Err(*unusable),
        ProofCheck::NotConformant => Ok(conclude(raw, context, &Expansion::Malformed)),
        ProofCheck::InvalidProof => Ok(conclude(raw, context, &Expansion::InvalidProof)),
        ProofCheck::Expanded { kinds, values } => match gather(kinds, values) {
            Ok(expansion) => Ok(conclude(raw, context, &expansion)),
            Err(unusable) => Err(unusable),
        },
    }
}

/// The pipeline is a function of its arguments: two runs on the same
/// payload, binding context and expansion return the same ciphertexts and
/// the same digest.
pub proof fn lemma_verify_deterministic(
    raw: Seq<u8>,
    binding: BindingView,
    expansion: ExpansionView,
    first: VerifiedView,
    second: VerifiedView,
)
    requires
        first == spec_verify(raw, binding, expansion),
        second == spec_verify(raw, binding, expansion),
    ensures
        first == second,
{
}

/// The pipeline succeeds exactly on an expanded list of at most
/// `MAX_CIPHERTEXTS` values, and then returns one ciphertext per value, in
/// order and with its payload unchanged.
pub proof fn lemma_verify_success(raw: Seq<u8>, binding: BindingView, expansion: ExpansionView)
    ensures
        spec_verify(raw, binding, expansion) is Ok <==> (expansion matches ExpansionView::Expanded(
            items,
        ) && items.len() <= MAX_CIPHERTEXTS),
        spec_verify(raw, binding, expansion) matches Err(error) ==> error == (match expansion {
            ExpansionView::Malformed => ProofError::Malformed,
            ExpansionView::InvalidProof => ProofError::InvalidProof,
            _ => ProofError::TooManyCiphertexts,
        }),
        spec_verify(raw, binding, expansion) matches Ok((ciphertexts, digest)) ==> {
            &&& expansion matches ExpansionView::Expanded(items)
            &&& ciphertexts.len() == items.len()
            &&& forall|i: int|
                0 <= i < items.len() ==> (#[trigger] ciphertexts[i]).compressed
                    == items[i].compressed && ciphertexts[i].ct_type == items[i].kind.spec_tag()
            &&& digest == spec_content_digest(ciphertexts)
        },
{
}

/// No two ciphertexts of a verified request share a handle.
pub proof fn lemma_verified_handles_unique(
    raw: Seq<u8>,
    binding: BindingView,
    expansion: ExpansionView,
    i: int,
    j: int,
)
    requires
        spec_verify(raw, binding, expansion) is Ok,
        0 <= i < spec_verify(raw, binding, expansion)->Ok_0.0.len(),
        0 <= j < spec_verify(raw, binding, expansion)->Ok_0.0.len(),
        i != j,
    ensures
        spec_verify(raw, binding, expansion)->Ok_0.0[i].handle != spec_verify(
            raw,
            binding,
            expansion,
        )->Ok_0.0[j].handle,
{
    let items = expansion->Expanded_0;
    lemma_handles_distinct(
        spec_keccak256(raw),
        i,
        items[i].kind,
        j,
        items[j].kind,
        binding.acl_contract_address,
        binding.chain_id,
    );
}

/// A list of no values verifies to no ciphertexts: where the list is empty
/// the proof system has nothing to hand out, and the run succeeds.
pub proof fn lemma_empty_list_verifies(raw: Seq<u8>, binding: BindingView)
    ensures
        spec_gather(Seq::empty(), Seq::empty()) == Ok::<ExpansionView, UnusableKeys>(
            ExpansionView::Expanded(Seq::empty()),
        ),
        spec_run(
            raw,
            binding,
            ProofCheckView::Expanded { kinds: Seq::empty(), values: Seq::empty() },
        ) matches Ok(Ok((ciphertexts, _))) && ciphertexts.len() == 0,
{
    let kinds = Seq::<Option<FheType>>::empty();
    let values = Seq::<HandedView>::empty();
    assert(all_handed(kinds, values));
    assert(Seq::new(
        kinds.len(),
        |i: int| ExpandedView { kind: kinds[i]->0, compressed: values[i]->Value_0 },
    ) =~= Seq::<ExpandedView>::empty());
}

/// A fault of the tenant's keys never marks a request: unreadable keys, or
/// a server key that cannot compress a value of a list within the bound,
/// give no verdict.
pub proof fn lemma_key_fault_gives_no_verdict(
    raw: Seq<u8>,
    binding: BindingView,
    check: ProofCheckView,
)
    requires
        check is Unreadable || (check matches ProofCheckView::Expanded { kinds, values }
            && kinds.len() <= MAX_CIPHERTEXTS && some_key_fault(values)),
    ensures
        spec_run(raw, binding, check) is Err,
{
}

/// A proof that the proof system finds invalid under a binding context is
/// refused with nothing returned; and a context that differs in contract,
/// user, access-control contract or chain is bound by other bytes, so it is
/// another question that is put to the proof system.
pub proof fn lemma_other_binding_other_question(
    raw: Seq<u8>,
    first: BindingView,
    second: BindingView,
)
    requires
        binding_wf(first),
        binding_wf(second),
        first != second,
    ensures
        spec_assemble(first) != spec_assemble(second),
        spec_run(raw, second, ProofCheckView::InvalidProof) == Ok::<VerifiedView, UnusableKeys>(
            Err(ProofError::InvalidProof),
        ),
{
    if spec_assemble(first) == spec_assemble(second) {
        lemma_assemble_injective(first, second);
    }
}

} // verus!
