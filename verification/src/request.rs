//! Verification requests, their one transition out of the pending state,
//! and what a consumer writes and announces when it finalizes one.

use crate::binding::{append_bytes, BindingContext, BindingView};
use crate::ciphertext::{join_handles, spec_joined_handles, Ciphertext, CiphertextView};
use crate::pipeline::{
    bind_request, outcome_view, spec_bind, ProofError, Verified, VerifiedView,
};
use crate::tenant_keys::TenantKeys;
use vstd::prelude::*;

verus! {

/// The state of a request's verification.
#[derive(Clone, Copy, Debug, PartialEq, Eq, Structural)]
pub enum Outcome {
    /// Not verified yet; the request can be claimed.
    Pending,
    /// Verified, with the verdict and the time it was reached, in seconds
    /// since the Unix epoch. Terminal.
    Verified { valid: bool, at: u64 },
}

/// A request is claimable exactly while it is pending.
pub open spec fn claimable(outcome: Outcome) -> bool {
    outcome is Pending
}

/// The outcome once a verdict is offered: a pending request takes the
/// verdict, a request that has one keeps it.
pub open spec fn spec_finalize(outcome: Outcome, valid: bool, at: u64) -> Outcome {
    match outcome {
        Outcome::Pending => Outcome::Verified { valid, at },
        Outcome::Verified { .. } => outcome,
    }
}

/// A verdict was offered to a request that already has one.
#[derive(Clone, Copy, Debug, PartialEq, Eq, Structural)]
pub struct AlreadyFinal {
    /// The request.
    pub request_id: i64,
}

/// A queued unit of work.
#[derive(Clone, Debug)]
pub struct VerificationRequest {
    id: i64,
    input: Vec<u8>,
    chain_id: i32,
    contract_address: String,
    user_address: String,
    outcome: Outcome,
}

/// A request as plain values.
pub ghost struct RequestView {
    /// The request's identifier in the queue.
    pub id: i64,
    /// The raw proof-and-ciphertext payload.
    pub input: Seq<u8>,
    /// The chain, and so the tenant, that the request belongs to.
    pub chain_id: i32,
    /// The contract the ciphertexts are meant for, as text.
    pub contract_address: Seq<char>,
    /// The user who submitted the ciphertexts, as text.
    pub user_address: Seq<char>,
    /// The state of the request's verification.
    pub outcome: Outcome,
}

impl View for VerificationRequest {
    type V = RequestView;

    closed spec fn view(&self) -> RequestView {
        RequestView {
            id: self.id,
            input: self.input@,
            chain_id: self.chain_id,
            contract_address: self.contract_address@,
            user_address: self.user_address@,
            outcome: self.outcome,
        }
    }
}

impl VerificationRequest {
    /// A pending request.
    pub fn new(
        id: i64,
        input: Vec<u8>,
        chain_id: i32,
        contract_address: String,
        user_address: String,
    ) -> (request: VerificationRequest)
        ensures
            request@ == (RequestView {
                id,
                input: input@,
                chain_id,
                contract_address: contract_address@,
                user_address: user_address@,
                outcome: Outcome::Pending,
            }),
    {
        VerificationRequest {
            id,
            input,
            chain_id,
            contract_address,
            user_address,
            outcome: Outcome::Pending,
        }
    }

    /// The request's identifier in the queue.
    pub fn id(&self) -> (id: i64)
        ensures
            id == self@.id,
    {
        self.id
    }

    /// The raw proof-and-ciphertext payload.
    pub fn input(&self) -> (input: &[u8])
        ensures
            input@ == self@.input,
    {
        self.input.as_slice()
    }

    /// The chain, and so the tenant, that the request belongs to.
    pub fn chain_id(&self) -> (chain_id: i32)
        ensures
            chain_id == self@.chain_id,
    {
        self.chain_id
    }

    /// The contract the ciphertexts are meant for, as text.
    pub fn contract_address(&self) -> (text: &str)
        ensures
            text@ == self@.contract_address,
    {
        self.contract_address.as_str()
    }

    /// The user who submitted the ciphertexts, as text.
    pub fn user_address(&self) -> (text: &str)
        ensures
            text@ == self@.user_address,
    {
        self.user_address.as_str()
    }

    /// Binds the request to its tenant's access-control contract. A request
    /// that names no valid contract, user or chain is refused, before the
    /// proof system sees it.
    pub fn bind(&self, keys: &TenantKeys) -> (bound: Result<BindingContext, ProofError>)
        ensures
            match bound {
                Ok(context) => Ok::<BindingView, ProofError>(context@) == spec_bind(
                    self@.contract_address,
                    self@.user_address,
                    self@.chain_id,
                    keys@.acl_contract_address,
                ),
                Err(refused) => Err::<BindingView, ProofError>(refused) == spec_bind(
                    self@.contract_address,
                    self@.user_address,
                    self@.chain_id,
                    keys@.acl_contract_address,
                ),
            },
    {
        bind_request(
            self.contract_address.as_str(),
            self.user_address.as_str(),
            self.chain_id,
            keys.acl_contract_address,
        )
    }

    /// The state of the request's verification.
    pub fn outcome(&self) -> (outcome: Outcome)
        ensures
            outcome == self@.outcome,
    {
        self.outcome
    }

    /// Whether the request still waits for its verdict.
    pub fn is_pending(&self) -> (pending: bool)
        ensures
            pending == claimable(self@.outcome),
    {
        match self.outcome {
            Outcome::Pending => true,
            Outcome::Verified { .. } => false,
        }
    }

    /// Records the verdict of a pending request. A request that already has
    /// a verdict keeps it, with its time, and the call is refused.
    pub fn finalize(&mut self, valid: bool, at: u64) -> (recorded: Result<(), AlreadyFinal>)
        ensures
            final(self)@ == (RequestView {
                outcome: spec_finalize(old(self)@.outcome, valid, at),
                ..old(self)@
            }),
            match recorded {
                Ok(_) => old(self)@.outcome is Pending,
                Err(refused) => !(old(self)@.outcome is Pending) && refused.request_id == old(
                    self,
                )@.id,
            },
    {
        match self.outcome {
            Outcome::Pending => {
                self.outcome = Outcome::Verified { valid, at };
                Ok(())
            },
            Outcome::Verified { .. } => Err(AlreadyFinal { request_id: self.id }),
        }
    }
}

/// A verdict is recorded once: whatever is offered to a request afterwards,
/// it keeps its first verdict and the time of it, and is never claimable
/// again.
pub proof fn lemma_first_verdict_stays(
    outcome: Outcome,
    valid: bool,
    at: u64,
    later_valid: bool,
    later_at: u64,
)
    ensures
        !claimable(spec_finalize(outcome, valid, at)),
        spec_finalize(spec_finalize(outcome, valid, at), later_valid, later_at) == spec_finalize(
            outcome,
            valid,
            at,
        ),
        outcome is Pending ==> spec_finalize(outcome, valid, at) == (Outcome::Verified {
            valid,
            at,
        }),
{
}

/// What a consumer writes, in the transaction that claimed the request,
/// when the request's verification has ended.
#[derive(Clone, Debug)]
pub struct Finalization {
    /// The request.
    pub request_id: i64,
    /// The verdict.
    pub verified: bool,
    /// The ciphertexts to store; none for a refused request.
    pub ciphertexts: Vec<Ciphertext>,
    /// The handles of the ciphertexts, joined in order.
    pub handles: Vec<u8>,
    /// The content digest of the ciphertexts; none for a refused request.
    pub digest: Option<Vec<u8>>,
}

/// A finalization as plain values.
pub ghost struct FinalizationView {
    pub request_id: i64,
    pub verified: bool,
    pub ciphertexts: Seq<CiphertextView>,
    pub handles: Seq<u8>,
    pub digest: Option<Seq<u8>>,
}

impl View for Finalization {
    type V = FinalizationView;

    open spec fn view(&self) -> FinalizationView {
        FinalizationView {
            request_id: self.request_id,
            verified: self.verified,
            ciphertexts: self.ciphertexts@.map_values(|c: Ciphertext| c@),
            handles: self.handles@,
            digest: match self.digest {
                Some(digest) => Some(digest@),
                None => None,
            },
        }
    }
}

/// The finalization of a request whose pipeline ended in `outcome`: a
/// verified request is recorded as true with its ciphertexts and digest, a
/// refused one as false with neither.
pub open spec fn spec_finalization(request_id: i64, outcome: VerifiedView) -> FinalizationView {
    match outcome {
        Ok((ciphertexts, digest)) => FinalizationView {
            request_id,
            verified: true,
            ciphertexts,
            handles: spec_joined_handles(ciphertexts),
            digest: Some(digest),
        },
        Err(_) => FinalizationView {
            request_id,
            verified: false,
            ciphertexts: Seq::empty(),
            handles: Seq::empty(),
            digest: None,
        },
    }
}

/// Decides what is written for a request whose pipeline ended in `outcome`.
pub fn plan_finalization(request_id: i64, outcome: Result<Verified, ProofError>) -> (plan:
    Finalization)
    ensures
        plan@ == spec_finalization(request_id, outcome_view(outcome)),
{
    match outcome {
        Ok((ciphertexts, digest)) => {
            let handles = join_handles(&ciphertexts);
            Finalization {
                request_id,
                verified: true,
                ciphertexts,
                handles,
                digest: Some(digest),
            }
        },
        Err(_) => {
            let plan = Finalization {
                request_id,
                verified: false,
                ciphertexts: Vec::new(),
                handles: Vec::new(),
                digest: None,
            };
            proof {
                assert(plan.ciphertexts@.map_values(|c: Ciphertext| c@) =~= Seq::<
                    CiphertextView,
                >::empty());
            }
            plan
        },
    }
}

/// The decimal digits of a number, most significant first, in ASCII.
pub open spec fn spec_decimal(n: nat) -> Seq<u8>
    decreases n,
{
    if n < 10 {
        seq![(48 + n) as u8]
    } else {
        spec_decimal(n / 10).push((48 + n % 10) as u8)
    }
}

/// The text of a completion notice: the request's identifier in decimal
/// (with `-` before a negative one), a colon, and `true` or `false` for the
/// verdict, in ASCII.
pub open spec fn spec_notice(request_id: i64, verified: bool) -> Seq<u8> {
    let sign = if request_id < 0 {
        seq![45u8]
    } else {
        Seq::<u8>::empty()
    };
    let magnitude = if request_id < 0 {
        (-(request_id as int)) as nat
    } else {
        request_id as nat
    };
    let verdict = if verified {
        seq![116u8, 114u8, 117u8, 101u8]
    } else {
        seq![102u8, 97u8, 108u8, 115u8, 101u8]
    };
    sign + spec_decimal(magnitude) + seq![58u8] + verdict
}

/// Appends the decimal digits of `n` to `out`.
pub fn push_decimal(out: &mut Vec<u8>, n: u64)
    ensures
        final(out)@ == old(out)@ + spec_decimal(n as nat),
    decreases n,
{
    if n >= 10 {
        push_decimal(out, n / 10);
    }
    out.push(48 + (n % 10) as u8);
}

/// What a consumer publishes once a request is finalized: the request and
/// its verdict.
#[derive(Clone, Copy, Debug, PartialEq, Eq, Structural)]
pub struct CompletionNotice {
    /// The request.
    pub request_id: i64,
    /// The verdict.
    pub verified: bool,
}

impl CompletionNotice {
    /// The notice of a finalization.
    pub fn of(plan: &Finalization) -> (notice: CompletionNotice)
        ensures
            notice.request_id == plan.request_id,
            notice.verified == plan.verified,
    {
        CompletionNotice { request_id: plan.request_id, verified: plan.verified }
    }

    /// The text that is published for the notice.
    pub fn payload(&self) -> (text: Vec<u8>)
        ensures
            text@ == spec_notice(self.request_id, self.verified),
    {
        let mut text: Vec<u8> = Vec::new();
        let magnitude: u64 = if self.request_id < 0 {
            text.push(45);
            if self.request_id == i64::MIN {
                0x8000_0000_0000_0000
            } else {
                (-self.request_id) as u64
            }
        } else {
            self.request_id as u64
        };
        push_decimal(&mut text, magnitude);
        text.push(58);
        if self.verified {
            append_bytes(&mut text, &[116u8, 114u8, 117u8, 101u8]);
        } else {
            append_bytes(&mut text, &[102u8, 97u8, 108u8, 115u8, 101u8]);
        }
        proof {
            assert(text@ =~= spec_notice(self.request_id, self.verified));
        }
        text
    }
}

} // verus!
