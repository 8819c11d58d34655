use zkproof_worker::address::Address;
use zkproof_worker::ciphertext::{Ciphertext, FheType};
use zkproof_worker::consumer::{
    start, step, verification_event, ConsumerAction, ConsumerEvent, ConsumerState, ExitReason,
};
use zkproof_worker::pipeline::{
    bind_request, verify_proof, Handed, ProofCheck, Run, UnusableKeys,
};
use zkproof_worker::request::{
    plan_finalization, CompletionNotice, Finalization, Outcome, VerificationRequest,
};
use zkproof_worker::tenant_keys::{TenantKeyCache, TenantKeys};

const CONTRACT: &str = "0xaaaaaaaaaaaaaaaaaaaaaaaaaaaaaaaaaaaaaaaa";
const USER: &str = "0xbbbbbbbbbbbbbbbbbbbbbbbbbbbbbbbbbbbbbbbb";
const OTHER_USER: &str = "0xbbbbbbbbbbbbbbbbbbbbbbbbbbbbbbbbbbbbbbbc";
const ACL: [u8; 20] = [0xcc; 20];

/// The queue table and what the consumers wrote beside it.
struct Store {
    requests: Vec<VerificationRequest>,
    locked: Vec<bool>,
    ciphertexts: Vec<(i64, Ciphertext)>,
    digests: Vec<(i64, Vec<u8>)>,
    notices: Vec<String>,
    clock: u64,
}

impl Store {
    fn new() -> Store {
        Store {
            requests: Vec::new(),
            locked: Vec::new(),
            ciphertexts: Vec::new(),
            digests: Vec::new(),
            notices: Vec::new(),
            clock: 1_000,
        }
    }

    fn insert(&mut self, id: i64, chain_id: i32, contract: &str, user: &str, input: Vec<u8>) {
        self.requests.push(VerificationRequest::new(
            id,
            input,
            chain_id,
            String::from(contract),
            String::from(user),
        ));
        self.locked.push(false);
        self.requests.sort_by_key(|r| r.id());
    }

    fn claim(&mut self) -> Option<usize> {
        let found = (0..self.requests.len())
            .find(|&row| self.requests[row].is_pending() && !self.locked[row]);
        if let Some(row) = found {
            self.locked[row] = true;
        }
        found
    }

    fn remaining(&self) -> i64 {
        (0..self.requests.len())
            .filter(|&row| self.requests[row].is_pending() && !self.locked[row])
            .count() as i64
    }
}

/// The key store: keys for the listed chains, and a count of the fetches.
struct KeyStore {
    chains: Vec<i32>,
    fetches: usize,
    server_key: Vec<u8>,
}

impl KeyStore {
    fn fetch(&mut self, chain_id: i32) -> Result<TenantKeys, String> {
        self.fetches += 1;
        if self.chains.contains(&chain_id) {
            Ok(TenantKeys {
                tenant_id: chain_id,
                acl_contract_address: Address::from_bytes(ACL),
                server_key: self.server_key.clone(),
                public_key: vec![2],
                public_params: vec![3],
            })
        } else {
            Err(format!("no keys for chain {}", chain_id))
        }
    }
}

/// A payload that this stand-in for the proof system accepts under `binding`
/// and expands to one 64-bit value.
fn valid_payload(binding: &[u8]) -> Vec<u8> {
    let mut payload = b"list:".to_vec();
    payload.extend_from_slice(binding);
    payload
}

/// Stands in for the proof system: keys are readable unless the server key
/// is empty, a payload conforms if it starts with `list:`, and its proof
/// holds under the binding bytes that follow.
fn check(payload: &[u8], keys: &TenantKeys, binding: &[u8]) -> ProofCheck {
    if keys.server_key.is_empty() {
        return ProofCheck::Unreadable(UnusableKeys::ServerKey);
    }
    match payload.strip_prefix(b"list:") {
        None => ProofCheck::NotConformant,
        Some(bound) if bound == binding => ProofCheck::Expanded {
            kinds: vec![Some(FheType::Uint64)],
            values: vec![Handed::Value(vec![6, 4])],
        },
        Some(_) => ProofCheck::InvalidProof,
    }
}

fn binding_bytes(contract: &str, user: &str, chain_id: i32) -> Vec<u8> {
    bind_request(contract, user, chain_id, Address::from_bytes(ACL)).unwrap().assemble()
}

/// Runs one consumer until it waits or ends; returns the last action.
fn run(store: &mut Store, cache: &mut TenantKeyCache, keys: &mut KeyStore) -> ConsumerAction {
    let mut decision = start();
    let mut row: usize = 0;
    let mut resolved: Option<TenantKeys> = None;
    let mut plan: Option<Finalization> = None;
    loop {
        let event = match decision.action {
            ConsumerAction::Claim => match store.claim() {
                Some(claimed) => {
                    row = claimed;
                    ConsumerEvent::Claimed
                }
                None => ConsumerEvent::NothingClaimed,
            },
            ConsumerAction::ResolveKeys => {
                let chain_id = store.requests[row].chain_id();
                let found = match cache.get(chain_id) {
                    Some(found) => Ok(found),
                    None => cache.store_fetched(chain_id, keys.fetch(chain_id)),
                };
                match found {
                    Ok(found) => {
                        resolved = Some(found);
                        ConsumerEvent::KeysResolved
                    }
                    Err(_) => ConsumerEvent::KeysUnavailable,
                }
            }
            ConsumerAction::Verify => {
                let request = &store.requests[row];
                let tenant = resolved.take().unwrap();
                let outcome: Run = match request.bind(&tenant) {
                    Ok(context) => {
                        let report = check(request.input(), &tenant, &context.assemble());
                        verify_proof(request.input(), &context, &report)
                    }
                    Err(refused) => Ok(Err(refused)),
                };
                let event = verification_event(&outcome);
                if let Ok(verdict) = outcome {
                    plan = Some(plan_finalization(request.id(), verdict));
                }
                event
            }
            ConsumerAction::Finalize { verified } => {
                let plan = plan.as_ref().unwrap();
                assert_eq!(plan.verified, verified);
                store.requests[row].finalize(verified, store.clock).unwrap();
                for ciphertext in &plan.ciphertexts {
                    store.ciphertexts.push((plan.request_id, ciphertext.clone()));
                }
                if let Some(digest) = &plan.digest {
                    store.digests.push((plan.request_id, digest.clone()));
                }
                store.locked[row] = false;
                ConsumerEvent::Committed
            }
            ConsumerAction::Notify { verified } => {
                let notice = CompletionNotice::of(plan.as_ref().unwrap());
                assert_eq!(notice.verified, verified);
                store.notices.push(String::from_utf8(notice.payload()).unwrap());
                ConsumerEvent::Notified
            }
            ConsumerAction::CountRemaining => ConsumerEvent::Remaining(store.remaining()),
            ConsumerAction::AbandonAndWait => {
                store.locked[row] = false;
                return decision.action;
            }
            ConsumerAction::Wait | ConsumerAction::Exit(_) => return decision.action,
        };
        decision = step(decision.next, event);
    }
}

#[test]
fn a_valid_request_is_verified_stored_and_announced() {
    let mut store = Store::new();
    let mut cache = TenantKeyCache::new();
    let mut keys = KeyStore { chains: vec![7], fetches: 0, server_key: vec![1] };
    store.insert(1, 7, CONTRACT, USER, valid_payload(&binding_bytes(CONTRACT, USER, 7)));

    assert_eq!(run(&mut store, &mut cache, &mut keys), ConsumerAction::Wait);

    assert_eq!(store.requests[0].outcome(), Outcome::Verified { valid: true, at: 1_000 });
    assert_eq!(keys.fetches, 1);
    assert_eq!(store.ciphertexts.len(), 1);
    assert_eq!(store.ciphertexts[0].0, 1);
    assert_eq!(store.ciphertexts[0].1.ct_type, FheType::Uint64.tag());
    assert_eq!(store.ciphertexts[0].1.ct_type, 5);
    assert_eq!(store.ciphertexts[0].1.compressed, vec![6, 4]);
    assert_eq!(store.ciphertexts[0].1.handle.len(), 32);
    assert_eq!(store.digests.len(), 1);
    assert_eq!(store.digests[0].0, 1);
    assert_eq!(store.digests[0].1.len(), 32);
    assert_eq!(store.notices, vec![String::from("1:true")]);

    // A second request of the same chain finds the keys resident.
    store.insert(2, 7, CONTRACT, USER, valid_payload(&binding_bytes(CONTRACT, USER, 7)));
    assert_eq!(run(&mut store, &mut cache, &mut keys), ConsumerAction::Wait);
    assert_eq!(keys.fetches, 1);
    assert_eq!(store.requests[1].outcome(), Outcome::Verified { valid: true, at: 1_000 });
    assert_eq!(store.notices, vec![String::from("1:true"), String::from("2:true")]);

    // Nothing is left to claim, and nothing is processed twice.
    assert_eq!(run(&mut store, &mut cache, &mut keys), ConsumerAction::Wait);
    assert_eq!(store.ciphertexts.len(), 2);
    assert_eq!(store.notices.len(), 2);
}

#[test]
fn a_corrupted_proof_is_recorded_as_false() {
    let mut store = Store::new();
    let mut cache = TenantKeyCache::new();
    let mut keys = KeyStore { chains: vec![7], fetches: 0, server_key: vec![1] };
    let mut payload = valid_payload(&binding_bytes(CONTRACT, USER, 7));
    let last = payload.len() - 1;
    payload[last] ^= 0xff;
    store.insert(2, 7, CONTRACT, USER, payload);

    assert_eq!(run(&mut store, &mut cache, &mut keys), ConsumerAction::Wait);

    assert_eq!(store.requests[0].outcome(), Outcome::Verified { valid: false, at: 1_000 });
    assert!(store.ciphertexts.is_empty());
    assert!(store.digests.is_empty());
    assert_eq!(store.notices, vec![String::from("2:false")]);
}

#[test]
fn a_malformed_payload_is_recorded_as_false() {
    let mut store = Store::new();
    let mut cache = TenantKeyCache::new();
    let mut keys = KeyStore { chains: vec![7], fetches: 0, server_key: vec![1] };
    store.insert(3, 7, CONTRACT, USER, b"not a list".to_vec());
    assert_eq!(run(&mut store, &mut cache, &mut keys), ConsumerAction::Wait);
    assert_eq!(store.requests[0].outcome(), Outcome::Verified { valid: false, at: 1_000 });
    assert!(store.ciphertexts.is_empty());
    assert_eq!(store.notices, vec![String::from("3:false")]);
}

#[test]
fn a_proof_replayed_under_another_binding_is_refused() {
    let proof = valid_payload(&binding_bytes(CONTRACT, USER, 7));
    let mut store = Store::new();
    let mut cache = TenantKeyCache::new();
    let mut keys = KeyStore { chains: vec![7, 8], fetches: 0, server_key: vec![1] };
    store.insert(1, 7, CONTRACT, USER, proof.clone());
    store.insert(2, 8, CONTRACT, USER, proof.clone());
    store.insert(3, 7, USER, USER, proof.clone());
    store.insert(4, 7, CONTRACT, OTHER_USER, proof.clone());
    assert_eq!(run(&mut store, &mut cache, &mut keys), ConsumerAction::Wait);
    let verdicts: Vec<Outcome> = store.requests.iter().map(|r| r.outcome()).collect();
    assert_eq!(
        verdicts,
        vec![
            Outcome::Verified { valid: true, at: 1_000 },
            Outcome::Verified { valid: false, at: 1_000 },
            Outcome::Verified { valid: false, at: 1_000 },
            Outcome::Verified { valid: false, at: 1_000 },
        ]
    );
    assert_eq!(store.notices, vec!["1:true", "2:false", "3:false", "4:false"]);
}

#[test]
fn a_request_with_an_invalid_address_is_recorded_as_false() {
    let mut store = Store::new();
    let mut cache = TenantKeyCache::new();
    let mut keys = KeyStore { chains: vec![7], fetches: 0, server_key: vec![1] };
    store.insert(5, 7, "0xAA..", "0xBB..", b"list:".to_vec());
    assert_eq!(run(&mut store, &mut cache, &mut keys), ConsumerAction::Wait);
    assert_eq!(store.requests[0].outcome(), Outcome::Verified { valid: false, at: 1_000 });
    assert_eq!(store.notices, vec![String::from("5:false")]);
}

#[test]
fn missing_keys_leave_the_request_pending_and_unlocked() {
    let mut store = Store::new();
    let mut cache = TenantKeyCache::new();
    let mut keys = KeyStore { chains: vec![], fetches: 0, server_key: vec![1] };
    store.insert(1, 7, CONTRACT, USER, valid_payload(&binding_bytes(CONTRACT, USER, 7)));
    assert_eq!(run(&mut store, &mut cache, &mut keys), ConsumerAction::AbandonAndWait);
    assert_eq!(store.requests[0].outcome(), Outcome::Pending);
    assert!(!store.locked[0]);
    assert!(store.notices.is_empty());
    assert!(store.ciphertexts.is_empty());
    assert_eq!(cache.len(), 0);

    // Once the keys exist, the same request is claimed again and verified.
    keys.chains.push(7);
    assert_eq!(run(&mut store, &mut cache, &mut keys), ConsumerAction::Wait);
    assert_eq!(store.requests[0].outcome(), Outcome::Verified { valid: true, at: 1_000 });
    assert_eq!(keys.fetches, 2);
}

#[test]
fn keys_that_cannot_be_used_leave_the_request_pending() {
    let mut store = Store::new();
    let mut cache = TenantKeyCache::new();
    let mut keys = KeyStore { chains: vec![7], fetches: 0, server_key: Vec::new() };
    store.insert(1, 7, CONTRACT, USER, valid_payload(&binding_bytes(CONTRACT, USER, 7)));
    assert_eq!(run(&mut store, &mut cache, &mut keys), ConsumerAction::AbandonAndWait);
    assert_eq!(store.requests[0].outcome(), Outcome::Pending);
    assert!(!store.locked[0]);
    assert!(store.notices.is_empty());
    assert!(store.ciphertexts.is_empty());
}

#[test]
fn requests_are_taken_oldest_first_and_each_once() {
    let mut store = Store::new();
    let mut cache = TenantKeyCache::new();
    let mut keys = KeyStore { chains: vec![7], fetches: 0, server_key: vec![1] };
    for id in [3, 1, 2] {
        store.insert(id, 7, CONTRACT, USER, valid_payload(&binding_bytes(CONTRACT, USER, 7)));
    }
    // A row that another consumer holds is skipped, not waited for.
    store.locked[0] = true;
    assert_eq!(run(&mut store, &mut cache, &mut keys), ConsumerAction::Wait);
    assert_eq!(store.notices, vec!["2:true", "3:true"]);
    assert_eq!(store.requests[0].outcome(), Outcome::Pending);
    store.locked[0] = false;
    assert_eq!(run(&mut store, &mut cache, &mut keys), ConsumerAction::Wait);
    assert_eq!(store.notices, vec!["2:true", "3:true", "1:true"]);
    assert_eq!(store.ciphertexts.len(), 3);
    assert_eq!(keys.fetches, 1);
}

#[test]
fn a_cancelled_consumer_claims_nothing() {
    let decision = step(start().next, ConsumerEvent::Cancelled);
    assert_eq!(decision.next, ConsumerState::Stopped);
    assert_eq!(decision.action, ConsumerAction::Exit(ExitReason::Cancelled));
}
