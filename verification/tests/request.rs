use zkproof_worker::ciphertext::{Ciphertext, ExpandedCiphertext, FheType};
use zkproof_worker::address::Address;
use zkproof_worker::binding::BindingContext;
use zkproof_worker::pipeline::{conclude, Expansion, ProofError};
use zkproof_worker::request::{
    plan_finalization, push_decimal, AlreadyFinal, CompletionNotice, Outcome, VerificationRequest,
};
use zkproof_worker::tenant_keys::TenantKeys;
use zkproof_worker::binding::BindingError;

fn request() -> VerificationRequest {
    VerificationRequest::new(
        1,
        vec![1, 2, 3],
        7,
        String::from("0xaaaaaaaaaaaaaaaaaaaaaaaaaaaaaaaaaaaaaaaa"),
        String::from("0xbbbbbbbbbbbbbbbbbbbbbbbbbbbbbbbbbbbbbbbb"),
    )
}

#[test]
fn a_new_request_is_pending() {
    let request = request();
    assert_eq!(request.id(), 1);
    assert_eq!(request.input(), &[1, 2, 3]);
    assert_eq!(request.chain_id(), 7);
    assert_eq!(request.contract_address(), "0xaaaaaaaaaaaaaaaaaaaaaaaaaaaaaaaaaaaaaaaa");
    assert_eq!(request.user_address(), "0xbbbbbbbbbbbbbbbbbbbbbbbbbbbbbbbbbbbbbbbb");
    assert_eq!(request.outcome(), Outcome::Pending);
    assert!(request.is_pending());
}

#[test]
fn a_verdict_is_recorded_once() {
    let mut request = request();
    assert_eq!(request.finalize(true, 100), Ok(()));
    assert_eq!(request.outcome(), Outcome::Verified { valid: true, at: 100 });
    assert!(!request.is_pending());
    assert_eq!(request.finalize(false, 200), Err(AlreadyFinal { request_id: 1 }));
    assert_eq!(request.finalize(true, 300), Err(AlreadyFinal { request_id: 1 }));
    assert_eq!(request.outcome(), Outcome::Verified { valid: true, at: 100 });
    assert!(!request.is_pending());
    assert_eq!(request.id(), 1);
    assert_eq!(request.input(), &[1, 2, 3]);
}

#[test]
fn a_false_verdict_is_terminal_too() {
    let mut request = request();
    assert_eq!(request.finalize(false, 5), Ok(()));
    assert_eq!(request.finalize(true, 6), Err(AlreadyFinal { request_id: 1 }));
    assert_eq!(request.outcome(), Outcome::Verified { valid: false, at: 5 });
}

#[test]
fn a_verified_request_is_finalized_with_its_ciphertexts() {
    let context = BindingContext::from_text(
        "0xaaaaaaaaaaaaaaaaaaaaaaaaaaaaaaaaaaaaaaaa",
        "0xbbbbbbbbbbbbbbbbbbbbbbbbbbbbbbbbbbbbbbbb",
        7,
        Address::from_bytes([0xcc; 20]),
    )
    .unwrap();
    let expansion = Expansion::Expanded(vec![
        ExpandedCiphertext { kind: FheType::Uint64, compressed: vec![1] },
        ExpandedCiphertext { kind: FheType::Bool, compressed: vec![2] },
    ]);
    let outcome = conclude(b"raw", &context, &expansion);
    let (ciphertexts, digest) = conclude(b"raw", &context, &expansion).unwrap();
    let plan = plan_finalization(42, outcome);
    assert_eq!(plan.request_id, 42);
    assert!(plan.verified);
    assert_eq!(plan.ciphertexts.len(), 2);
    assert_eq!(plan.ciphertexts[0].handle, ciphertexts[0].handle);
    assert_eq!(plan.ciphertexts[1].handle, ciphertexts[1].handle);
    assert_eq!(plan.ciphertexts[1].compressed, vec![2]);
    let mut handles = ciphertexts[0].handle.clone();
    handles.extend_from_slice(&ciphertexts[1].handle);
    assert_eq!(plan.handles, handles);
    assert_eq!(plan.handles.len(), 64);
    assert_eq!(plan.digest, Some(digest));
}

#[test]
fn a_refused_request_is_finalized_with_nothing() {
    for error in [ProofError::Malformed, ProofError::InvalidProof, ProofError::TooManyCiphertexts] {
        let plan = plan_finalization(42, Err(error));
        assert_eq!(plan.request_id, 42);
        assert!(!plan.verified);
        assert!(plan.ciphertexts.is_empty());
        assert!(plan.handles.is_empty());
        assert_eq!(plan.digest, None);
    }
}

#[test]
fn decimal_digits() {
    let cases: [(u64, &str); 7] = [
        (0, "0"),
        (7, "7"),
        (10, "10"),
        (99, "99"),
        (100, "100"),
        (1234567890, "1234567890"),
        (u64::MAX, "18446744073709551615"),
    ];
    for (n, text) in cases {
        let mut out = vec![b'#'];
        push_decimal(&mut out, n);
        assert_eq!(out, format!("#{}", text).into_bytes());
    }
}

#[test]
fn notice_text() {
    let text = |request_id: i64, verified: bool| {
        String::from_utf8(CompletionNotice { request_id, verified }.payload()).unwrap()
    };
    assert_eq!(text(1, true), "1:true");
    assert_eq!(text(1, false), "1:false");
    assert_eq!(text(0, true), "0:true");
    assert_eq!(text(-5, false), "-5:false");
    assert_eq!(text(i64::MAX, true), "9223372036854775807:true");
    assert_eq!(text(i64::MIN, false), "-9223372036854775808:false");
}

#[test]
fn notice_of_a_finalization() {
    let plan = plan_finalization(9, Err(ProofError::InvalidProof));
    let notice = CompletionNotice::of(&plan);
    assert_eq!(notice, CompletionNotice { request_id: 9, verified: false });
    let plan = plan_finalization(9, Ok((Vec::<Ciphertext>::new(), vec![0; 32])));
    assert_eq!(CompletionNotice::of(&plan), CompletionNotice { request_id: 9, verified: true });
}

fn keys() -> TenantKeys {
    TenantKeys {
        tenant_id: 7,
        acl_contract_address: Address::from_bytes([0xcc; 20]),
        server_key: vec![0; 16],
        public_key: vec![0; 16],
        public_params: vec![0; 16],
    }
}

#[test]
fn a_request_is_bound_to_its_tenant() {
    let context = request().bind(&keys()).unwrap();
    assert_eq!(context.contract_address().to_bytes(), [0xaa; 20]);
    assert_eq!(context.user_address().to_bytes(), [0xbb; 20]);
    assert_eq!(context.acl_contract_address().to_bytes(), [0xcc; 20]);
    assert_eq!(context.chain_id(), 7);
}

#[test]
fn a_request_that_cannot_be_bound_is_refused() {
    let request = VerificationRequest::new(
        1,
        vec![1, 2, 3],
        7,
        String::from("0xAA.."),
        String::from("0xbbbbbbbbbbbbbbbbbbbbbbbbbbbbbbbbbbbbbbbb"),
    );
    assert_eq!(
        request.bind(&keys()).err(),
        Some(ProofError::InvalidBinding(BindingError::InvalidContractAddress))
    );
    let request = VerificationRequest::new(
        1,
        vec![1, 2, 3],
        -7,
        String::from("0xaaaaaaaaaaaaaaaaaaaaaaaaaaaaaaaaaaaaaaaa"),
        String::from("0xbbbbbbbbbbbbbbbbbbbbbbbbbbbbbbbbbbbbbbbb"),
    );
    assert_eq!(
        request.bind(&keys()).err(),
        Some(ProofError::InvalidBinding(BindingError::NegativeChainId))
    );
}
