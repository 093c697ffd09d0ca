use rx_supervisor::decision::{
    issuer_scope, Authority, Failure, Kind, Owner, Policy, Receiver, Request, SignatureCheck,
    SignatureEnvelope, SignedDecision, SignedRevocation,
};

fn owner() -> Owner {
    Owner {
        registration: "registration-1".to_string(),
        revision: 3,
        program: "arm-controller".to_string(),
        catalog: "catalog-digest".to_string(),
    }
}

fn authority(kinds: Vec<Kind>) -> Authority {
    Authority {
        issuer: "operator".to_string(),
        public_key: [7u8; 32],
        operating_area: "cell-a".to_string(),
        roles: vec!["use".to_string()],
        kinds,
        max_ttl_ms: 5_000,
    }
}

fn policy() -> Policy {
    Policy { authorities: vec![("key-1".to_string(), authority(vec![Kind::WorkUse]))] }
}

fn request(receiver: &Receiver, kind: Kind) -> Request {
    receiver
        .request(
            kind,
            owner(),
            "cell-a".to_string(),
            "use".to_string(),
            "subject".to_string(),
            policy(),
            "policy-digest".to_string(),
            "context-digest".to_string(),
        )
        .unwrap()
}

fn signature() -> String {
    "ab".repeat(64)
}

fn signed(challenge: &rx_supervisor::decision::Challenge, decision: &str, ttl: u64) -> SignedDecision {
    SignedDecision {
        claim: challenge.claim(decision.to_string(), ttl),
        signature: SignatureEnvelope { key: "key-1".to_string(), signature: signature() },
    }
}

#[test]
fn failure_messages_name_their_cause() {
    assert_eq!(Failure::Revoked.message(), "decision/revoked: the external decision has been invalidated");
    assert_eq!(Failure::Capacity.message(), "decision/capacity: receiver decision history is full");
}

#[test]
fn policy_needs_bounded_sound_anchors() {
    assert_eq!(
        Policy { authorities: vec![] }.validate().unwrap_err(),
        "decision/anchors: author policy requires 1..8 authorities"
    );
    let mut zero = authority(vec![Kind::WorkUse]);
    zero.public_key = [0u8; 32];
    assert_eq!(
        Policy { authorities: vec![("k".to_string(), zero)] }.validate().unwrap_err(),
        "decision/anchor-policy: nonzero key, bounded roles/kinds and 1..60000ms maximum TTL required"
    );
    let mut long = authority(vec![Kind::WorkUse]);
    long.max_ttl_ms = 60_001;
    assert!(Policy { authorities: vec![("k".to_string(), long)] }.validate().is_err());
    assert!(policy().validate().is_ok());
}

#[test]
fn issuer_scope_requires_area_role_and_kind() {
    let p = policy();
    let key = "key-1".to_string();
    let area = "cell-a".to_string();
    let role = "use".to_string();
    assert_eq!(issuer_scope(&p, &key, &area, &role, Kind::WorkUse), Ok(0));
    assert_eq!(issuer_scope(&p, &key, &area, &role, Kind::InitialBinding), Err(Failure::IssuerScope));
    assert_eq!(issuer_scope(&p, &key, &"cell-b".to_string(), &role, Kind::WorkUse), Err(Failure::IssuerScope));
    assert_eq!(issuer_scope(&p, &"other".to_string(), &area, &role, Kind::WorkUse), Err(Failure::IssuerScope));
}

#[test]
fn a_verified_decision_is_live_until_revoked() {
    let mut receiver = Receiver::open();
    let req = request(&receiver, Kind::WorkUse);
    let challenge = req.challenge(&receiver, &"key-1".to_string(), 100).unwrap();
    assert_eq!(challenge.info().id.len(), 36);
    assert_eq!(challenge.public_key(), [7u8; 32]);
    let decision = signed(&challenge, "d-1", 1_000);
    let verified = challenge
        .verify(&mut receiver, &decision, 200, SignatureCheck::Verified, 210, "digest-1".to_string())
        .unwrap();
    assert_eq!(verified.reference().decision, "d-1");
    assert_eq!(verified.check_live(&receiver, 300, 310), Ok(()));
    assert_eq!(req.check(&verified, &receiver, 300, 310).unwrap().decision, "d-1");

    // Recording the same decision again changes nothing.
    let again = challenge
        .verify(&mut receiver, &decision, 220, SignatureCheck::Verified, 230, "digest-1".to_string())
        .unwrap();
    assert_eq!(again.check_live(&receiver, 300, 310), Ok(()));

    let claim = verified.revocation_claim("operator withdrew".to_string());
    let revocation = SignedRevocation {
        claim,
        signature: SignatureEnvelope { key: "key-1".to_string(), signature: signature() },
    };
    let revoked = verified
        .revoke(&mut receiver, &revocation, SignatureCheck::Verified, "revocation-digest".to_string())
        .unwrap();
    assert_eq!(revoked.reference().reason, "operator withdrew");
    assert_eq!(verified.check_live(&receiver, 300, 310), Err(Failure::Revoked));
    // A revoked decision cannot be entered again.
    assert_eq!(
        challenge
            .verify(&mut receiver, &decision, 240, SignatureCheck::Verified, 250, "digest-1".to_string())
            .unwrap_err(),
        Failure::Revoked
    );
}

#[test]
fn deadlines_run_from_challenge_creation() {
    let mut receiver = Receiver::open();
    let req = request(&receiver, Kind::WorkUse);
    let challenge = req.challenge(&receiver, &"key-1".to_string(), 100).unwrap();
    let decision = signed(&challenge, "d-2", 1_000);
    assert_eq!(
        challenge
            .verify(&mut receiver, &decision, 1_100, SignatureCheck::Verified, 1_101, "x".to_string())
            .unwrap_err(),
        Failure::Expired
    );
    assert_eq!(
        challenge
            .verify(&mut receiver, &decision, 1_000, SignatureCheck::Verified, 1_100, "x".to_string())
            .unwrap_err(),
        Failure::Expired
    );
    let verified = challenge
        .verify(&mut receiver, &decision, 1_000, SignatureCheck::Verified, 1_001, "x".to_string())
        .unwrap();
    assert_eq!(verified.check_live(&receiver, 1_100, 1_100), Err(Failure::Expired));
    assert_eq!(verified.check_live(&receiver, 1_098, 1_099), Ok(()));
}

#[test]
fn bad_lifetimes_signatures_and_keys_are_refused() {
    let mut receiver = Receiver::open();
    let req = request(&receiver, Kind::WorkUse);
    let challenge = req.challenge(&receiver, &"key-1".to_string(), 0).unwrap();
    let zero = signed(&challenge, "d", 0);
    assert_eq!(
        challenge.verify(&mut receiver, &zero, 1, SignatureCheck::Verified, 1, "x".to_string()).unwrap_err(),
        Failure::Ttl
    );
    let long = signed(&challenge, "d", 5_001);
    assert_eq!(
        challenge.verify(&mut receiver, &long, 1, SignatureCheck::Verified, 1, "x".to_string()).unwrap_err(),
        Failure::Ttl
    );
    let good = signed(&challenge, "d", 100);
    assert_eq!(
        challenge.verify(&mut receiver, &good, 1, SignatureCheck::Rejected, 1, "x".to_string()).unwrap_err(),
        Failure::Signature
    );
    assert_eq!(
        challenge.verify(&mut receiver, &good, 1, SignatureCheck::Unencodable, 1, "x".to_string()).unwrap_err(),
        Failure::Encoding
    );
    let mut short = signed(&challenge, "d", 100);
    short.signature.signature = "ab".to_string();
    assert_eq!(
        challenge.verify(&mut receiver, &short, 1, SignatureCheck::Verified, 1, "x".to_string()).unwrap_err(),
        Failure::Signature
    );
    let mut other_key = signed(&challenge, "d", 100);
    other_key.signature.key = "key-2".to_string();
    assert_eq!(
        challenge.verify(&mut receiver, &other_key, 1, SignatureCheck::Verified, 1, "x".to_string()).unwrap_err(),
        Failure::IssuerScope
    );
    let mut other_context = signed(&challenge, "d", 100);
    other_context.claim.challenge.subject = "another".to_string();
    assert_eq!(
        challenge.verify(&mut receiver, &other_context, 1, SignatureCheck::Verified, 1, "x".to_string()).unwrap_err(),
        Failure::Context
    );
}

#[test]
fn one_decision_id_names_one_signed_content() {
    let mut receiver = Receiver::open();
    let req = request(&receiver, Kind::WorkUse);
    let challenge = req.challenge(&receiver, &"key-1".to_string(), 0).unwrap();
    let first = signed(&challenge, "same-id", 100);
    challenge.verify(&mut receiver, &first, 1, SignatureCheck::Verified, 1, "one".to_string()).unwrap();
    assert_eq!(
        challenge.verify(&mut receiver, &first, 1, SignatureCheck::Verified, 1, "two".to_string()).unwrap_err(),
        Failure::Identity
    );
}

#[test]
fn a_closed_receiver_refuses_everything_it_issued() {
    let mut receiver = Receiver::open();
    let req = request(&receiver, Kind::WorkUse);
    let challenge = req.challenge(&receiver, &"key-1".to_string(), 0).unwrap();
    let decision = signed(&challenge, "d", 100);
    let verified = challenge
        .verify(&mut receiver, &decision, 1, SignatureCheck::Verified, 1, "x".to_string())
        .unwrap();
    receiver.close();
    assert_eq!(receiver.active(), Err(Failure::Epoch));
    assert_eq!(verified.check_live(&receiver, 2, 2), Err(Failure::Epoch));
    assert_eq!(req.check(&verified, &receiver, 2, 2).unwrap_err(), Failure::Epoch);
    assert!(matches!(req.challenge(&receiver, &"key-1".to_string(), 2), Err(Failure::Epoch)));
    assert!(matches!(
        receiver.request(
            Kind::WorkUse,
            owner(),
            "cell-a".to_string(),
            "use".to_string(),
            "s".to_string(),
            policy(),
            "p".to_string(),
            "c".to_string()
        ),
        Err(Failure::Epoch)
    ));
    // A fresh receiver is a new epoch: the old decision is not live there.
    let other = Receiver::open();
    assert_ne!(other.epoch(), receiver.epoch());
    assert_eq!(verified.check_live(&other, 2, 2), Err(Failure::Epoch));
}

#[test]
fn kinds_are_separate_decisions() {
    let mut receiver = Receiver::open();
    let use_request = request(&receiver, Kind::WorkUse);
    let challenge = use_request.challenge(&receiver, &"key-1".to_string(), 0).unwrap();
    let verified = challenge
        .verify(&mut receiver, &signed(&challenge, "d", 100), 1, SignatureCheck::Verified, 1, "x".to_string())
        .unwrap();
    let binding_request = request(&receiver, Kind::InitialBinding);
    assert_eq!(binding_request.check(&verified, &receiver, 2, 2).unwrap_err(), Failure::Kind);
    assert!(matches!(
        binding_request.challenge(&receiver, &"key-1".to_string(), 0),
        Err(Failure::IssuerScope)
    ));
}

#[test]
fn an_unsound_policy_gets_no_request() {
    let receiver = Receiver::open();
    assert!(matches!(
        receiver.request(
            Kind::WorkUse,
            owner(),
            "cell-a".to_string(),
            "use".to_string(),
            "s".to_string(),
            Policy { authorities: vec![] },
            "p".to_string(),
            "c".to_string()
        ),
        Err(Failure::Policy)
    ));
}
