//! Verification of externally signed decisions. Author catalogs are trusted;
//! site and decision input is not. The receiver keeps a bounded ledger of the
//! decisions it verified, and a revoked decision never becomes live again.
use vstd::prelude::*;
use crate::ids::fresh_id;
use crate::text::{byte_len, fits};

verus! {

#[derive(Clone, Copy, Debug, PartialEq, Eq, Structural)]
pub enum Kind {
    WorkUse,
    InitialBinding,
    ReplacementBinding,
}

/// Why a decision was not accepted.
#[derive(Clone, Copy, Debug, PartialEq, Eq, Structural)]
pub enum Failure {
    Unconfigured,
    Policy,
    IssuerScope,
    Context,
    Kind,
    Epoch,
    Ttl,
    Expired,
    Revoked,
    Signature,
    Encoding,
    Identity,
    Capacity,
    Receiver,
}

pub open spec fn failure_text(f: Failure) -> Seq<char> {
    match f {
        Failure::Unconfigured => "decision/unconfigured: no author-owned issuer policy for this current target"@,
        Failure::Policy => "decision/policy: invalid author policy"@,
        Failure::IssuerScope => "decision/issuer-scope: key, issuer, role or operating area is not authorized"@,
        Failure::Context => "decision/context: exact current subject/catalog/generation/binding differs"@,
        Failure::Kind => "decision/kind: work use, initial binding and replacement binding are separate decisions"@,
        Failure::Epoch => "decision/epoch: receiver was closed/restarted or belongs to another owner"@,
        Failure::Ttl => "decision/ttl: lifetime must be positive and within the authored maximum"@,
        Failure::Expired => "decision/expired: local monotonic deadline measured from challenge creation elapsed"@,
        Failure::Revoked => "decision/revoked: the external decision has been invalidated"@,
        Failure::Signature => "decision/signature: detached Ed25519 verification failed"@,
        Failure::Encoding => "decision/encoding: malformed or oversized decision input"@,
        Failure::Identity => "decision/identity: decision id already names different signed content"@,
        Failure::Capacity => "decision/capacity: receiver decision history is full"@,
        Failure::Receiver => "decision/receiver: receiver ledger unavailable"@,
    }
}

impl Failure {
    /// The message that names this failure.
    pub fn message(&self) -> (r: String)
        ensures
            r@ == failure_text(*self),
    {
        match self {
            Failure::Unconfigured => String::from_str("decision/unconfigured: no author-owned issuer policy for this current target"),
            Failure::Policy => String::from_str("decision/policy: invalid author policy"),
            Failure::IssuerScope => String::from_str("decision/issuer-scope: key, issuer, role or operating area is not authorized"),
            Failure::Context => String::from_str("decision/context: exact current subject/catalog/generation/binding differs"),
            Failure::Kind => String::from_str("decision/kind: work use, initial binding and replacement binding are separate decisions"),
            Failure::Epoch => String::from_str("decision/epoch: receiver was closed/restarted or belongs to another owner"),
            Failure::Ttl => String::from_str("decision/ttl: lifetime must be positive and within the authored maximum"),
            Failure::Expired => String::from_str("decision/expired: local monotonic deadline measured from challenge creation elapsed"),
            Failure::Revoked => String::from_str("decision/revoked: the external decision has been invalidated"),
            Failure::Signature => String::from_str("decision/signature: detached Ed25519 verification failed"),
            Failure::Encoding => String::from_str("decision/encoding: malformed or oversized decision input"),
            Failure::Identity => String::from_str("decision/identity: decision id already names different signed content"),
            Failure::Capacity => String::from_str("decision/capacity: receiver decision history is full"),
            Failure::Receiver => String::from_str("decision/receiver: receiver ledger unavailable"),
        }
    }
}

/// An authored issuer anchor. Roles and kinds are distinct names.
#[derive(Clone, Debug)]
pub struct Authority {
    pub issuer: String,
    pub public_key: [u8; 32],
    pub operating_area: String,
    pub roles: Vec<String>,
    pub kinds: Vec<Kind>,
    pub max_ttl_ms: u64,
}

/// Authored issuer anchors by key name; key names are distinct.
#[derive(Clone, Debug)]
pub struct Policy {
    pub authorities: Vec<(String, Authority)>,
}

pub open spec fn zero_key(key: [u8; 32]) -> bool {
    forall|i: int| 0 <= i < 32 ==> key@[i] == 0
}

/// An anchor is usable: a nonzero key, 1..=16 roles, some kind and a maximum
/// lifetime of 1..=60000 ms.
pub open spec fn sound_authority(a: Authority) -> bool {
    &&& !zero_key(a.public_key)
    &&& 1 <= a.roles@.len() <= 16
    &&& a.kinds@.len() >= 1
    &&& 1 <= a.max_ttl_ms <= 60000
}

pub open spec fn policy_refusal(p: Policy) -> Option<Seq<char>> {
    if p.authorities@.len() == 0 || p.authorities@.len() > 8 {
        Some("decision/anchors: author policy requires 1..8 authorities"@)
    } else if exists|i: int| 0 <= i < p.authorities@.len() && !sound_authority(#[trigger] p.authorities@[i].1) {
        Some("decision/anchor-policy: nonzero key, bounded roles/kinds and 1..60000ms maximum TTL required"@)
    } else {
        None
    }
}

fn is_zero_key(key: &[u8; 32]) -> (r: bool)
    ensures
        r == zero_key(*key),
{
    let mut i: usize = 0;
    while i < 32
        invariant
            i <= 32,
            forall|k: int| 0 <= k < i ==> key@[k] == 0,
        decreases 32 - i,
    {
        if key[i] != 0 {
            return false;
        }
        i = i + 1;
    }
    true
}

impl Policy {
    /// 1..=8 sound anchors.
    pub fn validate(&self) -> (r: Result<(), String>)
        ensures
            r is Ok <==> policy_refusal(*self) is None,
            r matches Err(m) ==> policy_refusal(*self) == Some(m@),
    {
        if self.authorities.len() == 0 || self.authorities.len() > 8 {
            return Err(String::from_str("decision/anchors: author policy requires 1..8 authorities"));
        }
        let mut i: usize = 0;
        while i < self.authorities.len()
            invariant
                i <= self.authorities@.len(),
                1 <= self.authorities@.len() <= 8,
                forall|k: int| 0 <= k < i ==> sound_authority(#[trigger] self.authorities@[k].1),
            decreases self.authorities@.len() - i,
        {
            let a = &self.authorities[i].1;
            if is_zero_key(&a.public_key) || a.roles.len() == 0 || a.roles.len() > 16 || a.kinds.len() == 0
                || a.max_ttl_ms < 1 || a.max_ttl_ms > 60000 {
                assert(!sound_authority(self.authorities@[i as int].1));
                return Err(String::from_str("decision/anchor-policy: nonzero key, bounded roles/kinds and 1..60000ms maximum TTL required"));
            }
            i = i + 1;
        }
        Ok(())
    }
}

#[derive(Clone, Debug)]
pub struct Owner {
    pub registration: String,
    pub revision: u64,
    pub program: String,
    pub catalog: String,
}

impl Owner {
    pub open spec fn same(&self, other: &Owner) -> bool {
        &&& self.registration@ == other.registration@
        &&& self.revision == other.revision
        &&& self.program@ == other.program@
        &&& self.catalog@ == other.catalog@
    }

    pub fn matches(&self, other: &Owner) -> (r: bool)
        ensures
            r == self.same(other),
    {
        self.registration == other.registration && self.revision == other.revision && self.program
            == other.program && self.catalog == other.catalog
    }
}

/// Inert historical reference of a verified decision.
#[derive(Clone, Debug)]
pub struct Reference {
    pub decision: String,
    pub kind: Kind,
    pub owner: Owner,
    pub issuer: String,
    pub key: String,
    pub epoch: String,
    pub challenge: String,
    pub context_digest: String,
    pub policy_digest: String,
    pub signed_digest: String,
    pub ttl_ms: u64,
}

impl Reference {
    pub open spec fn same(&self, other: &Reference) -> bool {
        &&& self.decision@ == other.decision@
        &&& self.kind == other.kind
        &&& self.owner.same(&other.owner)
        &&& self.issuer@ == other.issuer@
        &&& self.key@ == other.key@
        &&& self.epoch@ == other.epoch@
        &&& self.challenge@ == other.challenge@
        &&& self.context_digest@ == other.context_digest@
        &&& self.policy_digest@ == other.policy_digest@
        &&& self.signed_digest@ == other.signed_digest@
        &&& self.ttl_ms == other.ttl_ms
    }

    pub fn matches(&self, other: &Reference) -> (r: bool)
        ensures
            r == self.same(other),
    {
        self.decision == other.decision && self.kind == other.kind && self.owner.matches(&other.owner)
            && self.issuer == other.issuer && self.key == other.key && self.epoch == other.epoch
            && self.challenge == other.challenge && self.context_digest == other.context_digest
            && self.policy_digest == other.policy_digest && self.signed_digest
            == other.signed_digest && self.ttl_ms == other.ttl_ms
    }
}

#[derive(Clone, Debug)]
pub struct RevocationReference {
    pub target: Reference,
    pub signed_digest: String,
    pub reason: String,
}

impl RevocationReference {
    pub fn duplicate(&self) -> (r: Self)
        ensures
            r == *self,
    {
        RevocationReference {
            target: self.target.duplicate(),
            signed_digest: self.signed_digest.clone(),
            reason: self.reason.clone(),
        }
    }

    pub open spec fn same(&self, other: &RevocationReference) -> bool {
        self.target.same(&other.target) && self.signed_digest@ == other.signed_digest@
            && self.reason@ == other.reason@
    }

    pub fn matches(&self, other: &RevocationReference) -> (r: bool)
        ensures
            r == self.same(other),
    {
        self.target.matches(&other.target) && self.signed_digest == other.signed_digest
            && self.reason == other.reason
    }
}


impl Owner {
    pub fn duplicate(&self) -> (r: Self)
        ensures
            r == *self,
    {
        Owner {
            registration: self.registration.clone(),
            revision: self.revision,
            program: self.program.clone(),
            catalog: self.catalog.clone(),
        }
    }
}

/// What the issuer is asked to approve: the exact current subject, context,
/// policy and key, under this receiver's epoch.
#[derive(Clone, Debug)]
pub struct ChallengeInfo {
    pub id: String,
    pub epoch: String,
    pub kind: Kind,
    pub owner: Owner,
    pub operating_area: String,
    pub role: String,
    /// The subject in canonical JSON.
    pub subject: String,
    pub context_digest: String,
    pub policy_digest: String,
    pub key: String,
    pub issuer: String,
    pub max_ttl_ms: u64,
}

impl ChallengeInfo {
    pub open spec fn same(&self, other: &ChallengeInfo) -> bool {
        &&& self.id@ == other.id@
        &&& self.epoch@ == other.epoch@
        &&& self.kind == other.kind
        &&& self.owner.same(&other.owner)
        &&& self.operating_area@ == other.operating_area@
        &&& self.role@ == other.role@
        &&& self.subject@ == other.subject@
        &&& self.context_digest@ == other.context_digest@
        &&& self.policy_digest@ == other.policy_digest@
        &&& self.key@ == other.key@
        &&& self.issuer@ == other.issuer@
        &&& self.max_ttl_ms == other.max_ttl_ms
    }

    pub fn matches(&self, other: &ChallengeInfo) -> (r: bool)
        ensures
            r == self.same(other),
    {
        self.id == other.id && self.epoch == other.epoch && self.kind == other.kind
            && self.owner.matches(&other.owner) && self.operating_area == other.operating_area
            && self.role == other.role && self.subject == other.subject && self.context_digest
            == other.context_digest && self.policy_digest == other.policy_digest && self.key
            == other.key && self.issuer == other.issuer && self.max_ttl_ms == other.max_ttl_ms
    }

    pub fn duplicate(&self) -> (r: Self)
        ensures
            r == *self,
    {
        ChallengeInfo {
            id: self.id.clone(),
            epoch: self.epoch.clone(),
            kind: self.kind,
            owner: self.owner.duplicate(),
            operating_area: self.operating_area.clone(),
            role: self.role.clone(),
            subject: self.subject.clone(),
            context_digest: self.context_digest.clone(),
            policy_digest: self.policy_digest.clone(),
            key: self.key.clone(),
            issuer: self.issuer.clone(),
            max_ttl_ms: self.max_ttl_ms,
        }
    }
}

#[derive(Clone, Copy, Debug, PartialEq, Eq, Structural)]
pub enum Verdict {
    Approve,
}

/// Untrusted transport data: what an issuer signs. Building a claim neither
/// signs it nor makes a verified decision.
#[derive(Clone, Debug)]
pub struct Claim {
    pub schema: String,
    pub verdict: Verdict,
    pub challenge: ChallengeInfo,
    pub decision: String,
    pub ttl_ms: u64,
}

/// A detached signature and the name of the key that made it.
#[derive(Clone, Debug)]
pub struct SignatureEnvelope {
    pub key: String,
    pub signature: String,
}

#[derive(Clone, Debug)]
pub struct SignedDecision {
    pub claim: Claim,
    pub signature: SignatureEnvelope,
}

#[derive(Clone, Debug)]
pub struct RevocationClaim {
    pub schema: String,
    pub target: Reference,
    pub reason: String,
}

#[derive(Clone, Debug)]
pub struct SignedRevocation {
    pub claim: RevocationClaim,
    pub signature: SignatureEnvelope,
}

/// What checking a detached signature over the canonical signing message
/// found: it verified, it did not, or the message could not be encoded
/// within its bound.
#[derive(Clone, Copy, Debug, PartialEq, Eq, Structural)]
pub enum SignatureCheck {
    Verified,
    Rejected,
    Unencodable,
}

pub open spec fn signature_refusal(check: SignatureCheck) -> Option<Failure> {
    match check {
        SignatureCheck::Verified => None,
        SignatureCheck::Rejected => Some(Failure::Signature),
        SignatureCheck::Unencodable => Some(Failure::Encoding),
    }
}

pub open spec fn decision_schema() -> Seq<char> {
    "rx.external-decision.v1"@
}

pub open spec fn revocation_schema() -> Seq<char> {
    "rx.external-decision-revocation.v1"@
}

/// A detached Ed25519 signature is 128 hexadecimal characters.
pub open spec fn signature_shaped(signature: Seq<char>) -> bool {
    byte_len(signature) == 128
}

fn is_signature_shaped(signature: &String) -> (r: bool)
    ensures
        r == signature_shaped(signature@),
{
    fits(signature.as_str(), 128) && !fits(signature.as_str(), 127)
}

/// The first anchor of `policy` filed under `key`.
pub open spec fn anchor_from(anchors: Seq<(String, Authority)>, key: Seq<char>, k: int) -> Option<int>
    decreases anchors.len() - k,
{
    if k < 0 || k >= anchors.len() {
        None
    } else if anchors[k].0@ == key {
        Some(k)
    } else {
        anchor_from(anchors, key, k + 1)
    }
}

pub proof fn lemma_anchor_from(anchors: Seq<(String, Authority)>, key: Seq<char>, k: int)
    requires
        0 <= k,
    ensures
        anchor_from(anchors, key, k) matches Some(i) ==> k <= i < anchors.len() && anchors[i].0@ == key,
    decreases anchors.len() - k,
{
    if k < anchors.len() {
        lemma_anchor_from(anchors, key, k + 1);
    }
}

/// The anchor may speak for `area`, `role` and `kind`.
pub open spec fn authorizes(a: Authority, area: Seq<char>, role: Seq<char>, kind: Kind) -> bool {
    &&& a.operating_area@ == area
    &&& exists|i: int| 0 <= i < a.roles@.len() && (#[trigger] a.roles@[i])@ == role
    &&& exists|i: int| 0 <= i < a.kinds@.len() && #[trigger] a.kinds@[i] == kind
}

/// The anchor for `key` when it authorizes the request's scope.
pub open spec fn issuer_scope_result(policy: Policy, key: Seq<char>, area: Seq<char>, role: Seq<char>, kind: Kind) -> Result<int, Failure> {
    match anchor_from(policy.authorities@, key, 0) {
        None => Err(Failure::IssuerScope),
        Some(i) => if authorizes(policy.authorities@[i].1, area, role, kind) {
            Ok(i)
        } else {
            Err(Failure::IssuerScope)
        },
    }
}

fn has_role(a: &Authority, role: &String) -> (r: bool)
    ensures
        r == exists|i: int| 0 <= i < a.roles@.len() && (#[trigger] a.roles@[i])@ == role@,
{
    let mut i: usize = 0;
    while i < a.roles.len()
        invariant
            i <= a.roles@.len(),
            forall|k: int| 0 <= k < i ==> (#[trigger] a.roles@[k])@ != role@,
        decreases a.roles@.len() - i,
    {
        if a.roles[i] == *role {
            return true;
        }
        i = i + 1;
    }
    false
}

fn has_kind(a: &Authority, kind: Kind) -> (r: bool)
    ensures
        r == exists|i: int| 0 <= i < a.kinds@.len() && #[trigger] a.kinds@[i] == kind,
{
    let mut i: usize = 0;
    while i < a.kinds.len()
        invariant
            i <= a.kinds@.len(),
            forall|k: int| 0 <= k < i ==> #[trigger] a.kinds@[k] != kind,
        decreases a.kinds@.len() - i,
    {
        if a.kinds[i] == kind {
            return true;
        }
        i = i + 1;
    }
    false
}

/// The position of the anchor filed under `key`, when it may speak for the
/// operating area, role and kind asked about.
pub fn issuer_scope(policy: &Policy, key: &String, area: &String, role: &String, kind: Kind) -> (r: Result<usize, Failure>)
    ensures
        r matches Ok(i) ==> issuer_scope_result(*policy, key@, area@, role@, kind) == Ok::<int, Failure>(i as int)
            && i < policy.authorities@.len(),
        r matches Err(f) ==> issuer_scope_result(*policy, key@, area@, role@, kind) == Err::<int, Failure>(f),
{
    let mut k: usize = 0;
    while k < policy.authorities.len()
        invariant
            k <= policy.authorities@.len(),
            anchor_from(policy.authorities@, key@, 0) == anchor_from(policy.authorities@, key@, k as int),
        decreases policy.authorities@.len() - k,
    {
        if policy.authorities[k].0 == *key {
            let a = &policy.authorities[k].1;
            if a.operating_area == *area && has_role(a, role) && has_kind(a, kind) {
                return Ok(k);
            }
            return Err(Failure::IssuerScope);
        }
        k = k + 1;
    }
    Err(Failure::IssuerScope)
}

/// The checks a signed decision must pass before the receiver enters it into
/// its ledger, in the order they are made; `None` when it passes them all.
pub open spec fn claim_refusal(
    info: ChallengeInfo,
    created_ms: u64,
    max_ttl_ms: u64,
    active: bool,
    epoch: Seq<char>,
    signed: SignedDecision,
    now_ms: u64,
    check: SignatureCheck,
    later_ms: u64,
) -> Option<Failure> {
    let ttl = signed.claim.ttl_ms;
    if !active || epoch != info.epoch@ {
        Some(Failure::Epoch)
    } else if signed.claim.schema@ != decision_schema() || !signed.claim.challenge.same(&info) {
        Some(Failure::Context)
    } else if signed.signature.key@ != info.key@ {
        Some(Failure::IssuerScope)
    } else if ttl == 0 || ttl > max_ttl_ms || created_ms + ttl > u64::MAX {
        Some(Failure::Ttl)
    } else if now_ms >= created_ms + ttl {
        Some(Failure::Expired)
    } else if !signature_shaped(signed.signature.signature@) {
        Some(Failure::Signature)
    } else if signature_refusal(check) is Some {
        signature_refusal(check)
    } else if later_ms >= created_ms + ttl {
        Some(Failure::Expired)
    } else {
        None
    }
}

/// The inert reference of a decision verified against `info`.
pub open spec fn reference_of(info: ChallengeInfo, claim: Claim, signed_digest: String) -> Reference {
    Reference {
        decision: claim.decision,
        kind: info.kind,
        owner: info.owner,
        issuer: info.issuer,
        key: info.key,
        epoch: info.epoch,
        challenge: info.id,
        context_digest: info.context_digest,
        policy_digest: info.policy_digest,
        signed_digest,
        ttl_ms: claim.ttl_ms,
    }
}

/// A sealed current-context request for an external decision. Only an open
/// receiver makes one.
#[derive(Debug)]
pub struct Request {
    kind: Kind,
    owner: Owner,
    operating_area: String,
    role: String,
    subject: String,
    context_digest: String,
    policy_digest: String,
    policy: Policy,
    epoch: String,
}

impl Request {
    pub closed spec fn spec_kind(&self) -> Kind {
        self.kind
    }

    pub closed spec fn spec_owner(&self) -> Owner {
        self.owner
    }

    pub closed spec fn spec_operating_area(&self) -> Seq<char> {
        self.operating_area@
    }

    pub closed spec fn spec_role(&self) -> Seq<char> {
        self.role@
    }

    pub closed spec fn spec_subject(&self) -> Seq<char> {
        self.subject@
    }

    pub closed spec fn spec_context_digest(&self) -> Seq<char> {
        self.context_digest@
    }

    pub closed spec fn spec_policy_digest(&self) -> Seq<char> {
        self.policy_digest@
    }

    pub closed spec fn spec_policy(&self) -> Policy {
        self.policy
    }

    pub closed spec fn spec_epoch(&self) -> Seq<char> {
        self.epoch@
    }

    /// A challenge for the issuer filed under `key`, when the receiver that
    /// made this request is still open and that issuer may speak for its
    /// operating area, role and kind.
    pub fn challenge(&self, receiver: &Receiver, key: &String, created_ms: u64) -> (r: Result<Challenge, Failure>)
        ensures
            !receiver.spec_active() || receiver.spec_epoch() != self.spec_epoch() ==> r == Err::<Challenge, Failure>(Failure::Epoch),
            receiver.spec_active() && receiver.spec_epoch() == self.spec_epoch() ==> match issuer_scope_result(
                self.spec_policy(), key@, self.spec_operating_area(), self.spec_role(), self.spec_kind()) {
                Err(f) => r == Err::<Challenge, Failure>(f),
                Ok(i) => (r matches Ok(c) && {
                    let a = self.spec_policy().authorities@[i].1;
                    &&& c.spec_info().id@.len() == 36
                    &&& c.spec_info().epoch@ == self.spec_epoch()
                    &&& c.spec_info().kind == self.spec_kind()
                    &&& c.spec_info().owner == self.spec_owner()
                    &&& c.spec_info().operating_area@ == self.spec_operating_area()
                    &&& c.spec_info().role@ == self.spec_role()
                    &&& c.spec_info().subject@ == self.spec_subject()
                    &&& c.spec_info().context_digest@ == self.spec_context_digest()
                    &&& c.spec_info().policy_digest@ == self.spec_policy_digest()
                    &&& c.spec_info().key@ == key@
                    &&& c.spec_info().issuer == a.issuer
                    &&& c.spec_info().max_ttl_ms == a.max_ttl_ms
                    &&& c.spec_created_ms() == created_ms
                    &&& c.spec_max_ttl_ms() == a.max_ttl_ms
                    &&& c.spec_public_key() == a.public_key
                }),
            },
    {
        if !receiver.active || receiver.epoch != self.epoch {
            return Err(Failure::Epoch);
        }
        let i = match issuer_scope(&self.policy, key, &self.operating_area, &self.role, self.kind) {
            Err(f) => {
                return Err(f);
            },
            Ok(i) => i,
        };
        let a = &self.policy.authorities[i].1;
        Ok(Challenge {
            info: ChallengeInfo {
                id: fresh_id(),
                epoch: self.epoch.clone(),
                kind: self.kind,
                owner: self.owner.duplicate(),
                operating_area: self.operating_area.clone(),
                role: self.role.clone(),
                subject: self.subject.clone(),
                context_digest: self.context_digest.clone(),
                policy_digest: self.policy_digest.clone(),
                key: key.clone(),
                issuer: a.issuer.clone(),
                max_ttl_ms: a.max_ttl_ms,
            },
            created_ms,
            max_ttl_ms: a.max_ttl_ms,
            public_key: a.public_key,
        })
    }

    /// Rechecks a verified decision at a receiving boundary: it must be of
    /// this request's kind, for this exact context, owner and policy, from
    /// this receiver, and still live.
    pub fn check(&self, verified: &VerifiedDecision, receiver: &Receiver, now_ms: u64, later_ms: u64) -> (r: Result<Reference, Failure>)
        ensures
            r matches Ok(x) ==> x == verified.spec_reference(),
            r is Ok <==> request_check(*self, *verified, *receiver, now_ms, later_ms) is None,
            r matches Err(f) ==> request_check(*self, *verified, *receiver, now_ms, later_ms) == Some(f),
    {
        let reference = &verified.reference;
        if reference.kind != self.kind {
            return Err(Failure::Kind);
        }
        if reference.context_digest != self.context_digest || !reference.owner.matches(&self.owner)
            || reference.policy_digest != self.policy_digest {
            return Err(Failure::Context);
        }
        if reference.epoch != self.epoch || receiver.epoch != self.epoch {
            return Err(Failure::Epoch);
        }
        match verified.check_live(receiver, now_ms, later_ms) {
            Err(f) => Err(f),
            Ok(()) => Ok(reference.duplicate()),
        }
    }
}

/// Why `request` refuses `verified`, if it does.
pub open spec fn request_check(request: Request, verified: VerifiedDecision, receiver: Receiver, now_ms: u64, later_ms: u64) -> Option<Failure> {
    let reference = verified.spec_reference();
    if reference.kind != request.spec_kind() {
        Some(Failure::Kind)
    } else if reference.context_digest@ != request.spec_context_digest() || !reference.owner.same(&request.spec_owner())
        || reference.policy_digest@ != request.spec_policy_digest() {
        Some(Failure::Context)
    } else if reference.epoch@ != request.spec_epoch() || receiver.spec_epoch() != request.spec_epoch() {
        Some(Failure::Epoch)
    } else {
        match verified.live(receiver, now_ms, later_ms) {
            Ok(_) => None,
            Err(f) => Some(f),
        }
    }
}

/// A locally timed challenge. Its deadline is measured from `created_ms` on
/// the receiver's monotonic clock, which a serialized copy cannot carry.
#[derive(Debug)]
pub struct Challenge {
    info: ChallengeInfo,
    created_ms: u64,
    max_ttl_ms: u64,
    public_key: [u8; 32],
}

impl Challenge {
    pub closed spec fn spec_info(&self) -> ChallengeInfo {
        self.info
    }

    pub closed spec fn spec_created_ms(&self) -> u64 {
        self.created_ms
    }

    pub closed spec fn spec_max_ttl_ms(&self) -> u64 {
        self.max_ttl_ms
    }

    pub closed spec fn spec_public_key(&self) -> [u8; 32] {
        self.public_key
    }

    pub fn info(&self) -> (r: &ChallengeInfo)
        ensures
            *r == self.spec_info(),
    {
        &self.info
    }

    /// The key that must verify a signature over this challenge's claims.
    pub fn public_key(&self) -> (r: [u8; 32])
        ensures
            r == self.spec_public_key(),
    {
        self.public_key
    }

    /// The claim an issuer approves for this challenge.
    pub fn claim(&self, decision: String, ttl_ms: u64) -> (r: Claim)
        ensures
            r.schema@ == decision_schema(),
            r.verdict == Verdict::Approve,
            r.challenge == self.spec_info(),
            r.decision == decision,
            r.ttl_ms == ttl_ms,
    {
        Claim {
            schema: String::from_str("rx.external-decision.v1"),
            verdict: Verdict::Approve,
            challenge: self.info.duplicate(),
            decision,
            ttl_ms,
        }
    }

    /// Verifies a signed decision against this challenge and enters it into
    /// the receiver's ledger. `check` is what checking its detached signature
    /// found; `now_ms` and `later_ms` are readings of the monotonic clock
    /// before and after that check; `signed_digest` is the digest of the
    /// signed document.
    pub fn verify(
        &self,
        receiver: &mut Receiver,
        signed: &SignedDecision,
        now_ms: u64,
        check: SignatureCheck,
        later_ms: u64,
        signed_digest: String,
    ) -> (r: Result<VerifiedDecision, Failure>)
        requires
            old(receiver).wf(),
        ensures
            final(receiver).wf(),
            final(receiver).spec_active() == old(receiver).spec_active(),
            final(receiver).spec_epoch() == old(receiver).spec_epoch(),
            ({
                let refusal = claim_refusal(self.spec_info(), self.spec_created_ms(), self.spec_max_ttl_ms(),
                    old(receiver).spec_active(), old(receiver).spec_epoch(), *signed, now_ms, check, later_ms);
                let reference = reference_of(self.spec_info(), signed.claim, signed_digest);
                match refusal {
                    Some(f) => r == Err::<VerifiedDecision, Failure>(f)
                        && final(receiver).spec_entries() == old(receiver).spec_entries(),
                    None => match record_result(true, old(receiver).spec_entries(), reference) {
                        Err(f) => r == Err::<VerifiedDecision, Failure>(f)
                            && final(receiver).spec_entries() == old(receiver).spec_entries(),
                        Ok(_) => (r matches Ok(v) && v.spec_reference() == reference
                            && v.spec_expires_ms() == self.spec_created_ms() + signed.claim.ttl_ms
                            && v.spec_public_key() == self.spec_public_key()
                            && final(receiver).spec_entries() == recorded(old(receiver).spec_entries(), reference)),
                    },
                }
            }),
    {
        if !receiver.active || receiver.epoch != self.info.epoch {
            return Err(Failure::Epoch);
        }
        let claim = &signed.claim;
        if claim.schema != String::from_str("rx.external-decision.v1") || !claim.challenge.matches(&self.info) {
            return Err(Failure::Context);
        }
        if signed.signature.key != self.info.key {
            return Err(Failure::IssuerScope);
        }
        if claim.ttl_ms == 0 || claim.ttl_ms > self.max_ttl_ms {
            return Err(Failure::Ttl);
        }
        let expires = match self.created_ms.checked_add(claim.ttl_ms) {
            None => {
                return Err(Failure::Ttl);
            },
            Some(e) => e,
        };
        if now_ms >= expires {
            return Err(Failure::Expired);
        }
        if !is_signature_shaped(&signed.signature.signature) {
            return Err(Failure::Signature);
        }
        match check {
            SignatureCheck::Verified => {},
            SignatureCheck::Rejected => {
                return Err(Failure::Signature);
            },
            SignatureCheck::Unencodable => {
                return Err(Failure::Encoding);
            },
        }
        if later_ms >= expires {
            return Err(Failure::Expired);
        }
        let reference = Reference {
            decision: claim.decision.clone(),
            kind: self.info.kind,
            owner: self.info.owner.duplicate(),
            issuer: self.info.issuer.clone(),
            key: self.info.key.clone(),
            epoch: self.info.epoch.clone(),
            challenge: self.info.id.clone(),
            context_digest: self.info.context_digest.clone(),
            policy_digest: self.info.policy_digest.clone(),
            signed_digest,
            ttl_ms: claim.ttl_ms,
        };
        match receiver.record(&reference) {
            Err(f) => Err(f),
            Ok(()) => Ok(VerifiedDecision { reference, expires_ms: expires, public_key: self.public_key }),
        }
    }
}

/// Positive evidence from strict signature verification only: the inert
/// reference, its local deadline and the key that signed it.
#[derive(Debug)]
pub struct VerifiedDecision {
    reference: Reference,
    expires_ms: u64,
    public_key: [u8; 32],
}

impl VerifiedDecision {
    pub closed spec fn spec_reference(&self) -> Reference {
        self.reference
    }

    pub closed spec fn spec_expires_ms(&self) -> u64 {
        self.expires_ms
    }

    pub closed spec fn spec_public_key(&self) -> [u8; 32] {
        self.public_key
    }

    /// Whether this decision is live at `receiver`.
    pub open spec fn live(&self, receiver: Receiver, now_ms: u64, later_ms: u64) -> Result<(), Failure> {
        if receiver.spec_epoch() != self.spec_reference().epoch@ {
            Err(Failure::Epoch)
        } else {
            live_result(receiver.spec_active(), receiver.spec_entries(), self.spec_reference(),
                self.spec_expires_ms(), now_ms, later_ms)
        }
    }

    pub fn reference(&self) -> (r: &Reference)
        ensures
            *r == self.spec_reference(),
    {
        &self.reference
    }

    pub fn public_key(&self) -> (r: [u8; 32])
        ensures
            r == self.spec_public_key(),
    {
        self.public_key
    }

    /// Live at the receiver that verified it: that receiver is still open,
    /// the deadline has not passed and the decision was not revoked.
    pub fn check_live(&self, receiver: &Receiver, now_ms: u64, later_ms: u64) -> (r: Result<(), Failure>)
        ensures
            r == self.live(*receiver, now_ms, later_ms),
    {
        if receiver.epoch != self.reference.epoch {
            return Err(Failure::Epoch);
        }
        receiver.check_live(&self.reference, self.expires_ms, now_ms, later_ms)
    }

    /// The claim an issuer signs to revoke this decision.
    pub fn revocation_claim(&self, reason: String) -> (r: RevocationClaim)
        ensures
            r.schema@ == revocation_schema(),
            r.target == self.spec_reference(),
            r.reason == reason,
    {
        RevocationClaim {
            schema: String::from_str("rx.external-decision-revocation.v1"),
            target: self.reference.duplicate(),
            reason,
        }
    }

    /// Revokes this decision at the receiver that verified it, once a signed
    /// revocation by the same key was checked. `check` is what checking its
    /// detached signature found; `signed_digest` is the digest of the signed
    /// revocation.
    pub fn revoke(&self, receiver: &mut Receiver, signed: &SignedRevocation, check: SignatureCheck, signed_digest: String) -> (r: Result<VerifiedRevocation, Failure>)
        requires
            old(receiver).wf(),
        ensures
            final(receiver).wf(),
            final(receiver).spec_active() == old(receiver).spec_active(),
            final(receiver).spec_epoch() == old(receiver).spec_epoch(),
            ({
                let refusal = revocation_refusal(self.spec_reference(), old(receiver).spec_active(),
                    old(receiver).spec_epoch(), *signed, check);
                match refusal {
                    Some(f) => r == Err::<VerifiedRevocation, Failure>(f)
                        && final(receiver).spec_entries() == old(receiver).spec_entries(),
                    None => match revoke_result(old(receiver).spec_entries(), self.spec_reference()) {
                        Err(f) => r == Err::<VerifiedRevocation, Failure>(f)
                            && final(receiver).spec_entries() == old(receiver).spec_entries(),
                        Ok(_) => (r matches Ok(v) && v.spec_reference().target == self.spec_reference()
                            && v.spec_reference().signed_digest@ == signed_digest@
                            && v.spec_reference().reason == signed.claim.reason
                            && final(receiver).spec_entries() == revoked(old(receiver).spec_entries(), self.spec_reference().decision@)),
                    },
                }
            }),
    {
        if !receiver.active || receiver.epoch != self.reference.epoch {
            return Err(Failure::Epoch);
        }
        if signed.claim.schema != String::from_str("rx.external-decision-revocation.v1") || !signed.claim.target.matches(&self.reference) {
            return Err(Failure::Context);
        }
        if signed.signature.key != self.reference.key {
            return Err(Failure::IssuerScope);
        }
        if !is_signature_shaped(&signed.signature.signature) {
            return Err(Failure::Signature);
        }
        match check {
            SignatureCheck::Verified => {},
            SignatureCheck::Rejected => {
                return Err(Failure::Signature);
            },
            SignatureCheck::Unencodable => {
                return Err(Failure::Encoding);
            },
        }
        match receiver.revoke(&self.reference) {
            Err(f) => Err(f),
            Ok(()) => Ok(VerifiedRevocation {
                reference: RevocationReference {
                    target: self.reference.duplicate(),
                    signed_digest,
                    reason: signed.claim.reason.clone(),
                },
            }),
        }
    }
}

/// The checks a signed revocation must pass before the ledger is touched.
pub open spec fn revocation_refusal(target: Reference, active: bool, epoch: Seq<char>, signed: SignedRevocation, check: SignatureCheck) -> Option<Failure> {
    if !active || epoch != target.epoch@ {
        Some(Failure::Epoch)
    } else if signed.claim.schema@ != revocation_schema() || !signed.claim.target.same(&target) {
        Some(Failure::Context)
    } else if signed.signature.key@ != target.key@ {
        Some(Failure::IssuerScope)
    } else if !signature_shaped(signed.signature.signature@) {
        Some(Failure::Signature)
    } else {
        signature_refusal(check)
    }
}

/// A revocation the receiver accepted.
#[derive(Debug)]
pub struct VerifiedRevocation {
    reference: RevocationReference,
}

impl VerifiedRevocation {
    pub closed spec fn spec_reference(&self) -> RevocationReference {
        self.reference
    }

    pub fn reference(&self) -> (r: &RevocationReference)
        ensures
            *r == self.spec_reference(),
    {
        &self.reference
    }
}

/// One decision this receiver verified, and whether it was revoked since.
#[derive(Clone, Debug)]
pub struct Entry {
    pub reference: Reference,
    pub revoked: bool,
}

/// The first ledger entry of the decision with identity `id`.
pub open spec fn entry_from(entries: Seq<Entry>, id: Seq<char>, k: int) -> Option<int>
    decreases entries.len() - k,
{
    if k < 0 || k >= entries.len() {
        None
    } else if entries[k].reference.decision@ == id {
        Some(k)
    } else {
        entry_from(entries, id, k + 1)
    }
}

pub open spec fn entry_of(entries: Seq<Entry>, id: Seq<char>) -> Option<int> {
    entry_from(entries, id, 0)
}

pub proof fn lemma_entry_from(entries: Seq<Entry>, id: Seq<char>, k: int)
    requires
        0 <= k,
    ensures
        entry_from(entries, id, k) matches Some(i) ==> k <= i < entries.len()
            && entries[i].reference.decision@ == id,
        entry_from(entries, id, k) is None ==> forall|i: int|
            k <= i < entries.len() ==> (#[trigger] entries[i]).reference.decision@ != id,
    decreases entries.len() - k,
{
    if k < entries.len() {
        lemma_entry_from(entries, id, k + 1);
    }
}

/// The largest number of decisions one receiver remembers.
pub const LEDGER_CAPACITY: usize = 512;

/// The live receiver of one registered owner: its epoch, whether it is still
/// open, and the ledger of the decisions it verified. Closing it invalidates
/// every challenge and proof it issued.
#[derive(Debug)]
pub struct Receiver {
    epoch: String,
    active: bool,
    entries: Vec<Entry>,
}

impl Receiver {
    pub closed spec fn spec_epoch(&self) -> Seq<char> {
        self.epoch@
    }

    pub closed spec fn spec_active(&self) -> bool {
        self.active
    }

    pub closed spec fn spec_entries(&self) -> Seq<Entry> {
        self.entries@
    }

    /// A ledger never holds more than its capacity, and each decision once.
    pub closed spec fn wf(&self) -> bool {
        &&& self.entries@.len() <= LEDGER_CAPACITY
        &&& distinct(self.entries@)
    }

    /// What well-formedness promises of the ledger.
    pub proof fn lemma_wf(&self)
        requires
            self.wf(),
        ensures
            self.spec_entries().len() <= LEDGER_CAPACITY,
            distinct(self.spec_entries()),
    {
    }

    /// A fresh, open receiver with an empty ledger under a new epoch.
    pub fn open() -> (r: Self)
        ensures
            r.wf(),
            r.spec_active(),
            r.spec_entries().len() == 0,
    {
        Receiver { epoch: fresh_id(), active: true, entries: Vec::new() }
    }

    pub fn epoch(&self) -> (r: &String)
        ensures
            r@ == self.spec_epoch(),
    {
        &self.epoch
    }

    /// A sealed request for a decision of `kind` about `subject`, made only
    /// by an open receiver and only under a sound policy. `policy_digest` is
    /// the policy's fingerprint and `context_digest` the digest of the whole
    /// context.
    pub fn request(
        &self,
        kind: Kind,
        owner: Owner,
        operating_area: String,
        role: String,
        subject: String,
        policy: Policy,
        policy_digest: String,
        context_digest: String,
    ) -> (r: Result<Request, Failure>)
        ensures
            !self.spec_active() ==> r == Err::<Request, Failure>(Failure::Epoch),
            self.spec_active() && policy_refusal(policy) is Some ==> r == Err::<Request, Failure>(Failure::Policy),
            self.spec_active() && policy_refusal(policy) is None ==> (r matches Ok(q) && {
                &&& q.spec_kind() == kind
                &&& q.spec_owner() == owner
                &&& q.spec_operating_area() == operating_area@
                &&& q.spec_role() == role@
                &&& q.spec_subject() == subject@
                &&& q.spec_policy() == policy
                &&& q.spec_policy_digest() == policy_digest@
                &&& q.spec_context_digest() == context_digest@
                &&& q.spec_epoch() == self.spec_epoch()
            }),
    {
        if !self.active {
            return Err(Failure::Epoch);
        }
        if policy.validate().is_err() {
            return Err(Failure::Policy);
        }
        Ok(Request {
            kind,
            owner,
            operating_area,
            role,
            subject,
            context_digest,
            policy_digest,
            policy,
            epoch: self.epoch.clone(),
        })
    }

    /// Closes the receiver: nothing it issued is live afterwards.
    pub fn close(&mut self)
        requires
            old(self).wf(),
        ensures
            final(self).wf(),
            !final(self).spec_active(),
            final(self).spec_entries() == old(self).spec_entries(),
            final(self).spec_epoch() == old(self).spec_epoch(),
    {
        self.active = false;
    }

    pub fn active(&self) -> (r: Result<(), Failure>)
        ensures
            r is Ok <==> self.spec_active(),
            r matches Err(f) ==> f == Failure::Epoch,
    {
        if self.active {
            Ok(())
        } else {
            Err(Failure::Epoch)
        }
    }

    fn find(&self, id: &String) -> (r: Option<usize>)
        ensures
            r matches Some(i) ==> entry_of(self.entries@, id@) == Some(i as int) && i < self.entries@.len(),
            r is None ==> entry_of(self.entries@, id@) is None,
    {
        let mut k: usize = 0;
        while k < self.entries.len()
            invariant
                k <= self.entries@.len(),
                entry_of(self.entries@, id@) == entry_from(self.entries@, id@, k as int),
            decreases self.entries@.len() - k,
        {
            if self.entries[k].reference.decision == *id {
                return Some(k);
            }
            k = k + 1;
        }
        None
    }

    /// Enters a verified decision into the ledger. A decision identity names
    /// one signed content forever; a revoked decision is never accepted again.
    pub fn record(&mut self, reference: &Reference) -> (r: Result<(), Failure>)
        requires
            old(self).wf(),
        ensures
            final(self).wf(),
            final(self).spec_active() == old(self).spec_active(),
            final(self).spec_epoch() == old(self).spec_epoch(),
            record_result(old(self).spec_active(), old(self).spec_entries(), *reference) == r,
            r is Err ==> final(self).spec_entries() == old(self).spec_entries(),
            r is Ok ==> final(self).spec_entries() == recorded(old(self).spec_entries(), *reference),
    {
        if !self.active {
            return Err(Failure::Epoch);
        }
        match self.find(&reference.decision) {
            Some(i) => {
                if !self.entries[i].reference.matches(reference) {
                    return Err(Failure::Identity);
                }
                if self.entries[i].revoked {
                    return Err(Failure::Revoked);
                }
                Ok(())
            },
            None => {
                if self.entries.len() >= LEDGER_CAPACITY {
                    return Err(Failure::Capacity);
                }
                proof {
                    lemma_entry_from(self.entries@, reference.decision@, 0);
                }
                self.entries.push(Entry { reference: reference.duplicate(), revoked: false });
                Ok(())
            },
        }
    }

    /// A verified decision is live while the receiver is open, its deadline
    /// has not passed at either reading of the clock, and its ledger entry is
    /// the same content and not revoked.
    pub fn check_live(&self, reference: &Reference, expires_ms: u64, now_ms: u64, later_ms: u64) -> (r: Result<(), Failure>)
        ensures
            r == live_result(self.spec_active(), self.spec_entries(), *reference, expires_ms, now_ms, later_ms),
    {
        if !self.active {
            return Err(Failure::Epoch);
        }
        if now_ms >= expires_ms {
            return Err(Failure::Expired);
        }
        let i = match self.find(&reference.decision) {
            None => {
                return Err(Failure::Receiver);
            },
            Some(i) => i,
        };
        if !self.entries[i].reference.matches(reference) {
            return Err(Failure::Identity);
        }
        if self.entries[i].revoked {
            return Err(Failure::Revoked);
        }
        if later_ms >= expires_ms {
            return Err(Failure::Expired);
        }
        Ok(())
    }

    /// Marks a verified decision revoked, after its signed revocation was
    /// checked. Revocation is permanent for this receiver.
    pub fn revoke(&mut self, reference: &Reference) -> (r: Result<(), Failure>)
        requires
            old(self).wf(),
        ensures
            final(self).wf(),
            final(self).spec_active() == old(self).spec_active(),
            final(self).spec_epoch() == old(self).spec_epoch(),
            r == revoke_result(old(self).spec_entries(), *reference),
            r is Err ==> final(self).spec_entries() == old(self).spec_entries(),
            r is Ok ==> final(self).spec_entries() == revoked(old(self).spec_entries(), reference.decision@),
    {
        let i = match self.find(&reference.decision) {
            None => {
                return Err(Failure::Receiver);
            },
            Some(i) => i,
        };
        if !self.entries[i].reference.matches(reference) {
            return Err(Failure::Identity);
        }
        let kept = self.entries[i].reference.duplicate();
        let ghost before = self.entries@;
        self.entries.set(i, Entry { reference: kept, revoked: true });
        proof {
            assert forall|a: int, b: int| 0 <= a < b < self.entries@.len() implies (#[trigger] self.entries@[a]).reference.decision@
                != (#[trigger] self.entries@[b]).reference.decision@ by {
                assert(before[a].reference.decision@ != before[b].reference.decision@);
            }
        }
        Ok(())
    }
}

/// No decision identity occurs twice in a ledger.
pub open spec fn distinct(entries: Seq<Entry>) -> bool {
    forall|i: int, j: int|
        0 <= i < j < entries.len() ==> (#[trigger] entries[i]).reference.decision@
            != (#[trigger] entries[j]).reference.decision@
}

/// The ledger after `reference` was accepted: unchanged when its identity is
/// already known, else with a new, unrevoked entry at the end.
pub open spec fn recorded(entries: Seq<Entry>, reference: Reference) -> Seq<Entry> {
    match entry_of(entries, reference.decision@) {
        Some(_) => entries,
        None => entries.push(Entry { reference, revoked: false }),
    }
}

/// The ledger after the decision `id` was revoked.
pub open spec fn revoked(entries: Seq<Entry>, id: Seq<char>) -> Seq<Entry> {
    match entry_of(entries, id) {
        Some(i) => entries.update(i, Entry { reference: entries[i].reference, revoked: true }),
        None => entries,
    }
}

pub open spec fn record_result(active: bool, entries: Seq<Entry>, reference: Reference) -> Result<(), Failure> {
    if !active {
        Err(Failure::Epoch)
    } else {
        match entry_of(entries, reference.decision@) {
            Some(i) => if !entries[i].reference.same(&reference) {
                Err(Failure::Identity)
            } else if entries[i].revoked {
                Err(Failure::Revoked)
            } else {
                Ok(())
            },
            None => if entries.len() >= LEDGER_CAPACITY {
                Err(Failure::Capacity)
            } else {
                Ok(())
            },
        }
    }
}

pub open spec fn live_result(active: bool, entries: Seq<Entry>, reference: Reference, expires: u64, now: u64, later: u64) -> Result<(), Failure> {
    if !active {
        Err(Failure::Epoch)
    } else if now >= expires {
        Err(Failure::Expired)
    } else {
        match entry_of(entries, reference.decision@) {
            None => Err(Failure::Receiver),
            Some(i) => if !entries[i].reference.same(&reference) {
                Err(Failure::Identity)
            } else if entries[i].revoked {
                Err(Failure::Revoked)
            } else if later >= expires {
                Err(Failure::Expired)
            } else {
                Ok(())
            },
        }
    }
}

pub open spec fn revoke_result(entries: Seq<Entry>, reference: Reference) -> Result<(), Failure> {
    match entry_of(entries, reference.decision@) {
        None => Err(Failure::Receiver),
        Some(i) => if !entries[i].reference.same(&reference) {
            Err(Failure::Identity)
        } else {
            Ok(())
        },
    }
}

impl Reference {
    pub fn duplicate(&self) -> (r: Self)
        ensures
            r == *self,
    {
        Reference {
            decision: self.decision.clone(),
            kind: self.kind,
            owner: Owner {
                registration: self.owner.registration.clone(),
                revision: self.owner.revision,
                program: self.owner.program.clone(),
                catalog: self.owner.catalog.clone(),
            },
            issuer: self.issuer.clone(),
            key: self.key.clone(),
            epoch: self.epoch.clone(),
            challenge: self.challenge.clone(),
            context_digest: self.context_digest.clone(),
            policy_digest: self.policy_digest.clone(),
            signed_digest: self.signed_digest.clone(),
            ttl_ms: self.ttl_ms,
        }
    }
}

/// Appending an entry changes no earlier answer and makes the new identity
/// answer with the new position.
pub proof fn lemma_entry_of_push(entries: Seq<Entry>, x: Entry, id: Seq<char>)
    requires
        entry_of(entries, x.reference.decision@) is None,
    ensures
        entry_of(entries.push(x), id) == (match entry_of(entries, id) {
            Some(i) => Some(i),
            None => if x.reference.decision@ == id {
                Some(entries.len() as int)
            } else {
                None
            },
        }),
{
    lemma_entry_from_push(entries, x, id, 0);
}

proof fn lemma_entry_from_push(entries: Seq<Entry>, x: Entry, id: Seq<char>, k: int)
    requires
        0 <= k <= entries.len(),
    ensures
        entry_from(entries.push(x), id, k) == (match entry_from(entries, id, k) {
            Some(i) => Some(i),
            None => if x.reference.decision@ == id {
                Some(entries.len() as int)
            } else {
                None
            },
        }),
    decreases entries.len() - k,
{
    if k < entries.len() {
        assert(entries.push(x)[k] == entries[k]);
        lemma_entry_from_push(entries, x, id, k + 1);
    } else {
        assert(entries.push(x)[k] == x);
        assert(entry_from(entries.push(x), id, k + 1) is None);
    }
}

/// Updating an entry in place under the same identity changes no answer.
pub proof fn lemma_entry_of_update(entries: Seq<Entry>, i: int, x: Entry, id: Seq<char>)
    requires
        0 <= i < entries.len(),
        x.reference.decision@ == entries[i].reference.decision@,
    ensures
        entry_of(entries.update(i, x), id) == entry_of(entries, id),
{
    lemma_entry_from_update(entries, i, x, id, 0);
}

proof fn lemma_entry_from_update(entries: Seq<Entry>, i: int, x: Entry, id: Seq<char>, k: int)
    requires
        0 <= i < entries.len(),
        0 <= k,
        x.reference.decision@ == entries[i].reference.decision@,
    ensures
        entry_from(entries.update(i, x), id, k) == entry_from(entries, id, k),
    decreases entries.len() - k,
{
    if k < entries.len() {
        lemma_entry_from_update(entries, i, x, id, k + 1);
    }
}

/// A decision the receiver accepted is live at once: while the receiver is
/// open and its deadline has not passed, checking it succeeds.
pub proof fn law_recorded_decision_is_live(
    entries: Seq<Entry>,
    reference: Reference,
    expires_ms: u64,
    now_ms: u64,
    later_ms: u64,
)
    requires
        record_result(true, entries, reference) is Ok,
        now_ms < expires_ms,
        later_ms < expires_ms,
    ensures
        live_result(true, recorded(entries, reference), reference, expires_ms, now_ms, later_ms) is Ok,
{
    lemma_entry_from(entries, reference.decision@, 0);
    if entry_of(entries, reference.decision@) is None {
        lemma_entry_of_push(entries, Entry { reference, revoked: false }, reference.decision@);
    }
}

/// Accepting the same decision again changes nothing and succeeds again.
pub proof fn law_recording_is_idempotent(active: bool, entries: Seq<Entry>, reference: Reference)
    requires
        record_result(active, entries, reference) is Ok,
    ensures
        record_result(active, recorded(entries, reference), reference) is Ok,
        recorded(recorded(entries, reference), reference) == recorded(entries, reference),
{
    lemma_entry_from(entries, reference.decision@, 0);
    if entry_of(entries, reference.decision@) is None {
        lemma_entry_of_push(entries, Entry { reference, revoked: false }, reference.decision@);
    }
}

/// A decision identity names one signed content: once one content was
/// accepted under it, any other content under the same identity is refused.
pub proof fn law_decision_identity_is_fixed(entries: Seq<Entry>, first: Reference, other: Reference)
    requires
        record_result(true, entries, first) is Ok,
        other.decision@ == first.decision@,
        !other.same(&first),
    ensures
        record_result(true, recorded(entries, first), other) == Err::<(), Failure>(Failure::Identity),
{
    lemma_entry_from(entries, first.decision@, 0);
    if entry_of(entries, first.decision@) is None {
        lemma_entry_of_push(entries, Entry { reference: first, revoked: false }, first.decision@);
    }
}

/// Revocation is permanent: a revoked decision is never accepted again and is
/// never live again, whatever the clock says.
pub proof fn law_revoked_decision_stays_revoked(
    entries: Seq<Entry>,
    reference: Reference,
    expires_ms: u64,
    now_ms: u64,
    later_ms: u64,
)
    requires
        revoke_result(entries, reference) is Ok,
    ensures
        record_result(true, revoked(entries, reference.decision@), reference) == Err::<(), Failure>(Failure::Revoked),
        now_ms < expires_ms ==> live_result(true, revoked(entries, reference.decision@), reference, expires_ms, now_ms, later_ms)
            == Err::<(), Failure>(Failure::Revoked),
{
    lemma_entry_from(entries, reference.decision@, 0);
    let i = entry_of(entries, reference.decision@)->0;
    lemma_entry_of_update(entries, i, Entry { reference: entries[i].reference, revoked: true }, reference.decision@);
}

/// A closed receiver accepts nothing and keeps nothing live.
pub proof fn law_closed_receiver_refuses(
    entries: Seq<Entry>,
    reference: Reference,
    expires_ms: u64,
    now_ms: u64,
    later_ms: u64,
)
    ensures
        record_result(false, entries, reference) == Err::<(), Failure>(Failure::Epoch),
        live_result(false, entries, reference, expires_ms, now_ms, later_ms) == Err::<(), Failure>(Failure::Epoch),
{
}

/// Once decision `v` was revoked at its receiver (`revoked_at` is the
/// receiver after the revocation), it is dead there for `v` and for every
/// copy of it: before its deadline it is refused as revoked, and verifying
/// the same signed decision again is refused as revoked. Once the receiver
/// is closed, both are refused for the epoch instead.
pub proof fn law_revoked_decision_is_dead(
    v: VerifiedDecision,
    copy: VerifiedDecision,
    receiver: Receiver,
    revoked_at: Receiver,
    info: ChallengeInfo,
    created_ms: u64,
    max_ttl_ms: u64,
    signed: SignedDecision,
    signed_digest: String,
    now_ms: u64,
    check: SignatureCheck,
    later_ms: u64,
)
    requires
        revoke_result(receiver.spec_entries(), v.spec_reference()) is Ok,
        revoked_at.spec_entries() == revoked(receiver.spec_entries(), v.spec_reference().decision@),
        revoked_at.spec_epoch() == v.spec_reference().epoch@,
        now_ms < v.spec_expires_ms(),
        reference_of(info, signed.claim, signed_digest) == v.spec_reference(),
        copy.spec_reference() == v.spec_reference(),
        copy.spec_expires_ms() == v.spec_expires_ms(),
    ensures
        v.live(revoked_at, now_ms, later_ms) == Err::<(), Failure>(
            if revoked_at.spec_active() { Failure::Revoked } else { Failure::Epoch }),
        copy.live(revoked_at, now_ms, later_ms) == v.live(revoked_at, now_ms, later_ms),
        match claim_refusal(info, created_ms, max_ttl_ms, revoked_at.spec_active(), revoked_at.spec_epoch(), signed, now_ms,
            check, later_ms) {
            Some(f) => !revoked_at.spec_active() ==> f == Failure::Epoch,
            None => record_result(true, revoked_at.spec_entries(), reference_of(info, signed.claim, signed_digest))
                == Err::<(), Failure>(Failure::Revoked),
        },
{
    law_revoked_decision_stays_revoked(receiver.spec_entries(), v.spec_reference(), v.spec_expires_ms(), now_ms, later_ms);
}

/// Once a receiver is closed, no decision is live there, whatever the
/// ledger holds, and no signed decision is verified there.
pub proof fn law_closed_receiver_kills_decisions(
    v: VerifiedDecision,
    closed: Receiver,
    info: ChallengeInfo,
    created_ms: u64,
    max_ttl_ms: u64,
    signed: SignedDecision,
    now_ms: u64,
    check: SignatureCheck,
    later_ms: u64,
)
    requires
        !closed.spec_active(),
    ensures
        v.live(closed, now_ms, later_ms) == Err::<(), Failure>(Failure::Epoch),
        claim_refusal(info, created_ms, max_ttl_ms, closed.spec_active(), closed.spec_epoch(), signed, now_ms, check, later_ms)
            == Some(Failure::Epoch),
{
}

/// A decision is accepted at a receiving boundary only for the very
/// context it was verified for: whenever the recheck passes, the decision
/// is of the request's kind and context, for its owner and policy, and of
/// the receiver's epoch; a decision of the right kind verified for another
/// context is refused for the context.
pub proof fn law_recheck_needs_the_same_context(request: Request, verified: VerifiedDecision, receiver: Receiver, now_ms: u64,
    later_ms: u64)
    ensures
        request_check(request, verified, receiver, now_ms, later_ms) is None ==> {
            let reference = verified.spec_reference();
            &&& reference.kind == request.spec_kind()
            &&& reference.context_digest@ == request.spec_context_digest()
            &&& reference.owner.same(&request.spec_owner())
            &&& reference.policy_digest@ == request.spec_policy_digest()
            &&& reference.epoch@ == request.spec_epoch()
            &&& receiver.spec_epoch() == request.spec_epoch()
            &&& receiver.spec_active()
        },
        verified.spec_reference().kind == request.spec_kind()
            && verified.spec_reference().context_digest@ != request.spec_context_digest()
            ==> request_check(request, verified, receiver, now_ms, later_ms) == Some(Failure::Context),
{
}

} // verus!
