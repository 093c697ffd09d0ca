//! Immutable decision and revocation observations. A stored reference never
//! restores a live lease, and a historical observation is never replaced.
use vstd::prelude::*;
use crate::decision::{
    failure_text, Failure, Receiver, Reference, RevocationReference, VerifiedDecision,
    VerifiedRevocation,
};
use crate::registration::{
    integrity, invalid, Refusal, RegistrationState, StoreError, VersionedRegistration,
};
use crate::text::join3;

verus! {

/// `components/decision/<component>/<decision>`
pub fn decision_key(component: &String, decision: &String) -> (r: String)
    ensures
        r@ == "components/decision/"@ + component@ + "/"@ + decision@,
{
    join3("components/decision/", component.as_str(), decision.as_str())
}

/// `components/decision-revocation/<component>/<decision>`
pub fn revocation_key(component: &String, decision: &String) -> (r: String)
    ensures
        r@ == "components/decision-revocation/"@ + component@ + "/"@ + decision@,
{
    join3("components/decision-revocation/", component.as_str(), decision.as_str())
}

#[derive(Clone, Debug)]
pub struct DecisionRecord {
    pub reference: Reference,
}

#[derive(Clone, Debug)]
pub struct DecisionRevocationRecord {
    pub reference: RevocationReference,
}

/// The refusal carrying a decision failure's own message.
pub fn decision_refusal(f: Failure) -> (r: StoreError)
    ensures
        r@ == Refusal::Invalid(failure_text(f)),
{
    StoreError::Invalid(f.message())
}

/// The reference still names the accepted registration revision and author
/// content it was decided for.
pub open spec fn names_current(current: VersionedRegistration, reference: Reference) -> bool {
    &&& current.registration.state == RegistrationState::Accepted
    &&& current.revision == reference.owner.revision
    &&& current.registration.declaration.catalog.program@ == reference.owner.program@
    &&& current.registration.declaration.catalog.digest@ == reference.owner.catalog@
}

pub open spec fn stale_decision() -> Seq<char> {
    "decision/current-registration: reference no longer matches accepted author content"@
}

/// What recording a verified decision does: refuse, give back the record
/// already kept (`None`), or give the record to keep under the returned key.
pub open spec fn decision_recording(
    live: Result<(), Failure>,
    later: Result<(), Failure>,
    current: VersionedRegistration,
    reference: Reference,
    existing: Option<DecisionRecord>,
) -> Result<(Reference, bool), Refusal> {
    if live is Err {
        Err(Refusal::Invalid(failure_text(live->Err_0)))
    } else if current.registration.id@ != reference.owner.registration@ {
        Err(Refusal::Integrity("component identity differs"@))
    } else if !names_current(current, reference) {
        Err(Refusal::Invalid(stale_decision()))
    } else if later is Err {
        Err(Refusal::Invalid(failure_text(later->Err_0)))
    } else {
        match existing {
            Some(old) => if old.reference.same(&reference) {
                Ok((old.reference, false))
            } else {
                Err(Refusal::Invalid("decision/identity: refusing to replace a historical decision"@))
            },
            None => Ok((reference, true)),
        }
    }
}

/// Records a verified decision for audit only: it neither activates a
/// binding nor grants execution. The decision must be live at `receiver`
/// at both readings of the clock, and its owner must still be the accepted
/// registration `current`. `existing` is what is stored under its key.
/// On success, the record and, when it is new, the key to store it under.
pub fn record_verified_decision(
    proof: &VerifiedDecision,
    receiver: &Receiver,
    now_ms: u64,
    later_ms: u64,
    current: &VersionedRegistration,
    existing: Option<&DecisionRecord>,
) -> (r: Result<(DecisionRecord, Option<String>), StoreError>)
    ensures
        ({
            let spec = decision_recording(proof.live(*receiver, now_ms, now_ms),
                proof.live(*receiver, now_ms, later_ms), *current, proof.spec_reference(),
                match existing { Some(e) => Some(*e), None => None });
            match r {
                Ok((record, key)) => spec matches Ok((x, fresh)) && record.reference == x
                    && (fresh <==> key is Some)
                    && (key matches Some(k) ==> k@ == "components/decision/"@ + x.owner.registration@ + "/"@ + x.decision@),
                Err(e) => spec == Err::<(Reference, bool), Refusal>(e@),
            }
        }),
{
    let reference = proof.reference();
    if let Err(f) = proof.check_live(receiver, now_ms, now_ms) {
        return Err(decision_refusal(f));
    }
    if current.registration.id != reference.owner.registration {
        return Err(integrity("component identity differs"));
    }
    if current.registration.state != RegistrationState::Accepted || current.revision != reference.owner.revision
        || current.registration.declaration.catalog.program != reference.owner.program
        || current.registration.declaration.catalog.digest != reference.owner.catalog {
        return Err(invalid("decision/current-registration: reference no longer matches accepted author content"));
    }
    if let Err(f) = proof.check_live(receiver, now_ms, later_ms) {
        return Err(decision_refusal(f));
    }
    match existing {
        Some(old) => {
            if !old.reference.matches(reference) {
                return Err(invalid("decision/identity: refusing to replace a historical decision"));
            }
            Ok((DecisionRecord { reference: old.reference.duplicate() }, None))
        },
        None => {
            let key = decision_key(&reference.owner.registration, &reference.decision);
            Ok((DecisionRecord { reference: reference.duplicate() }, Some(key)))
        },
    }
}

/// A stored decision record, found under the key of `component` and
/// `decision`, must name them.
pub fn recorded_decision(component: &String, decision: &String, row: Option<DecisionRecord>) -> (r: Result<DecisionRecord, StoreError>)
    ensures
        row is None ==> (r matches Err(e) && e@ == Refusal::Invalid("decision record not found"@)),
        row matches Some(v) ==> if v.reference.owner.registration@ == component@ && v.reference.decision@ == decision@ {
            (r matches Ok(x) && x == v)
        } else {
            (r matches Err(e) && e@ == Refusal::Integrity("decision record identity differs"@))
        },
{
    match row {
        None => Err(invalid("decision record not found")),
        Some(value) => {
            if value.reference.owner.registration != *component || value.reference.decision != *decision {
                return Err(integrity("decision record identity differs"));
            }
            Ok(value)
        },
    }
}

/// What recording a verified revocation does, given the decision record it
/// targets and what is already stored under the revocation key.
pub open spec fn revocation_recording(
    reference: RevocationReference,
    original: Option<DecisionRecord>,
    existing: Option<DecisionRevocationRecord>,
) -> Result<(RevocationReference, bool), Refusal> {
    match original {
        None => Err(Refusal::Invalid("revocation requires the original recorded decision"@)),
        Some(o) => if !o.reference.same(&reference.target) {
            Err(Refusal::Invalid("revocation target differs from original decision"@))
        } else {
            match existing {
                Some(old) => if old.reference.same(&reference) {
                    Ok((old.reference, false))
                } else {
                    Err(Refusal::Invalid("revocation history already records another signed statement"@))
                },
                None => Ok((reference, true)),
            }
        },
    }
}

/// Records a verified revocation next to the decision it revokes. Only a
/// recorded decision can be revoked, and a revocation record is never
/// replaced by another statement.
pub fn record_verified_revocation(
    proof: &VerifiedRevocation,
    original: Option<&DecisionRecord>,
    existing: Option<&DecisionRevocationRecord>,
) -> (r: Result<(DecisionRevocationRecord, Option<String>), StoreError>)
    ensures
        ({
            let spec = revocation_recording(proof.spec_reference(),
                match original { Some(o) => Some(*o), None => None },
                match existing { Some(e) => Some(*e), None => None });
            let target = proof.spec_reference().target;
            match r {
                Ok((record, key)) => spec matches Ok((x, fresh)) && record.reference == x
                    && (fresh <==> key is Some)
                    && (key matches Some(k) ==> k@ == "components/decision-revocation/"@ + target.owner.registration@ + "/"@ + target.decision@),
                Err(e) => spec == Err::<(RevocationReference, bool), Refusal>(e@),
            }
        }),
{
    let reference = proof.reference();
    let target = &reference.target;
    let original = match original {
        None => {
            return Err(invalid("revocation requires the original recorded decision"));
        },
        Some(o) => o,
    };
    if !original.reference.matches(target) {
        return Err(invalid("revocation target differs from original decision"));
    }
    match existing {
        Some(old) => {
            if !old.reference.matches(reference) {
                return Err(invalid("revocation history already records another signed statement"));
            }
            Ok((DecisionRevocationRecord { reference: old.reference.duplicate() }, None))
        },
        None => {
            let key = revocation_key(&target.owner.registration, &target.decision);
            Ok((DecisionRevocationRecord { reference: reference.duplicate() }, Some(key)))
        },
    }
}

} // verus!
