use rx_supervisor::model::Effect;
use rx_supervisor::process::{signal_outcome, SignalOutcome};
use rx_supervisor::Error;

/// An owned child as the signal logic sees it: whether it has exited.
struct OwnedTestChild {
    exited: bool,
}

impl OwnedTestChild {
    fn try_wait(&self) -> Result<bool, String> {
        Ok(self.exited)
    }
}

fn running() -> OwnedTestChild {
    OwnedTestChild { exited: false }
}

fn exited() -> OwnedTestChild {
    OwnedTestChild { exited: true }
}

#[test]
fn signal_acceptance_does_not_claim_child_exit() {
    let child = running();
    assert_eq!(child.try_wait().unwrap(), false);
    assert_eq!(
        signal_outcome(true, Some(Effect::NonActuating), || -> Result<bool, String> {
            panic!("acceptance is not an exit observation")
        })
        .unwrap(),
        SignalOutcome::Accepted
    );
    assert_eq!(child.try_wait().unwrap(), false);
}

#[test]
fn failed_signal_uses_only_confirmed_owned_non_actuating_exit() {
    let child = exited();
    assert_eq!(
        signal_outcome(false, Some(Effect::NonActuating), || child.try_wait()).unwrap(),
        SignalOutcome::OwnedNonActuatingExit
    );
}

#[test]
fn failed_signal_with_live_or_unconfirmed_child_remains_error() {
    let child = running();
    assert!(signal_outcome(false, Some(Effect::NonActuating), || child.try_wait()).is_err());
    assert!(signal_outcome(false, Some(Effect::NonActuating), || Err(
        "injected observation unavailability".to_string()
    ))
    .is_err());
    assert_eq!(child.try_wait().unwrap(), false);
}

#[test]
fn failed_signal_keeps_control_and_unknown_effect_errors() {
    let child = exited();
    for effect in [Some(Effect::ProtocolGuardedService), Some(Effect::RequiresPlatformAuthority), None] {
        assert!(signal_outcome(false, effect, || -> Result<bool, String> {
            panic!("control path must not use non-actuating fallback")
        })
        .is_err());
        assert!(child.try_wait().unwrap());
    }
}

#[test]
fn an_unconfirmed_signal_names_its_cause() {
    match signal_outcome(false, Some(Effect::NonActuating), || Ok(false)) {
        Err(Error::Reconciliation(m)) => assert_eq!(m, "owned process signal was not confirmed"),
        other => panic!("unexpected {other:?}"),
    }
    match signal_outcome(false, Some(Effect::NonActuating), || Err("io".to_string())) {
        Err(Error::Io(m)) => assert_eq!(m, "io"),
        other => panic!("unexpected {other:?}"),
    }
}
