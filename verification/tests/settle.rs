use android_intent::{settle, FailureKind};
use jni::errors::Error;

#[test]
fn settle_keeps_success() {
    let outcome: Result<u32, Error> = Ok(7);
    let settled = settle(outcome, FailureKind::QueryFailure);
    assert!(matches!(settled, Ok(7)));
}

#[test]
fn settle_files_failure_under_the_kind() {
    let outcome: Result<u32, Error> = Err(Error::JavaException);
    let settled = settle(outcome, FailureKind::ConstructionFailure);
    let error = settled.unwrap_err();
    assert_eq!(error.kind, FailureKind::ConstructionFailure);
    assert!(matches!(error.cause, Error::JavaException));
}

#[test]
fn settle_keeps_the_cause_for_each_kind() {
    let kinds = [
        FailureKind::AttachFailure,
        FailureKind::ConstructionFailure,
        FailureKind::QueryFailure,
    ];
    for kind in kinds {
        let outcome: Result<(), Error> = Err(Error::NullPtr("probe"));
        let error = settle(outcome, kind).unwrap_err();
        assert_eq!(error.kind, kind);
        assert!(matches!(error.cause, Error::NullPtr("probe")));
    }
}
