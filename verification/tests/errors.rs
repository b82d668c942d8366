use credential_store::error::{
    normalize, settle, settle_write, BackendFailure, Fault, Stage, StoreError,
};
use credential_store::store::check_identity;

fn at(stage: Stage, failure: BackendFailure) -> StoreError {
    let fault = normalize(stage, failure);
    assert_eq!(fault.stage, stage);
    fault.error
}

#[test]
fn missing_entry_is_not_found_at_either_step() {
    assert_eq!(at(Stage::Resolve, BackendFailure::NoEntry), StoreError::NotFound);
    assert_eq!(at(Stage::Access, BackendFailure::NoEntry), StoreError::NotFound);
}

#[test]
fn refused_storage_is_access_denied_at_either_step() {
    assert_eq!(at(Stage::Resolve, BackendFailure::NoStorageAccess), StoreError::AccessDenied);
    assert_eq!(at(Stage::Access, BackendFailure::NoStorageAccess), StoreError::AccessDenied);
}

#[test]
fn rejected_attribute_is_the_identity_only_while_resolving() {
    assert_eq!(at(Stage::Resolve, BackendFailure::Invalid), StoreError::InvalidIdentity);
    assert_eq!(at(Stage::Resolve, BackendFailure::TooLong), StoreError::InvalidIdentity);
    assert_eq!(at(Stage::Access, BackendFailure::Invalid), StoreError::BackendError);
    assert_eq!(at(Stage::Access, BackendFailure::TooLong), StoreError::BackendError);
}

#[test]
fn every_other_failure_is_a_backend_error() {
    for stage in [Stage::Resolve, Stage::Access] {
        assert_eq!(at(stage, BackendFailure::PlatformFailure), StoreError::BackendError);
        assert_eq!(at(stage, BackendFailure::BadEncoding), StoreError::BackendError);
        assert_eq!(at(stage, BackendFailure::Ambiguous), StoreError::BackendError);
        assert_eq!(at(stage, BackendFailure::Unrecognized), StoreError::BackendError);
    }
}

#[test]
fn access_never_blames_the_identity() {
    let failures = [
        BackendFailure::PlatformFailure,
        BackendFailure::NoStorageAccess,
        BackendFailure::NoEntry,
        BackendFailure::BadEncoding,
        BackendFailure::TooLong,
        BackendFailure::Invalid,
        BackendFailure::Ambiguous,
        BackendFailure::Unrecognized,
    ];
    for failure in failures {
        assert_ne!(at(Stage::Access, failure), StoreError::InvalidIdentity);
    }
}

#[test]
fn each_kind_has_its_text() {
    assert_eq!(StoreError::InvalidIdentity.message(), "invalid credential identity");
    assert_eq!(StoreError::NotFound.message(), "no matching credential found");
    assert_eq!(StoreError::AccessDenied.message(), "access to the credential store was denied");
    assert_eq!(StoreError::BackendError.message(), "credential backend failure");
}

#[test]
fn check_identity_wants_both_parts() {
    let invalid = Fault { stage: Stage::Resolve, error: StoreError::InvalidIdentity };
    assert_eq!(check_identity("svc", "user"), Ok(()));
    assert_eq!(check_identity(" ", " "), Ok(()));
    assert_eq!(check_identity("", "user"), Err(invalid));
    assert_eq!(check_identity("svc", ""), Err(invalid));
    assert_eq!(check_identity("", ""), Err(invalid));
}

#[test]
fn settle_passes_a_value_as_it_is() {
    assert_eq!(settle(Stage::Access, Ok("sk-12345".to_string())), Ok("sk-12345".to_string()));
    assert_eq!(settle(Stage::Resolve, Ok(7u8)), Ok(7u8));
    assert_eq!(settle(Stage::Access, Ok(())), Ok(()));
}

#[test]
fn settle_names_the_step_and_the_kind() {
    assert_eq!(
        settle::<String>(Stage::Access, Err(BackendFailure::NoEntry)),
        Err(Fault { stage: Stage::Access, error: StoreError::NotFound })
    );
    assert_eq!(
        settle::<()>(Stage::Resolve, Err(BackendFailure::Invalid)),
        Err(Fault { stage: Stage::Resolve, error: StoreError::InvalidIdentity })
    );
    assert_eq!(
        settle::<()>(Stage::Access, Err(BackendFailure::Invalid)),
        Err(Fault { stage: Stage::Access, error: StoreError::BackendError })
    );
    assert_eq!(
        settle::<()>(Stage::Resolve, Err(BackendFailure::NoStorageAccess)),
        Err(Fault { stage: Stage::Resolve, error: StoreError::AccessDenied })
    );
}

#[test]
fn a_write_never_finds_an_entry_missing() {
    for stage in [Stage::Resolve, Stage::Access] {
        assert_eq!(
            settle_write::<()>(stage, Err(BackendFailure::NoEntry)),
            Err(Fault { stage, error: StoreError::BackendError })
        );
    }
}

#[test]
fn a_write_settles_every_other_answer_as_any_operation() {
    let failures = [
        BackendFailure::PlatformFailure,
        BackendFailure::NoStorageAccess,
        BackendFailure::BadEncoding,
        BackendFailure::TooLong,
        BackendFailure::Invalid,
        BackendFailure::Ambiguous,
        BackendFailure::Unrecognized,
    ];
    for stage in [Stage::Resolve, Stage::Access] {
        for failure in failures {
            assert_eq!(settle_write::<()>(stage, Err(failure)), settle::<()>(stage, Err(failure)));
        }
        assert_eq!(settle_write(stage, Ok("sk-12345".to_string())), Ok("sk-12345".to_string()));
    }
    assert_eq!(
        settle_write::<()>(Stage::Resolve, Err(BackendFailure::Invalid)),
        Err(Fault { stage: Stage::Resolve, error: StoreError::InvalidIdentity })
    );
    assert_eq!(
        settle_write::<()>(Stage::Access, Err(BackendFailure::NoStorageAccess)),
        Err(Fault { stage: Stage::Access, error: StoreError::AccessDenied })
    );
}
