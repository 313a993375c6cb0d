use sua_sdk::{
    CancellationOutcome, ErrorCode, EventKind, InvocationReceipt, InvocationResult,
    InvocationSnapshot, InvocationState, InvocationStatus, JsonValue, RuntimeEvent,
    RuntimeEventData, SequenceNumber, SoftwareUseError, Version,
};

fn receipt() -> InvocationReceipt {
    InvocationReceipt {
        invocation_id: "invocation-1".parse().expect("invocation id"),
        capability_id: "software.observe".parse().expect("capability id"),
        provider_id: "provider.one".parse().expect("provider id"),
        provider_version: Version::new(1, 0, 0),
        capability_version: Version::new(1, 0, 0),
        interaction: sua_sdk::InteractionKind::Typed,
    }
}

#[test]
fn software_use_error_defaults_to_not_retryable() {
    let error = SoftwareUseError::new(ErrorCode::ProviderFailed, "provider crashed");
    assert_eq!(error.code, ErrorCode::ProviderFailed);
    assert_eq!(error.message, "provider crashed");
    assert!(!error.retryable);
    let retryable = error.clone().with_retryable(true);
    assert!(retryable.retryable);
    assert_eq!(retryable.message, error.message);
    assert!(!retryable.with_retryable(false).retryable);
}

#[test]
fn status_evidence_matches_state() {
    let output = InvocationResult {
        output: JsonValue::Number("3".to_owned()),
    };
    let failure = SoftwareUseError::new(ErrorCode::Internal, "boom");
    let statuses = [
        (InvocationStatus::Accepted, InvocationState::Accepted),
        (InvocationStatus::Running, InvocationState::Running),
        (
            InvocationStatus::Succeeded {
                result: output.clone(),
            },
            InvocationState::Succeeded,
        ),
        (
            InvocationStatus::Failed {
                error: failure.clone(),
            },
            InvocationState::Failed,
        ),
        (
            InvocationStatus::Cancelled {
                outcome: CancellationOutcome::BeforeExecution,
            },
            InvocationState::Cancelled,
        ),
    ];
    for (status, state) in statuses {
        assert_eq!(status.state(), state);
        assert_eq!(status.result().is_some(), state == InvocationState::Succeeded);
        assert_eq!(status.error().is_some(), state == InvocationState::Failed);
        let snapshot = InvocationSnapshot {
            receipt: receipt(),
            status: status.clone(),
            last_event_sequence: SequenceNumber::new(1).expect("sequence"),
        };
        assert_eq!(snapshot.state(), state);
        assert_eq!(snapshot.result(), status.result());
        assert_eq!(snapshot.error(), status.error());
    }
    let succeeded = InvocationStatus::Succeeded { result: output.clone() };
    assert_eq!(succeeded.result(), Some(&output));
    let failed = InvocationStatus::Failed { error: failure.clone() };
    assert_eq!(failed.error(), Some(&failure));
}

#[test]
fn event_kind_and_error_follow_the_data() {
    let failure = SoftwareUseError::new(ErrorCode::OutputSchemaViolation, "bad output");
    let cases = [
        (RuntimeEventData::Accepted, EventKind::Accepted),
        (RuntimeEventData::Started, EventKind::Started),
        (RuntimeEventData::CancellationRequested, EventKind::CancellationRequested),
        (RuntimeEventData::Succeeded, EventKind::Succeeded),
        (
            RuntimeEventData::Failed {
                error: failure.clone(),
            },
            EventKind::Failed,
        ),
        (
            RuntimeEventData::Cancelled {
                outcome: CancellationOutcome::AcknowledgedByProvider,
            },
            EventKind::Cancelled,
        ),
    ];
    for (data, kind) in cases {
        assert_eq!(data.kind(), kind);
        assert_eq!(data.error().is_some(), kind == EventKind::Failed);
        let event = RuntimeEvent {
            invocation_id: "invocation-1".parse().expect("invocation id"),
            sequence: SequenceNumber::new(2).expect("sequence"),
            provider_id: "provider.one".parse().expect("provider id"),
            data: data.clone(),
        };
        assert_eq!(event.kind(), kind);
        assert_eq!(event.error(), data.error());
    }
}

#[test]
fn event_sequence_zero_is_rejected() {
    assert!(SequenceNumber::new(0).is_none());
    assert_eq!(SequenceNumber::new(7).expect("sequence").get(), 7);
}
