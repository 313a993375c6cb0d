use vstd::prelude::*;

use crate::error::SoftwareUseError;
use crate::id::{CapabilityId, InvocationId, ProviderId};
use crate::json::JsonValue;
use crate::provider::InteractionKind;
use crate::version::Version;

verus! {

/// An event sequence number: a `u64` that is never zero, as `NonZeroU64` holds it.
#[derive(Clone, Copy, Debug, Eq, Hash, Ord, PartialEq, PartialOrd)]
pub struct SequenceNumber(u64);

impl View for SequenceNumber {
    type V = u64;

    closed spec fn view(&self) -> u64 {
        self.0
    }
}

impl SequenceNumber {
    #[verifier::type_invariant]
    spec fn well_formed(self) -> bool {
        self.0 != 0
    }

    /// The sequence number `value`, or `None` for zero.
    pub fn new(value: u64) -> (r: Option<Self>)
        ensures
            r is Some <==> value != 0,
            r matches Some(n) ==> n@ == value,
    {
        if value == 0 {
            None
        } else {
            Some(SequenceNumber(value))
        }
    }

    /// The number, which is at least one.
    pub fn get(&self) -> (r: u64)
        ensures
            r == self@,
            r >= 1,
    {
        proof {
            use_type_invariant(self);
        }
        self.0
    }
}

/// Optional constraints that must be honored without implicit relaxation.
#[derive(Clone, Debug, Default, Eq, PartialEq)]
pub struct InvocationConstraints {
    /// Require one exact provider.
    pub provider_id: Option<ProviderId>,
    /// Require one exact interaction kind.
    pub interaction: Option<InteractionKind>,
}

/// A caller-owned, transport-neutral invocation request.
#[derive(Clone, Debug, PartialEq)]
pub struct InvocationRequest {
    /// Idempotency and audit identity supplied by the caller.
    pub invocation_id: InvocationId,
    /// Capability to invoke.
    pub capability_id: CapabilityId,
    /// Accepted capability contract versions.
    pub version_requirement: semver::VersionReq,
    /// JSON value validated against the selected capability input schema.
    pub input: JsonValue,
    /// Hard provider/interaction constraints.
    pub constraints: InvocationConstraints,
}

/// Evidence returned once a request has been accepted and pinned.
#[derive(Clone, Debug, PartialEq)]
pub struct InvocationReceipt {
    /// Invocation identity.
    pub invocation_id: InvocationId,
    /// Selected capability identity.
    pub capability_id: CapabilityId,
    /// Selected provider identity.
    pub provider_id: ProviderId,
    /// Selected provider implementation version.
    pub provider_version: Version,
    /// Selected capability contract version.
    pub capability_version: Version,
    /// Selected interaction kind.
    pub interaction: InteractionKind,
}

/// Successful provider output after runtime validation.
#[derive(Clone, Debug, PartialEq)]
pub struct InvocationResult {
    /// JSON value validated against the selected capability output schema.
    pub output: JsonValue,
}

/// Stable invocation lifecycle states.
#[derive(Clone, Copy, Debug, Eq, PartialEq, Structural)]
pub enum InvocationState {
    /// Accepted but provider execution has not begun.
    Accepted,
    /// The pinned provider is executing.
    Running,
    /// Output was produced and validated.
    Succeeded,
    /// Execution or validation failed.
    Failed,
    /// Cancellation was requested and observed.
    Cancelled,
}

/// Structured evidence for a terminal cancellation.
#[derive(Clone, Copy, Debug, Eq, PartialEq, Structural)]
pub enum CancellationOutcome {
    /// Cancellation won before provider execution began.
    BeforeExecution,
    /// The running provider explicitly acknowledged the runtime signal.
    AcknowledgedByProvider,
}

/// Lifecycle status with state-specific evidence.
#[derive(Clone, Debug, PartialEq)]
pub enum InvocationStatus {
    /// Accepted but provider execution has not begun.
    Accepted,
    /// The pinned provider is executing.
    Running,
    /// Output was produced and validated.
    Succeeded {
        /// Validated provider output.
        result: InvocationResult,
    },
    /// Execution or output validation failed.
    Failed {
        /// Bounded failure evidence.
        error: SoftwareUseError,
    },
    /// Cancellation reached a terminal state.
    Cancelled {
        /// Whether cancellation won before execution or was provider-acknowledged.
        outcome: CancellationOutcome,
    },
}

impl InvocationStatus {
    /// The state discriminator of this status.
    pub open spec fn lifecycle_state(&self) -> InvocationState {
        match *self {
            InvocationStatus::Accepted => InvocationState::Accepted,
            InvocationStatus::Running => InvocationState::Running,
            InvocationStatus::Succeeded { .. } => InvocationState::Succeeded,
            InvocationStatus::Failed { .. } => InvocationState::Failed,
            InvocationStatus::Cancelled { .. } => InvocationState::Cancelled,
        }
    }

    /// Returns the state discriminator without discarding evidence.
    pub fn state(&self) -> (r: InvocationState)
        ensures
            r == self.lifecycle_state(),
    {
        match self {
            InvocationStatus::Accepted => InvocationState::Accepted,
            InvocationStatus::Running => InvocationState::Running,
            InvocationStatus::Succeeded { .. } => InvocationState::Succeeded,
            InvocationStatus::Failed { .. } => InvocationState::Failed,
            InvocationStatus::Cancelled { .. } => InvocationState::Cancelled,
        }
    }

    /// Returns successful output when the invocation succeeded.
    pub fn result(&self) -> (r: Option<&InvocationResult>)
        ensures
            r is Some <==> self.lifecycle_state() == InvocationState::Succeeded,
            r matches Some(result) ==> *self == (InvocationStatus::Succeeded { result: *result }),
    {
        match self {
            InvocationStatus::Succeeded { result } => Some(result),
            _ => None,
        }
    }

    /// Returns failure evidence when the invocation failed.
    pub fn error(&self) -> (r: Option<&SoftwareUseError>)
        ensures
            r is Some <==> self.lifecycle_state() == InvocationState::Failed,
            r matches Some(error) ==> *self == (InvocationStatus::Failed { error: *error }),
    {
        match self {
            InvocationStatus::Failed { error } => Some(error),
            _ => None,
        }
    }
}

/// A point-in-time view of one invocation.
#[derive(Clone, Debug, PartialEq)]
pub struct InvocationSnapshot {
    /// Acceptance and selection evidence.
    pub receipt: InvocationReceipt,
    /// Current lifecycle status and its state-specific evidence.
    pub status: InvocationStatus,
    /// Last emitted event sequence; accepted snapshots always have at least one event.
    pub last_event_sequence: SequenceNumber,
}

impl InvocationSnapshot {
    /// Returns the current state discriminator.
    pub fn state(&self) -> (r: InvocationState)
        ensures
            r == self.status.lifecycle_state(),
    {
        self.status.state()
    }

    /// Returns successful output when the invocation succeeded.
    pub fn result(&self) -> (r: Option<&InvocationResult>)
        ensures
            r is Some <==> self.status.lifecycle_state() == InvocationState::Succeeded,
            r matches Some(result) ==> self.status == (InvocationStatus::Succeeded {
                result: *result,
            }),
    {
        self.status.result()
    }

    /// Returns failure evidence when the invocation failed.
    pub fn error(&self) -> (r: Option<&SoftwareUseError>)
        ensures
            r is Some <==> self.status.lifecycle_state() == InvocationState::Failed,
            r matches Some(error) ==> self.status == (InvocationStatus::Failed { error: *error }),
    {
        self.status.error()
    }
}

/// Stable event categories for replay and audit.
#[derive(Clone, Copy, Debug, Eq, PartialEq, Structural)]
pub enum EventKind {
    /// Runtime accepted and pinned the invocation.
    Accepted,
    /// Provider execution began.
    Started,
    /// A caller requested cancellation.
    CancellationRequested,
    /// Output completed and passed validation.
    Succeeded,
    /// Execution or validation failed.
    Failed,
    /// Cancellation reached a terminal state.
    Cancelled,
}

/// Event category with required category-specific evidence.
#[derive(Clone, Debug, PartialEq)]
pub enum RuntimeEventData {
    /// Runtime accepted and pinned the invocation.
    Accepted,
    /// Provider execution began.
    Started,
    /// A caller requested cancellation.
    CancellationRequested,
    /// Output completed and passed validation.
    Succeeded,
    /// Execution or validation failed.
    Failed {
        /// Bounded failure evidence.
        error: SoftwareUseError,
    },
    /// Cancellation reached a terminal state.
    Cancelled {
        /// Structured cancellation evidence.
        outcome: CancellationOutcome,
    },
}

impl RuntimeEventData {
    /// The category discriminator of this event data.
    pub open spec fn event_kind(&self) -> EventKind {
        match *self {
            RuntimeEventData::Accepted => EventKind::Accepted,
            RuntimeEventData::Started => EventKind::Started,
            RuntimeEventData::CancellationRequested => EventKind::CancellationRequested,
            RuntimeEventData::Succeeded => EventKind::Succeeded,
            RuntimeEventData::Failed { .. } => EventKind::Failed,
            RuntimeEventData::Cancelled { .. } => EventKind::Cancelled,
        }
    }

    /// Returns the category discriminator without discarding evidence.
    pub fn kind(&self) -> (r: EventKind)
        ensures
            r == self.event_kind(),
    {
        match self {
            RuntimeEventData::Accepted => EventKind::Accepted,
            RuntimeEventData::Started => EventKind::Started,
            RuntimeEventData::CancellationRequested => EventKind::CancellationRequested,
            RuntimeEventData::Succeeded => EventKind::Succeeded,
            RuntimeEventData::Failed { .. } => EventKind::Failed,
            RuntimeEventData::Cancelled { .. } => EventKind::Cancelled,
        }
    }

    /// Returns failure evidence for a failed event.
    pub fn error(&self) -> (r: Option<&SoftwareUseError>)
        ensures
            r is Some <==> self.event_kind() == EventKind::Failed,
            r matches Some(error) ==> *self == (RuntimeEventData::Failed { error: *error }),
    {
        match self {
            RuntimeEventData::Failed { error } => Some(error),
            _ => None,
        }
    }
}

/// One append-only runtime lifecycle event.
#[derive(Clone, Debug, PartialEq)]
pub struct RuntimeEvent {
    /// Invocation identity.
    pub invocation_id: InvocationId,
    /// Gap-free, monotonically increasing sequence beginning at one.
    pub sequence: SequenceNumber,
    /// Pinned provider.
    pub provider_id: ProviderId,
    /// Lifecycle category and required category-specific evidence.
    pub data: RuntimeEventData,
}

impl RuntimeEvent {
    /// Returns the event category discriminator.
    pub fn kind(&self) -> (r: EventKind)
        ensures
            r == self.data.event_kind(),
    {
        self.data.kind()
    }

    /// Returns failure evidence for a failed event.
    pub fn error(&self) -> (r: Option<&SoftwareUseError>)
        ensures
            r is Some <==> self.data.event_kind() == EventKind::Failed,
            r matches Some(error) ==> self.data == (RuntimeEventData::Failed { error: *error }),
    {
        self.data.error()
    }
}

/// Exclusive event replay cursor.
#[derive(Clone, Copy, Debug, Default, Eq, PartialEq, Structural)]
pub struct EventCursor(pub u64);

/// One transport-neutral event replay page.
#[derive(Clone, Debug, PartialEq)]
pub struct EventPage {
    /// Events with a sequence greater than the requested cursor.
    pub events: Vec<RuntimeEvent>,
    /// Cursor that can be supplied to the next replay call.
    pub next_cursor: EventCursor,
    /// Whether the invocation was terminal when this page was produced.
    pub terminal: bool,
}

} // verus!
