//! Transport-neutral contracts for the Software Use ecosystem: validated
//! identities, bounded metadata, invocation lifecycle evidence, provider
//! discovery records and declarative plugin manifests.

pub mod constraints;
pub mod error;
pub mod execution;
pub mod id;
pub mod invocation;
pub mod json;
pub mod plugin;
pub mod provider;
pub mod text;
pub mod version;

pub use error::{ErrorCode, SoftwareUseError};
pub use id::{
    CapabilityId, EventId, IdentifierError, InvocationId, PermissionId, PluginId, ProtocolId,
    ProviderId, ServiceId,
};
pub use text::{MAX_METADATA_TEXT_CHARS, MetadataText, MetadataTextError};
pub use invocation::{
    CancellationOutcome, EventCursor, EventKind, EventPage, InvocationConstraints,
    InvocationReceipt, InvocationRequest, InvocationResult, InvocationSnapshot, InvocationState,
    InvocationStatus, RuntimeEvent, RuntimeEventData, SequenceNumber,
};
pub use provider::{
    CancellationSignal, CapabilityOffer, CapabilityQuery, CapabilitySpec, InteractionKind,
    OperationSafety, ProviderCapability, ProviderDescriptor, ProviderInvocation,
};
pub use json::{JsonValue, serde_json_encoding};
pub use version::Version;
pub use constraints::{
    MAX_PERMISSION_CONSTRAINT_BYTES, MAX_PERMISSION_CONSTRAINT_COLLECTION_ITEMS,
    MAX_PERMISSION_CONSTRAINT_DEPTH, MAX_PERMISSION_CONSTRAINT_KEY_CHARS,
    MAX_PERMISSION_CONSTRAINT_NODES, MAX_PERMISSION_CONSTRAINT_STRING_CHARS,
    PermissionConstraints, PermissionConstraintsError, validate_encoded_permission_constraints,
    validate_permission_constraints,
};
pub use execution::{PluginExecution, PluginExecutionDecodeError};
pub use plugin::{
    BoundedDeclarations, CapabilityContractRef, CapabilityRequirement, EventContract, EventMode,
    MAX_PLUGIN_DECLARATIONS, MAX_PLUGIN_DECLARATIONS_PER_COLLECTION, PLUGIN_MANIFEST_VERSION,
    PermissionRequest, PluginManifest, PluginManifestCollection, PluginManifestValidationError,
    ServiceProvision, ServiceRequirement,
};
