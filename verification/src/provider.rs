use vstd::prelude::*;

use crate::id::{CapabilityId, ProviderId};
use crate::invocation::InvocationRequest;
use crate::json::JsonValue;
use crate::version::Version;

verus! {

/// How a provider interacts with software, ordered from strongest to weakest
/// contract: `Typed < SemanticUi < VisualUi`.
#[derive(Clone, Copy, Debug, Eq, Hash, Ord, PartialEq, PartialOrd, Structural)]
pub enum InteractionKind {
    /// A typed vendor or application API.
    Typed,
    /// Structured UI semantics bound to an exact target.
    SemanticUi,
    /// Pixel observation and bounded visual input.
    VisualUi,
}

/// The default-policy safety class of a capability.
#[derive(Clone, Copy, Debug, Eq, PartialEq, Structural)]
pub enum OperationSafety {
    /// Observation that must not mutate application state.
    ReadOnly,
    /// Any operation that may change application or external state.
    Mutating,
}

/// A versioned capability contract with schemas on both sides of execution.
#[derive(Clone, Debug, PartialEq)]
pub struct CapabilitySpec {
    /// Stable capability identity.
    pub id: CapabilityId,
    /// Semantic version of this capability contract.
    pub version: Version,
    /// Short human-readable label.
    pub title: String,
    /// Bounded explanatory text for discovery clients.
    pub description: String,
    /// JSON Schema for invocation input.
    pub input_schema: JsonValue,
    /// JSON Schema for successful output.
    pub output_schema: JsonValue,
    /// Safety class evaluated by runtime policy.
    pub safety: OperationSafety,
}

/// Stable identity and provenance claims for one provider implementation.
#[derive(Clone, Debug, Eq, PartialEq)]
pub struct ProviderDescriptor {
    /// Stable provider identity.
    pub id: ProviderId,
    /// Semantic version of the provider implementation.
    pub version: Version,
    /// Human-readable name.
    pub name: String,
    /// Human-readable provider description.
    pub description: String,
}

/// One capability as implemented by a provider through one or more interactions.
#[derive(Clone, Debug, PartialEq)]
pub struct ProviderCapability {
    /// Versioned capability contract.
    pub spec: CapabilitySpec,
    /// Non-empty supported interaction kinds; runtimes validate this claim.
    pub interactions: Vec<InteractionKind>,
}

/// A concrete, serializable candidate produced by discovery.
#[derive(Clone, Debug, PartialEq)]
pub struct CapabilityOffer {
    /// Provider that owns execution and target integrity.
    pub provider: ProviderDescriptor,
    /// Selected capability contract.
    pub capability: CapabilitySpec,
    /// One supported interaction kind for deterministic ranking.
    pub interaction: InteractionKind,
}

/// Filters for transport-neutral capability discovery.
#[derive(Clone, Debug, Default, Eq, PartialEq)]
pub struct CapabilityQuery {
    /// Optional exact capability identity.
    pub capability_id: Option<CapabilityId>,
    /// Optional accepted capability contract versions.
    pub version_requirement: Option<semver::VersionReq>,
    /// Optional exact provider identity.
    pub provider_id: Option<ProviderId>,
    /// Optional required interaction kind.
    pub interaction: Option<InteractionKind>,
}

/// The immutable request handed to the selected provider.
#[derive(Clone, Debug)]
pub struct ProviderInvocation {
    /// The caller's request as submitted.
    pub request: InvocationRequest,
    /// Capability/provider/interaction pinned by the runtime.
    pub offer: CapabilityOffer,
}

/// `tokio_util`'s cancellation token; its cancelled flag is shared by all clones.
#[verifier::external_type_specification]
#[verifier::external_body]
pub struct ExCancellationToken(tokio_util::sync::CancellationToken);

/// Calls `CancellationToken::new`, which makes a token that is not cancelled.
/// Nothing is claimed of the token: its state is shared and may change at any time.
#[verifier::external_body]
fn new_token() -> tokio_util::sync::CancellationToken {
    tokio_util::sync::CancellationToken::new()
}

/// Calls `CancellationToken::cancel`, which sets the shared cancelled flag.
#[verifier::external_body]
fn cancel_token(token: &tokio_util::sync::CancellationToken) {
    token.cancel()
}

/// Calls `CancellationToken::is_cancelled`. Nothing is claimed of the answer:
/// any clone of the token, on any thread, may cancel it.
#[verifier::external_body]
fn token_is_cancelled(token: &tokio_util::sync::CancellationToken) -> bool {
    token.is_cancelled()
}

/// Calls `CancellationToken::clone`. The contract claims that the copy equals
/// `token`: it holds the same shared node, which tokio-util's own equality on
/// tokens compares, so cancelling either cancels both.
#[verifier::external_body]
fn clone_token(token: &tokio_util::sync::CancellationToken) -> (r: tokio_util::sync::CancellationToken)
    ensures
        r == *token,
{
    token.clone()
}

/// Cloneable cooperative cancellation shared across the provider boundary.
#[derive(Debug)]
pub struct CancellationSignal(tokio_util::sync::CancellationToken);

impl CancellationSignal {
    /// The token whose cancelled flag this signal shares.
    pub closed spec fn shared_token(&self) -> tokio_util::sync::CancellationToken {
        self.0
    }

    /// Creates an uncancelled signal.
    pub fn new() -> Self {
        CancellationSignal(new_token())
    }

    /// Requests cancellation. Repeated calls are idempotent.
    pub fn cancel(&self) {
        cancel_token(&self.0)
    }

    /// Returns whether cancellation has been requested.
    pub fn is_cancelled(&self) -> bool {
        token_is_cancelled(&self.0)
    }

    /// The underlying token, for waiting on cancellation.
    pub fn token(&self) -> (r: &tokio_util::sync::CancellationToken)
        ensures
            *r == self.shared_token(),
    {
        &self.0
    }
}

impl Clone for CancellationSignal {
    /// The copy shares this signal's token, so cancelling either cancels both.
    fn clone(&self) -> (r: Self)
        ensures
            r.shared_token() == self.shared_token(),
    {
        CancellationSignal(clone_token(&self.0))
    }
}

impl Default for CancellationSignal {
    fn default() -> Self {
        CancellationSignal::new()
    }
}

} // verus!
