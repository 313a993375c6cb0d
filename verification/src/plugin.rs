//! Declarative contracts for Cordis-style Software Use plugins.
//!
//! A plugin is a semantic and lifecycle unit: it declares services, events,
//! capabilities, and permission requests that a runtime can admit and compose.
//! It is not a Rust dynamic-library ABI. Version `0.1` supports statically
//! linked factories and bounded isolated-process protocols; package catalogs
//! and runtimes own entrypoint resolution, trust decisions, grants, activation,
//! rollback, and disposal.
use vstd::prelude::*;

use crate::constraints::PermissionConstraints;
use crate::execution::PluginExecution;
use crate::id::{CapabilityId, EventId, PermissionId, PluginId, ServiceId};
use crate::text::MetadataText;
use crate::version::Version;

verus! {

/// The plugin manifest schema version supported by this SDK release.
pub const PLUGIN_MANIFEST_VERSION: u32 = 1;

/// Maximum entries accepted in any one plugin declaration collection.
pub const MAX_PLUGIN_DECLARATIONS_PER_COLLECTION: usize = 128;

/// Maximum entries accepted across all plugin declaration collections.
pub const MAX_PLUGIN_DECLARATIONS: usize = 512;

/// A declaration that names one stable identity within its collection.
pub trait Declaration {
    /// The identity text this declaration names.
    spec fn declared_id(&self) -> Seq<char>;

    /// Whether `self` and `other` name the same identity.
    fn same_declared_id(&self, other: &Self) -> (r: bool)
        ensures
            r == (self.declared_id() == other.declared_id()),
    ;

    /// A copy of the identity text.
    fn declared_id_string(&self) -> (r: String)
        ensures
            r@ == self.declared_id(),
    ;
}

/// One versioned service made available by a plugin while it is active.
#[derive(Clone, Debug, Eq, PartialEq)]
pub struct ServiceProvision {
    /// Stable service identity.
    pub service_id: ServiceId,
    /// Exact implementation contract version.
    pub version: Version,
}

/// One service dependency declared by a plugin.
#[derive(Clone, Debug, Eq, PartialEq)]
pub struct ServiceRequirement {
    /// Stable service identity.
    pub service_id: ServiceId,
    /// Service contract versions accepted by the consumer.
    pub version_requirement: semver::VersionReq,
}

/// Dispatch semantics shared by publishers and subscribers of a typed event.
#[derive(Clone, Copy, Debug, Eq, PartialEq, Structural)]
pub enum EventMode {
    /// Notify matching listeners without transforming the event payload.
    Emit,
    /// Run all matching listeners concurrently.
    Parallel,
    /// Run matching listeners in deterministic sequence.
    Serial,
    /// Run listeners until one returns a terminal result.
    Bail,
    /// Pass each listener's output to the next listener.
    Waterfall,
}

/// One exact typed event contract published or consumed by a plugin.
#[derive(Clone, Debug, Eq, PartialEq)]
pub struct EventContract {
    /// Stable event identity.
    pub event_id: EventId,
    /// Exact event payload contract version.
    pub version: Version,
    /// Required dispatch semantics.
    pub mode: EventMode,
}

/// A plugin's exact implementation of one capability contract.
#[derive(Clone, Debug, Eq, PartialEq)]
pub struct CapabilityContractRef {
    /// Stable capability identity.
    pub capability_id: CapabilityId,
    /// Exact capability contract version.
    pub version: Version,
}

/// A capability contract dependency declared by a plugin.
#[derive(Clone, Debug, Eq, PartialEq)]
pub struct CapabilityRequirement {
    /// Stable capability identity.
    pub capability_id: CapabilityId,
    /// Capability contract versions accepted by the consumer.
    pub version_requirement: semver::VersionReq,
}

/// A declared request for authority that a host may independently grant.
#[derive(Clone, Debug, Eq, PartialEq)]
pub struct PermissionRequest {
    /// Stable permission identity understood by the admitting host.
    pub permission_id: PermissionId,
    /// Whether activation must fail when the permission is not granted.
    pub required: bool,
    /// Human-readable justification for audit and approval surfaces.
    pub reason: MetadataText,
    /// Bounded restrictions requested by the plugin.
    pub constraints: PermissionConstraints,
}

/// Declaration collections identified by manifest validation errors.
#[derive(Clone, Copy, Debug, Eq, PartialEq, Structural)]
pub enum PluginManifestCollection {
    /// `provides_services`.
    ProvidesServices,
    /// `requires_services`.
    RequiresServices,
    /// `optional_services`.
    OptionalServices,
    /// `publishes_events`.
    PublishesEvents,
    /// `subscribes_events`.
    SubscribesEvents,
    /// `permissions`.
    Permissions,
    /// `provided_capabilities`.
    ProvidedCapabilities,
    /// `required_capabilities`.
    RequiredCapabilities,
}

impl PluginManifestCollection {
    /// The manifest field name of this collection.
    pub fn name(&self) -> (r: &'static str)
        ensures
            r@ == match *self {
                PluginManifestCollection::ProvidesServices => "provides_services"@,
                PluginManifestCollection::RequiresServices => "requires_services"@,
                PluginManifestCollection::OptionalServices => "optional_services"@,
                PluginManifestCollection::PublishesEvents => "publishes_events"@,
                PluginManifestCollection::SubscribesEvents => "subscribes_events"@,
                PluginManifestCollection::Permissions => "permissions"@,
                PluginManifestCollection::ProvidedCapabilities => "provided_capabilities"@,
                PluginManifestCollection::RequiredCapabilities => "required_capabilities"@,
            },
    {
        match self {
            PluginManifestCollection::ProvidesServices => "provides_services",
            PluginManifestCollection::RequiresServices => "requires_services",
            PluginManifestCollection::OptionalServices => "optional_services",
            PluginManifestCollection::PublishesEvents => "publishes_events",
            PluginManifestCollection::SubscribesEvents => "subscribes_events",
            PluginManifestCollection::Permissions => "permissions",
            PluginManifestCollection::ProvidedCapabilities => "provided_capabilities",
            PluginManifestCollection::RequiredCapabilities => "required_capabilities",
        }
    }
}

/// Why a plugin manifest was rejected before runtime admission.
#[derive(Clone, Debug, Eq, PartialEq)]
pub enum PluginManifestValidationError {
    /// The manifest schema version is not supported by this SDK.
    UnsupportedManifestVersion {
        /// Version supplied by the manifest.
        found: u32,
    },
    /// One declaration collection exceeded its independent limit.
    TooManyDeclarations {
        /// Collection that exceeded the limit.
        collection: PluginManifestCollection,
        /// Supported maximum.
        maximum: usize,
    },
    /// The sum of all declarations exceeded the manifest limit.
    TooManyTotalDeclarations {
        /// Supported maximum.
        maximum: usize,
    },
    /// One collection declared the same stable identity more than once.
    DuplicateDeclaration {
        /// Collection containing the duplicate.
        collection: PluginManifestCollection,
        /// Repeated bounded identifier.
        identifier: String,
    },
    /// One service was declared as both required and optional.
    RequiredOptionalServiceOverlap {
        /// Conflicting service identity.
        service_id: ServiceId,
    },
    /// One event was published and subscribed with different versions.
    EventVersionConflict {
        /// Conflicting event identity.
        event_id: EventId,
        /// Published version.
        published: Version,
        /// Subscribed version.
        subscribed: Version,
    },
    /// One event was published and subscribed with different dispatch modes.
    EventModeConflict {
        /// Conflicting event identity.
        event_id: EventId,
        /// Published mode.
        published: EventMode,
        /// Subscribed mode.
        subscribed: EventMode,
    },
}

/// The content of a [`PluginManifestValidationError`]: identities as texts and
/// versions by their views.
pub enum ManifestViolation {
    UnsupportedManifestVersion { found: u32 },
    TooManyDeclarations { collection: PluginManifestCollection, maximum: usize },
    TooManyTotalDeclarations { maximum: usize },
    DuplicateDeclaration { collection: PluginManifestCollection, identifier: Seq<char> },
    RequiredOptionalServiceOverlap { service_id: Seq<char> },
    EventVersionConflict {
        event_id: Seq<char>,
        published: (u64, u64, u64, Seq<char>, Seq<char>),
        subscribed: (u64, u64, u64, Seq<char>, Seq<char>),
    },
    EventModeConflict { event_id: Seq<char>, published: EventMode, subscribed: EventMode },
}

impl View for PluginManifestValidationError {
    type V = ManifestViolation;

    open spec fn view(&self) -> ManifestViolation {
        match *self {
            PluginManifestValidationError::UnsupportedManifestVersion { found } => {
                ManifestViolation::UnsupportedManifestVersion { found }
            },
            PluginManifestValidationError::TooManyDeclarations { collection, maximum } => {
                ManifestViolation::TooManyDeclarations { collection, maximum }
            },
            PluginManifestValidationError::TooManyTotalDeclarations { maximum } => {
                ManifestViolation::TooManyTotalDeclarations { maximum }
            },
            PluginManifestValidationError::DuplicateDeclaration { collection, identifier } => {
                ManifestViolation::DuplicateDeclaration { collection, identifier: identifier@ }
            },
            PluginManifestValidationError::RequiredOptionalServiceOverlap { service_id } => {
                ManifestViolation::RequiredOptionalServiceOverlap { service_id: service_id@ }
            },
            PluginManifestValidationError::EventVersionConflict {
                event_id,
                published,
                subscribed,
            } => ManifestViolation::EventVersionConflict {
                event_id: event_id@,
                published: published@,
                subscribed: subscribed@,
            },
            PluginManifestValidationError::EventModeConflict { event_id, published, subscribed } => {
                ManifestViolation::EventModeConflict { event_id: event_id@, published, subscribed }
            },
        }
    }
}

impl Declaration for ServiceProvision {
    open spec fn declared_id(&self) -> Seq<char> {
        self.service_id@
    }

    fn same_declared_id(&self, other: &Self) -> (r: bool) {
        self.service_id == other.service_id
    }

    fn declared_id_string(&self) -> (r: String) {
        self.service_id.as_str().to_owned()
    }
}

impl Declaration for ServiceRequirement {
    open spec fn declared_id(&self) -> Seq<char> {
        self.service_id@
    }

    fn same_declared_id(&self, other: &Self) -> (r: bool) {
        self.service_id == other.service_id
    }

    fn declared_id_string(&self) -> (r: String) {
        self.service_id.as_str().to_owned()
    }
}

impl Declaration for EventContract {
    open spec fn declared_id(&self) -> Seq<char> {
        self.event_id@
    }

    fn same_declared_id(&self, other: &Self) -> (r: bool) {
        self.event_id == other.event_id
    }

    fn declared_id_string(&self) -> (r: String) {
        self.event_id.as_str().to_owned()
    }
}

impl Declaration for PermissionRequest {
    open spec fn declared_id(&self) -> Seq<char> {
        self.permission_id@
    }

    fn same_declared_id(&self, other: &Self) -> (r: bool) {
        self.permission_id == other.permission_id
    }

    fn declared_id_string(&self) -> (r: String) {
        self.permission_id.as_str().to_owned()
    }
}

impl Declaration for CapabilityContractRef {
    open spec fn declared_id(&self) -> Seq<char> {
        self.capability_id@
    }

    fn same_declared_id(&self, other: &Self) -> (r: bool) {
        self.capability_id == other.capability_id
    }

    fn declared_id_string(&self) -> (r: String) {
        self.capability_id.as_str().to_owned()
    }
}

impl Declaration for CapabilityRequirement {
    open spec fn declared_id(&self) -> Seq<char> {
        self.capability_id@
    }

    fn same_declared_id(&self, other: &Self) -> (r: bool) {
        self.capability_id == other.capability_id
    }

    fn declared_id_string(&self) -> (r: String) {
        self.capability_id.as_str().to_owned()
    }
}

/// A declaration collection being decoded, which never holds more than
/// [`MAX_PLUGIN_DECLARATIONS_PER_COLLECTION`] declarations.
pub struct BoundedDeclarations<T>(Vec<T>);

impl<T> View for BoundedDeclarations<T> {
    type V = Seq<T>;

    closed spec fn view(&self) -> Seq<T> {
        self.0@
    }
}

impl<T> BoundedDeclarations<T> {
    #[verifier::type_invariant]
    spec fn bounded(self) -> bool {
        self.0.len() <= MAX_PLUGIN_DECLARATIONS_PER_COLLECTION
    }

    /// An empty collection.
    pub fn new() -> (r: Self)
        ensures
            r@ == Seq::<T>::empty(),
    {
        BoundedDeclarations(Vec::new())
    }

    /// Appends `value` unless the collection is full; a decoder stops with an
    /// error when this returns `false`.
    pub fn push(&mut self, value: T) -> (accepted: bool)
        ensures
            accepted == (old(self)@.len() < MAX_PLUGIN_DECLARATIONS_PER_COLLECTION),
            accepted ==> final(self)@ == old(self)@.push(value),
            !accepted ==> final(self)@ == old(self)@,
    {
        proof {
            use_type_invariant(&*self);
        }
        if self.0.len() == MAX_PLUGIN_DECLARATIONS_PER_COLLECTION {
            return false;
        }
        let mut items: Vec<T> = Vec::new();
        std::mem::swap(&mut items, &mut self.0);
        items.push(value);
        self.0 = items;
        true
    }

    /// The decoded declarations.
    pub fn into_vec(self) -> (r: Vec<T>)
        ensures
            r@ == self@,
            r@.len() <= MAX_PLUGIN_DECLARATIONS_PER_COLLECTION,
    {
        proof {
            use_type_invariant(&self);
        }
        self.0
    }
}

/// The identity texts of `values`, in order.
pub open spec fn declared_ids<T: Declaration>(values: Seq<T>) -> Seq<Seq<char>> {
    values.map_values(|value: T| value.declared_id())
}

/// `ids[j]` already occurs among `ids[0..j]`.
pub open spec fn repeats_earlier(ids: Seq<Seq<char>>, j: int) -> bool {
    exists|i: int| 0 <= i < j && ids[i] == ids[j]
}

/// The first position at or after `j` whose identity already occurred earlier.
pub open spec fn first_repeat_from(ids: Seq<Seq<char>>, j: int) -> Option<int>
    decreases ids.len() - j,
{
    if j < 0 || j >= ids.len() {
        None
    } else if repeats_earlier(ids, j) {
        Some(j)
    } else {
        first_repeat_from(ids, j + 1)
    }
}

/// The violation, if any, of identity uniqueness within one collection: the
/// first identity that repeats an earlier one.
pub open spec fn duplicate_violation(
    collection: PluginManifestCollection,
    ids: Seq<Seq<char>>,
) -> Option<ManifestViolation> {
    match first_repeat_from(ids, 0) {
        Some(j) => Some(ManifestViolation::DuplicateDeclaration { collection, identifier: ids[j] }),
        None => None,
    }
}

/// Rejects the first declaration of `values` whose identity repeats an earlier one.
/// Identities are compared pairwise: vstd specifies `BTreeSet` only for keys
/// whose ordering obeys its comparison laws, which it does not establish for
/// text, so a set of seen identities would leave the verdict unproved.
fn reject_duplicates<T: Declaration>(
    collection: PluginManifestCollection,
    values: &Vec<T>,
) -> (r: Result<(), PluginManifestValidationError>)
    ensures
        match r {
            Ok(()) => duplicate_violation(collection, declared_ids(values@)) is None,
            Err(e) => duplicate_violation(collection, declared_ids(values@)) == Some(e@),
        },
{
    let ghost ids = declared_ids(values@);
    for j in 0..values.len()
        invariant
            ids == declared_ids(values@),
            first_repeat_from(ids, 0) == first_repeat_from(ids, j as int),
    {
        for i in 0..j
            invariant
                ids == declared_ids(values@),
                0 <= j < values@.len(),
                forall|k: int| 0 <= k < i ==> ids[k] != ids[j as int],
                first_repeat_from(ids, 0) == first_repeat_from(ids, j as int),
        {
            if values[i].same_declared_id(&values[j]) {
                assert(ids[i as int] == ids[j as int]);
                assert(repeats_earlier(ids, j as int));
                return Err(
                    PluginManifestValidationError::DuplicateDeclaration {
                        collection,
                        identifier: values[j].declared_id_string(),
                    },
                );
            }
        }
        assert(!repeats_earlier(ids, j as int));
    }
    Ok(())
}

/// A complete, transport-neutral declaration of one plugin generation.
///
/// Programmatic construction must call [`PluginManifest::validate`] before
/// admission; decoders call it before handing a manifest on.
#[derive(Clone, Debug, Eq, PartialEq)]
pub struct PluginManifest {
    /// Manifest schema version; currently [`PLUGIN_MANIFEST_VERSION`].
    pub manifest_version: u32,
    /// Stable plugin identity.
    pub plugin_id: PluginId,
    /// Exact plugin implementation version.
    pub version: Version,
    /// Runtime versions this plugin supports.
    pub runtime_requirement: semver::VersionReq,
    /// Implementation isolation model.
    pub execution: PluginExecution,
    /// Services visible only while this plugin generation is active.
    pub provides_services: Vec<ServiceProvision>,
    /// Dependencies that must be present before activation.
    pub requires_services: Vec<ServiceRequirement>,
    /// Dependencies whose absence must not prevent activation.
    pub optional_services: Vec<ServiceRequirement>,
    /// Typed events this plugin may publish.
    pub publishes_events: Vec<EventContract>,
    /// Typed events this plugin may subscribe to.
    pub subscribes_events: Vec<EventContract>,
    /// Requests evaluated by host admission policy; they are not grants.
    pub permissions: Vec<PermissionRequest>,
    /// Exact capability contracts contributed by this plugin.
    pub provided_capabilities: Vec<CapabilityContractRef>,
    /// Capability contracts this plugin consumes.
    pub required_capabilities: Vec<CapabilityRequirement>,
}

/// `first` when it holds a violation, otherwise `second`.
pub open spec fn or_else(
    first: Option<ManifestViolation>,
    second: Option<ManifestViolation>,
) -> Option<ManifestViolation> {
    if first is Some {
        first
    } else {
        second
    }
}

/// The size of each declaration collection of `m`, in manifest order.
pub open spec fn declaration_counts(m: PluginManifest) -> Seq<(PluginManifestCollection, int)> {
    seq![
        (PluginManifestCollection::ProvidesServices, m.provides_services@.len() as int),
        (PluginManifestCollection::RequiresServices, m.requires_services@.len() as int),
        (PluginManifestCollection::OptionalServices, m.optional_services@.len() as int),
        (PluginManifestCollection::PublishesEvents, m.publishes_events@.len() as int),
        (PluginManifestCollection::SubscribesEvents, m.subscribes_events@.len() as int),
        (PluginManifestCollection::Permissions, m.permissions@.len() as int),
        (PluginManifestCollection::ProvidedCapabilities, m.provided_capabilities@.len() as int),
        (PluginManifestCollection::RequiredCapabilities, m.required_capabilities@.len() as int),
    ]
}

/// The number of declarations in all collections of `m`.
pub open spec fn total_declarations(m: PluginManifest) -> int {
    (m.provides_services@.len() + m.requires_services@.len() + m.optional_services@.len()
        + m.publishes_events@.len() + m.subscribes_events@.len() + m.permissions@.len()
        + m.provided_capabilities@.len() + m.required_capabilities@.len()) as int
}

/// The first collection at or after position `i` of `counts` that holds more
/// than [`MAX_PLUGIN_DECLARATIONS_PER_COLLECTION`] declarations.
pub open spec fn first_oversized_from(counts: Seq<(PluginManifestCollection, int)>, i: int) -> Option<
    int,
>
    decreases counts.len() - i,
{
    if i < 0 || i >= counts.len() {
        None
    } else if counts[i].1 > MAX_PLUGIN_DECLARATIONS_PER_COLLECTION {
        Some(i)
    } else {
        first_oversized_from(counts, i + 1)
    }
}

/// The violation, if any, of the declaration bounds: first the per-collection
/// limit, in manifest order, then the limit on all declarations together.
pub open spec fn bounds_violation(m: PluginManifest) -> Option<ManifestViolation> {
    let counts = declaration_counts(m);
    match first_oversized_from(counts, 0) {
        Some(i) => Some(
            ManifestViolation::TooManyDeclarations {
                collection: counts[i].0,
                maximum: MAX_PLUGIN_DECLARATIONS_PER_COLLECTION,
            },
        ),
        None => if total_declarations(m) > MAX_PLUGIN_DECLARATIONS {
            Some(ManifestViolation::TooManyTotalDeclarations { maximum: MAX_PLUGIN_DECLARATIONS })
        } else {
            None
        },
    }
}

/// The violation, if any, of identity uniqueness, collection by collection in
/// manifest order.
pub open spec fn uniqueness_violation(m: PluginManifest) -> Option<ManifestViolation> {
    or_else(
        duplicate_violation(
            PluginManifestCollection::ProvidesServices,
            declared_ids(m.provides_services@),
        ),
        or_else(
            duplicate_violation(
                PluginManifestCollection::RequiresServices,
                declared_ids(m.requires_services@),
            ),
            or_else(
                duplicate_violation(
                    PluginManifestCollection::OptionalServices,
                    declared_ids(m.optional_services@),
                ),
                or_else(
                    duplicate_violation(
                        PluginManifestCollection::PublishesEvents,
                        declared_ids(m.publishes_events@),
                    ),
                    or_else(
                        duplicate_violation(
                            PluginManifestCollection::SubscribesEvents,
                            declared_ids(m.subscribes_events@),
                        ),
                        or_else(
                            duplicate_violation(
                                PluginManifestCollection::Permissions,
                                declared_ids(m.permissions@),
                            ),
                            or_else(
                                duplicate_violation(
                                    PluginManifestCollection::ProvidedCapabilities,
                                    declared_ids(m.provided_capabilities@),
                                ),
                                duplicate_violation(
                                    PluginManifestCollection::RequiredCapabilities,
                                    declared_ids(m.required_capabilities@),
                                ),
                            ),
                        ),
                    ),
                ),
            ),
        ),
    )
}

/// The first optional service at or after position `j` that is also required.
pub open spec fn first_overlap_from(required: Seq<Seq<char>>, optional: Seq<Seq<char>>, j: int) -> Option<
    int,
>
    decreases optional.len() - j,
{
    if j < 0 || j >= optional.len() {
        None
    } else if required.contains(optional[j]) {
        Some(j)
    } else {
        first_overlap_from(required, optional, j + 1)
    }
}

/// The violation, if any, of the rule that no service is both required and
/// optional: the first optional service, in order, that is also required.
pub open spec fn service_dependency_violation(m: PluginManifest) -> Option<ManifestViolation> {
    let optional = declared_ids(m.optional_services@);
    match first_overlap_from(declared_ids(m.requires_services@), optional, 0) {
        Some(j) => Some(ManifestViolation::RequiredOptionalServiceOverlap { service_id: optional[j] }),
        None => None,
    }
}

/// The first subscription at or after position `k` of `subscribed` for `event_id`.
pub open spec fn first_subscription_from(
    subscribed: Seq<EventContract>,
    event_id: Seq<char>,
    k: int,
) -> Option<int>
    decreases subscribed.len() - k,
{
    if k < 0 || k >= subscribed.len() {
        None
    } else if subscribed[k].event_id@ == event_id {
        Some(k)
    } else {
        first_subscription_from(subscribed, event_id, k + 1)
    }
}

/// The conflict, if any, between a published event and the first subscription
/// to the same event: a version mismatch first, then a mode mismatch.
pub open spec fn event_contract_violation(
    published: EventContract,
    subscribed: Seq<EventContract>,
) -> Option<ManifestViolation> {
    match first_subscription_from(subscribed, published.event_id@, 0) {
        None => None,
        Some(k) => if subscribed[k].version@ != published.version@ {
            Some(
                ManifestViolation::EventVersionConflict {
                    event_id: published.event_id@,
                    published: published.version@,
                    subscribed: subscribed[k].version@,
                },
            )
        } else if subscribed[k].mode != published.mode {
            Some(
                ManifestViolation::EventModeConflict {
                    event_id: published.event_id@,
                    published: published.mode,
                    subscribed: subscribed[k].mode,
                },
            )
        } else {
            None
        },
    }
}

/// The first event conflict among published events at or after position `j`.
pub open spec fn event_violation_from(
    published: Seq<EventContract>,
    subscribed: Seq<EventContract>,
    j: int,
) -> Option<ManifestViolation>
    decreases published.len() - j,
{
    if j < 0 || j >= published.len() {
        None
    } else {
        or_else(
            event_contract_violation(published[j], subscribed),
            event_violation_from(published, subscribed, j + 1),
        )
    }
}

/// The first violation of `m`, checked in this order: schema version,
/// declaration bounds, identity uniqueness, service dependencies, event
/// contracts.
pub open spec fn manifest_violation(m: PluginManifest) -> Option<ManifestViolation> {
    if m.manifest_version != PLUGIN_MANIFEST_VERSION {
        Some(ManifestViolation::UnsupportedManifestVersion { found: m.manifest_version })
    } else {
        or_else(
            bounds_violation(m),
            or_else(
                uniqueness_violation(m),
                or_else(
                    service_dependency_violation(m),
                    event_violation_from(m.publishes_events@, m.subscribes_events@, 0),
                ),
            ),
        )
    }
}

/// `r` reports exactly `violation`: success when there is none, otherwise
/// an error whose content is the violation.
pub open spec fn reports(
    r: Result<(), PluginManifestValidationError>,
    violation: Option<ManifestViolation>,
) -> bool {
    match r {
        Ok(()) => violation is None,
        Err(e) => violation == Some(e@),
    }
}

/// No identity occurs twice in `ids`.
pub open spec fn ids_distinct(ids: Seq<Seq<char>>) -> bool {
    forall|i: int, j: int| 0 <= i < j < ids.len() ==> ids[i] != ids[j]
}

/// Every publication and subscription of the same event agree on version and mode.
pub open spec fn events_agree(published: Seq<EventContract>, subscribed: Seq<EventContract>) -> bool {
    forall|p: int, s: int|
        0 <= p < published.len() && 0 <= s < subscribed.len() && #[trigger] published[p].event_id@
            == #[trigger] subscribed[s].event_id@ ==> published[p].version@ == subscribed[s].version@
            && published[p].mode == subscribed[s].mode
}

/// The rules a plugin manifest must follow: the supported schema version; at
/// most [`MAX_PLUGIN_DECLARATIONS_PER_COLLECTION`] declarations per collection
/// and [`MAX_PLUGIN_DECLARATIONS`] in all; no identity declared twice within a
/// collection; no service both required and optional; and every event that is
/// both published and subscribed declared with one version and one mode.
pub open spec fn manifest_is_valid(m: PluginManifest) -> bool {
    &&& m.manifest_version == PLUGIN_MANIFEST_VERSION
    &&& forall|k: int|
        0 <= k < 8 ==> (#[trigger] declaration_counts(m)[k]).1
            <= MAX_PLUGIN_DECLARATIONS_PER_COLLECTION
    &&& total_declarations(m) <= MAX_PLUGIN_DECLARATIONS
    &&& ids_distinct(declared_ids(m.provides_services@))
    &&& ids_distinct(declared_ids(m.requires_services@))
    &&& ids_distinct(declared_ids(m.optional_services@))
    &&& ids_distinct(declared_ids(m.publishes_events@))
    &&& ids_distinct(declared_ids(m.subscribes_events@))
    &&& ids_distinct(declared_ids(m.permissions@))
    &&& ids_distinct(declared_ids(m.provided_capabilities@))
    &&& ids_distinct(declared_ids(m.required_capabilities@))
    &&& forall|j: int|
        0 <= j < m.optional_services@.len() ==> !declared_ids(m.requires_services@).contains(
            #[trigger] declared_ids(m.optional_services@)[j],
        )
    &&& events_agree(m.publishes_events@, m.subscribes_events@)
}

/// No repeat is found from `j` on exactly when no identity from `j` on repeats an earlier one.
pub proof fn lemma_first_repeat(ids: Seq<Seq<char>>, j: int)
    requires
        0 <= j,
    ensures
        first_repeat_from(ids, j) is None <==> forall|k: int|
            j <= k < ids.len() ==> !#[trigger] repeats_earlier(ids, k),
    decreases ids.len() - j,
{
    if j < ids.len() {
        lemma_first_repeat(ids, j + 1);
    }
}

/// A collection has no repeat exactly when its identities are distinct.
pub proof fn lemma_no_duplicate(collection: PluginManifestCollection, ids: Seq<Seq<char>>)
    ensures
        duplicate_violation(collection, ids) is None <==> ids_distinct(ids),
{
    lemma_first_repeat(ids, 0);
    if ids_distinct(ids) {
        assert forall|k: int| 0 <= k < ids.len() implies !#[trigger] repeats_earlier(ids, k) by {
            if repeats_earlier(ids, k) {
                let i = choose|i: int| 0 <= i < k && ids[i] == ids[k];
                assert(ids[i] != ids[k]);
            }
        }
    }
    if first_repeat_from(ids, 0) is None {
        assert forall|i: int, j: int| 0 <= i < j < ids.len() implies ids[i] != ids[j] by {
            assert(!repeats_earlier(ids, j));
        }
    }
}

/// No oversized collection is found from `i` on exactly when none from `i` on is oversized.
pub proof fn lemma_first_oversized(counts: Seq<(PluginManifestCollection, int)>, i: int)
    requires
        0 <= i,
    ensures
        first_oversized_from(counts, i) is None <==> forall|k: int|
            i <= k < counts.len() ==> (#[trigger] counts[k]).1
                <= MAX_PLUGIN_DECLARATIONS_PER_COLLECTION,
    decreases counts.len() - i,
{
    if i < counts.len() {
        lemma_first_oversized(counts, i + 1);
    }
}

/// No overlap is found from `j` on exactly when no optional service from `j` on is required.
pub proof fn lemma_first_overlap(required: Seq<Seq<char>>, optional: Seq<Seq<char>>, j: int)
    requires
        0 <= j,
    ensures
        first_overlap_from(required, optional, j) is None <==> forall|k: int|
            j <= k < optional.len() ==> !required.contains(#[trigger] optional[k]),
    decreases optional.len() - j,
{
    if j < optional.len() {
        lemma_first_overlap(required, optional, j + 1);
    }
}

/// The subscription found from `k` on is the first one for `event_id`.
pub proof fn lemma_first_subscription(subscribed: Seq<EventContract>, event_id: Seq<char>, k: int)
    requires
        0 <= k,
    ensures
        match first_subscription_from(subscribed, event_id, k) {
            Some(x) => k <= x < subscribed.len() && subscribed[x].event_id@ == event_id,
            None => forall|y: int|
                k <= y < subscribed.len() ==> (#[trigger] subscribed[y]).event_id@ != event_id,
        },
    decreases subscribed.len() - k,
{
    if k < subscribed.len() {
        lemma_first_subscription(subscribed, event_id, k + 1);
    }
}

/// With distinct subscriptions, no event conflict is found from `j` on exactly
/// when every publication from `j` on agrees with every subscription to its event.
pub proof fn lemma_event_violation(
    published: Seq<EventContract>,
    subscribed: Seq<EventContract>,
    j: int,
)
    requires
        0 <= j,
        ids_distinct(declared_ids(subscribed)),
    ensures
        event_violation_from(published, subscribed, j) is None <==> forall|p: int, s: int|
            j <= p < published.len() && 0 <= s < subscribed.len() && #[trigger] published[p].event_id@
                == #[trigger] subscribed[s].event_id@ ==> published[p].version@
                == subscribed[s].version@ && published[p].mode == subscribed[s].mode,
    decreases published.len() - j,
{
    if j < published.len() {
        lemma_event_violation(published, subscribed, j + 1);
        let publication = published[j];
        lemma_first_subscription(subscribed, publication.event_id@, 0);
        if let Some(x) = first_subscription_from(subscribed, publication.event_id@, 0) {
            assert forall|s: int|
                0 <= s < subscribed.len() && publication.event_id@ == #[trigger] subscribed[s].event_id@
                implies s == x by {
                if s != x {
                    assert(declared_ids(subscribed)[s] == subscribed[s].event_id@);
                    assert(declared_ids(subscribed)[x] == subscribed[x].event_id@);
                }
            }
        }
    }
}

/// Each declaration collection is held to its own limit: a manifest passes
/// only when every one of its eight collections has at most
/// [`MAX_PLUGIN_DECLARATIONS_PER_COLLECTION`] declarations and all of them
/// together at most [`MAX_PLUGIN_DECLARATIONS`]; with a supported schema
/// version, the first oversized collection in manifest order is the one
/// reported.
pub proof fn law_each_collection_is_bounded(m: PluginManifest)
    ensures
        manifest_violation(m) is None ==> m.provides_services@.len() <= MAX_PLUGIN_DECLARATIONS_PER_COLLECTION && m.requires_services@.len() <= MAX_PLUGIN_DECLARATIONS_PER_COLLECTION && m.optional_services@.len() <= MAX_PLUGIN_DECLARATIONS_PER_COLLECTION && m.publishes_events@.len() <= MAX_PLUGIN_DECLARATIONS_PER_COLLECTION && m.subscribes_events@.len() <= MAX_PLUGIN_DECLARATIONS_PER_COLLECTION && m.permissions@.len() <= MAX_PLUGIN_DECLARATIONS_PER_COLLECTION && m.provided_capabilities@.len() <= MAX_PLUGIN_DECLARATIONS_PER_COLLECTION && m.required_capabilities@.len() <= MAX_PLUGIN_DECLARATIONS_PER_COLLECTION,
        manifest_violation(m) is None ==> m.provides_services@.len() + m.requires_services@.len()
            + m.optional_services@.len() + m.publishes_events@.len() + m.subscribes_events@.len()
            + m.permissions@.len() + m.provided_capabilities@.len() + m.required_capabilities@.len()
            <= MAX_PLUGIN_DECLARATIONS,
        m.manifest_version == PLUGIN_MANIFEST_VERSION && m.provides_services@.len() > MAX_PLUGIN_DECLARATIONS_PER_COLLECTION ==> manifest_violation(m) == Some(
            ManifestViolation::TooManyDeclarations {
                collection: PluginManifestCollection::ProvidesServices,
                maximum: MAX_PLUGIN_DECLARATIONS_PER_COLLECTION,
            },
        ),
        m.manifest_version == PLUGIN_MANIFEST_VERSION && m.provides_services@.len() <= MAX_PLUGIN_DECLARATIONS_PER_COLLECTION && m.requires_services@.len() > MAX_PLUGIN_DECLARATIONS_PER_COLLECTION ==> manifest_violation(m) == Some(
            ManifestViolation::TooManyDeclarations {
                collection: PluginManifestCollection::RequiresServices,
                maximum: MAX_PLUGIN_DECLARATIONS_PER_COLLECTION,
            },
        ),
        m.manifest_version == PLUGIN_MANIFEST_VERSION && m.provides_services@.len() <= MAX_PLUGIN_DECLARATIONS_PER_COLLECTION && m.requires_services@.len() <= MAX_PLUGIN_DECLARATIONS_PER_COLLECTION && m.optional_services@.len() > MAX_PLUGIN_DECLARATIONS_PER_COLLECTION ==> manifest_violation(m) == Some(
            ManifestViolation::TooManyDeclarations {
                collection: PluginManifestCollection::OptionalServices,
                maximum: MAX_PLUGIN_DECLARATIONS_PER_COLLECTION,
            },
        ),
        m.manifest_version == PLUGIN_MANIFEST_VERSION && m.provides_services@.len() <= MAX_PLUGIN_DECLARATIONS_PER_COLLECTION && m.requires_services@.len() <= MAX_PLUGIN_DECLARATIONS_PER_COLLECTION && m.optional_services@.len() <= MAX_PLUGIN_DECLARATIONS_PER_COLLECTION && m.publishes_events@.len() > MAX_PLUGIN_DECLARATIONS_PER_COLLECTION ==> manifest_violation(m) == Some(
            ManifestViolation::TooManyDeclarations {
                collection: PluginManifestCollection::PublishesEvents,
                maximum: MAX_PLUGIN_DECLARATIONS_PER_COLLECTION,
            },
        ),
        m.manifest_version == PLUGIN_MANIFEST_VERSION && m.provides_services@.len() <= MAX_PLUGIN_DECLARATIONS_PER_COLLECTION && m.requires_services@.len() <= MAX_PLUGIN_DECLARATIONS_PER_COLLECTION && m.optional_services@.len() <= MAX_PLUGIN_DECLARATIONS_PER_COLLECTION && m.publishes_events@.len() <= MAX_PLUGIN_DECLARATIONS_PER_COLLECTION && m.subscribes_events@.len() > MAX_PLUGIN_DECLARATIONS_PER_COLLECTION ==> manifest_violation(m) == Some(
            ManifestViolation::TooManyDeclarations {
                collection: PluginManifestCollection::SubscribesEvents,
                maximum: MAX_PLUGIN_DECLARATIONS_PER_COLLECTION,
            },
        ),
        m.manifest_version == PLUGIN_MANIFEST_VERSION && m.provides_services@.len() <= MAX_PLUGIN_DECLARATIONS_PER_COLLECTION && m.requires_services@.len() <= MAX_PLUGIN_DECLARATIONS_PER_COLLECTION && m.optional_services@.len() <= MAX_PLUGIN_DECLARATIONS_PER_COLLECTION && m.publishes_events@.len() <= MAX_PLUGIN_DECLARATIONS_PER_COLLECTION && m.subscribes_events@.len() <= MAX_PLUGIN_DECLARATIONS_PER_COLLECTION && m.permissions@.len() > MAX_PLUGIN_DECLARATIONS_PER_COLLECTION ==> manifest_violation(m) == Some(
            ManifestViolation::TooManyDeclarations {
                collection: PluginManifestCollection::Permissions,
                maximum: MAX_PLUGIN_DECLARATIONS_PER_COLLECTION,
            },
        ),
        m.manifest_version == PLUGIN_MANIFEST_VERSION && m.provides_services@.len() <= MAX_PLUGIN_DECLARATIONS_PER_COLLECTION && m.requires_services@.len() <= MAX_PLUGIN_DECLARATIONS_PER_COLLECTION && m.optional_services@.len() <= MAX_PLUGIN_DECLARATIONS_PER_COLLECTION && m.publishes_events@.len() <= MAX_PLUGIN_DECLARATIONS_PER_COLLECTION && m.subscribes_events@.len() <= MAX_PLUGIN_DECLARATIONS_PER_COLLECTION && m.permissions@.len() <= MAX_PLUGIN_DECLARATIONS_PER_COLLECTION && m.provided_capabilities@.len() > MAX_PLUGIN_DECLARATIONS_PER_COLLECTION ==> manifest_violation(m) == Some(
            ManifestViolation::TooManyDeclarations {
                collection: PluginManifestCollection::ProvidedCapabilities,
                maximum: MAX_PLUGIN_DECLARATIONS_PER_COLLECTION,
            },
        ),
        m.manifest_version == PLUGIN_MANIFEST_VERSION && m.provides_services@.len() <= MAX_PLUGIN_DECLARATIONS_PER_COLLECTION && m.requires_services@.len() <= MAX_PLUGIN_DECLARATIONS_PER_COLLECTION && m.optional_services@.len() <= MAX_PLUGIN_DECLARATIONS_PER_COLLECTION && m.publishes_events@.len() <= MAX_PLUGIN_DECLARATIONS_PER_COLLECTION && m.subscribes_events@.len() <= MAX_PLUGIN_DECLARATIONS_PER_COLLECTION && m.permissions@.len() <= MAX_PLUGIN_DECLARATIONS_PER_COLLECTION && m.provided_capabilities@.len() <= MAX_PLUGIN_DECLARATIONS_PER_COLLECTION && m.required_capabilities@.len() > MAX_PLUGIN_DECLARATIONS_PER_COLLECTION ==> manifest_violation(m) == Some(
            ManifestViolation::TooManyDeclarations {
                collection: PluginManifestCollection::RequiredCapabilities,
                maximum: MAX_PLUGIN_DECLARATIONS_PER_COLLECTION,
            },
        ),
{
    let counts = declaration_counts(m);
    lemma_first_oversized(counts, 0);
    reveal_with_fuel(first_oversized_from, 9);
}

/// A manifest passes [`PluginManifest::validate`] exactly when it follows the
/// manifest rules; the order of the checks only decides which violation is
/// reported.
pub proof fn law_manifest_validation_is_exact(m: PluginManifest)
    ensures
        manifest_violation(m) is None <==> manifest_is_valid(m),
{
    let counts = declaration_counts(m);
    lemma_first_oversized(counts, 0);
    lemma_no_duplicate(PluginManifestCollection::ProvidesServices, declared_ids(m.provides_services@));
    lemma_no_duplicate(PluginManifestCollection::RequiresServices, declared_ids(m.requires_services@));
    lemma_no_duplicate(PluginManifestCollection::OptionalServices, declared_ids(m.optional_services@));
    lemma_no_duplicate(PluginManifestCollection::PublishesEvents, declared_ids(m.publishes_events@));
    lemma_no_duplicate(PluginManifestCollection::SubscribesEvents, declared_ids(m.subscribes_events@));
    lemma_no_duplicate(PluginManifestCollection::Permissions, declared_ids(m.permissions@));
    lemma_no_duplicate(
        PluginManifestCollection::ProvidedCapabilities,
        declared_ids(m.provided_capabilities@),
    );
    lemma_no_duplicate(
        PluginManifestCollection::RequiredCapabilities,
        declared_ids(m.required_capabilities@),
    );
    lemma_first_overlap(declared_ids(m.requires_services@), declared_ids(m.optional_services@), 0);
    if ids_distinct(declared_ids(m.subscribes_events@)) {
        lemma_event_violation(m.publishes_events@, m.subscribes_events@, 0);
    }
}

/// Uniqueness is judged on identities alone: two manifests whose collections
/// declare the same identities in the same order get the same uniqueness
/// verdict, whatever versions, modes, reasons or constraints they declare.
pub proof fn law_uniqueness_judges_identities_only(m1: PluginManifest, m2: PluginManifest)
    requires
        declared_ids(m1.provides_services@) == declared_ids(m2.provides_services@),
        declared_ids(m1.requires_services@) == declared_ids(m2.requires_services@),
        declared_ids(m1.optional_services@) == declared_ids(m2.optional_services@),
        declared_ids(m1.publishes_events@) == declared_ids(m2.publishes_events@),
        declared_ids(m1.subscribes_events@) == declared_ids(m2.subscribes_events@),
        declared_ids(m1.permissions@) == declared_ids(m2.permissions@),
        declared_ids(m1.provided_capabilities@) == declared_ids(m2.provided_capabilities@),
        declared_ids(m1.required_capabilities@) == declared_ids(m2.required_capabilities@),
    ensures
        uniqueness_violation(m1) == uniqueness_violation(m2),
{
}

/// With no event declared twice on either side, whether published and
/// subscribed events conflict does not depend on which side declares which:
/// swapping the two collections gives the same verdict.
pub proof fn law_event_agreement_is_symmetric(
    published: Seq<EventContract>,
    subscribed: Seq<EventContract>,
)
    requires
        ids_distinct(declared_ids(published)),
        ids_distinct(declared_ids(subscribed)),
    ensures
        (event_violation_from(published, subscribed, 0) is None) == (event_violation_from(
            subscribed,
            published,
            0,
        ) is None),
{
    lemma_event_violation(published, subscribed, 0);
    lemma_event_violation(subscribed, published, 0);
}

impl PluginManifest {
    /// Validates schema version, declaration bounds, identity uniqueness, and
    /// cross-collection dependency/event invariants, reporting the first
    /// violation in that order.
    pub fn validate(&self) -> (r: Result<(), PluginManifestValidationError>)
        ensures
            reports(r, manifest_violation(*self)),
    {
        if self.manifest_version != PLUGIN_MANIFEST_VERSION {
            return Err(
                PluginManifestValidationError::UnsupportedManifestVersion {
                    found: self.manifest_version,
                },
            );
        }
        self.validate_declaration_bounds()?;
        self.validate_unique_declarations()?;
        self.validate_service_dependencies()?;
        self.validate_event_contracts()
    }

    fn declaration_counts(&self) -> (r: [(PluginManifestCollection, usize); 8])
        ensures
            forall|i: int|
                0 <= i < 8 ==> (#[trigger] r@[i]).0 == declaration_counts(*self)[i].0 && r@[i].1
                    == declaration_counts(*self)[i].1,
    {
        [
            (PluginManifestCollection::ProvidesServices, self.provides_services.len()),
            (PluginManifestCollection::RequiresServices, self.requires_services.len()),
            (PluginManifestCollection::OptionalServices, self.optional_services.len()),
            (PluginManifestCollection::PublishesEvents, self.publishes_events.len()),
            (PluginManifestCollection::SubscribesEvents, self.subscribes_events.len()),
            (PluginManifestCollection::Permissions, self.permissions.len()),
            (PluginManifestCollection::ProvidedCapabilities, self.provided_capabilities.len()),
            (PluginManifestCollection::RequiredCapabilities, self.required_capabilities.len()),
        ]
    }

    pub fn validate_declaration_bounds(&self) -> (r: Result<(), PluginManifestValidationError>)
        ensures
            reports(r, bounds_violation(*self)),
    {
        let counts = self.declaration_counts();
        let ghost spec_counts = declaration_counts(*self);
        for i in 0..8
            invariant
                forall|k: int|
                    0 <= k < 8 ==> (#[trigger] counts@[k]).0 == spec_counts[k].0 && counts@[k].1
                        == spec_counts[k].1,
                spec_counts == declaration_counts(*self),
                first_oversized_from(spec_counts, 0) == first_oversized_from(spec_counts, i as int),
                forall|k: int| 0 <= k < i ==> spec_counts[k].1 <= MAX_PLUGIN_DECLARATIONS_PER_COLLECTION,
        {
            let (collection, count) = counts[i];
            if count > MAX_PLUGIN_DECLARATIONS_PER_COLLECTION {
                return Err(
                    PluginManifestValidationError::TooManyDeclarations {
                        collection,
                        maximum: MAX_PLUGIN_DECLARATIONS_PER_COLLECTION,
                    },
                );
            }
        }
        let total = self.provides_services.len() + self.requires_services.len()
            + self.optional_services.len() + self.publishes_events.len()
            + self.subscribes_events.len() + self.permissions.len()
            + self.provided_capabilities.len() + self.required_capabilities.len();
        if total > MAX_PLUGIN_DECLARATIONS {
            return Err(
                PluginManifestValidationError::TooManyTotalDeclarations {
                    maximum: MAX_PLUGIN_DECLARATIONS,
                },
            );
        }
        Ok(())
    }

    pub fn validate_unique_declarations(&self) -> (r: Result<(), PluginManifestValidationError>)
        ensures
            reports(r, uniqueness_violation(*self)),
    {
        reject_duplicates(PluginManifestCollection::ProvidesServices, &self.provides_services)?;
        reject_duplicates(PluginManifestCollection::RequiresServices, &self.requires_services)?;
        reject_duplicates(PluginManifestCollection::OptionalServices, &self.optional_services)?;
        reject_duplicates(PluginManifestCollection::PublishesEvents, &self.publishes_events)?;
        reject_duplicates(PluginManifestCollection::SubscribesEvents, &self.subscribes_events)?;
        reject_duplicates(PluginManifestCollection::Permissions, &self.permissions)?;
        reject_duplicates(
            PluginManifestCollection::ProvidedCapabilities,
            &self.provided_capabilities,
        )?;
        reject_duplicates(
            PluginManifestCollection::RequiredCapabilities,
            &self.required_capabilities,
        )
    }

    pub fn validate_service_dependencies(&self) -> (r: Result<(), PluginManifestValidationError>)
        ensures
            reports(r, service_dependency_violation(*self)),
    {
        let ghost required = declared_ids(self.requires_services@);
        let ghost optional = declared_ids(self.optional_services@);
        for j in 0..self.optional_services.len()
            invariant
                required == declared_ids(self.requires_services@),
                optional == declared_ids(self.optional_services@),
                first_overlap_from(required, optional, 0) == first_overlap_from(
                    required,
                    optional,
                    j as int,
                ),
        {
            for i in 0..self.requires_services.len()
                invariant
                    required == declared_ids(self.requires_services@),
                    optional == declared_ids(self.optional_services@),
                    0 <= j < optional.len(),
                    forall|k: int| 0 <= k < i ==> required[k] != optional[j as int],
                    first_overlap_from(required, optional, 0) == first_overlap_from(
                        required,
                        optional,
                        j as int,
                    ),
            {
                if self.requires_services[i].service_id == self.optional_services[j].service_id {
                    assert(required[i as int] == optional[j as int]);
                    return Err(
                        PluginManifestValidationError::RequiredOptionalServiceOverlap {
                            service_id: self.optional_services[j].service_id.clone(),
                        },
                    );
                }
            }
            assert(!required.contains(optional[j as int]));
        }
        Ok(())
    }

    pub fn validate_event_contracts(&self) -> (r: Result<(), PluginManifestValidationError>)
        ensures
            reports(r, event_violation_from(self.publishes_events@, self.subscribes_events@, 0)),
    {
        let ghost published = self.publishes_events@;
        let ghost subscribed = self.subscribes_events@;
        for j in 0..self.publishes_events.len()
            invariant
                published == self.publishes_events@,
                subscribed == self.subscribes_events@,
                event_violation_from(published, subscribed, 0) == event_violation_from(
                    published,
                    subscribed,
                    j as int,
                ),
        {
            let publication = &self.publishes_events[j];
            let mut found: Option<usize> = None;
            for k in 0..self.subscribes_events.len()
                invariant_except_break
                    found is None,
                    first_subscription_from(subscribed, publication.event_id@, 0)
                        == first_subscription_from(subscribed, publication.event_id@, k as int),
                invariant
                    subscribed == self.subscribes_events@,
                    *publication == published[j as int],
                ensures
                    found is None ==> first_subscription_from(
                        subscribed,
                        publication.event_id@,
                        0,
                    ) is None,
                    found matches Some(f) ==> first_subscription_from(
                        subscribed,
                        publication.event_id@,
                        0,
                    ) == Some(f as int) && f < subscribed.len(),
            {
                if self.subscribes_events[k].event_id == publication.event_id {
                    found = Some(k);
                    break;
                }
            }
            if let Some(k) = found {
                let subscription = &self.subscribes_events[k];
                if subscription.version != publication.version {
                    return Err(
                        PluginManifestValidationError::EventVersionConflict {
                            event_id: publication.event_id.clone(),
                            published: publication.version.clone(),
                            subscribed: subscription.version.clone(),
                        },
                    );
                }
                if subscription.mode != publication.mode {
                    return Err(
                        PluginManifestValidationError::EventModeConflict {
                            event_id: publication.event_id.clone(),
                            published: publication.mode,
                            subscribed: subscription.mode,
                        },
                    );
                }
            }
        }
        Ok(())
    }
}

} // verus!
