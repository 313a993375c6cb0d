use std::collections::BTreeMap;

use semver::VersionReq;
use sua_sdk::{
    BoundedDeclarations, CapabilityContractRef, CapabilityRequirement, EventContract, EventMode,
    JsonValue, MAX_PERMISSION_CONSTRAINT_COLLECTION_ITEMS, MAX_PERMISSION_CONSTRAINT_DEPTH,
    MAX_PERMISSION_CONSTRAINT_STRING_CHARS, MAX_PLUGIN_DECLARATIONS_PER_COLLECTION,
    PermissionConstraints, PermissionConstraintsError, PermissionRequest, PluginExecution,
    PluginExecutionDecodeError, PluginManifest, PluginManifestCollection,
    PluginManifestValidationError, ServiceProvision, ServiceRequirement, Version,
    validate_encoded_permission_constraints,
};
use sua_sdk::constraints::validate_permission_node;
use sua_sdk::json::text_precedes_text;

fn text(value: &str) -> JsonValue {
    JsonValue::String(value.to_owned())
}

/// An object as serde_json's map holds it: keys ascending, the last entry of
/// a repeated key kept.
fn object<K: Into<String>>(entries: Vec<(K, JsonValue)>) -> JsonValue {
    let map: BTreeMap<String, JsonValue> = entries
        .into_iter()
        .map(|(key, value)| (key.into(), value))
        .collect();
    JsonValue::Object(map.into_iter().collect())
}

fn requirement(text: &str) -> VersionReq {
    VersionReq::parse(text).expect("requirement")
}

fn event(id: &str, version: Version, mode: EventMode) -> EventContract {
    EventContract {
        event_id: id.parse().expect("event id"),
        version,
        mode,
    }
}

fn service_requirement(id: &str, text: &str) -> ServiceRequirement {
    ServiceRequirement {
        service_id: id.parse().expect("service id"),
        version_requirement: requirement(text),
    }
}

fn valid_manifest() -> PluginManifest {
    PluginManifest {
        manifest_version: 1,
        plugin_id: "software-use.paint".parse().expect("plugin id"),
        version: Version::new(0, 1, 0),
        runtime_requirement: requirement("^0.1"),
        execution: PluginExecution::IsolatedProcess {
            protocol_id: "software-use.plugin-rpc".parse().expect("protocol id"),
            protocol_requirement: requirement("^1"),
        },
        provides_services: vec![ServiceProvision {
            service_id: "software.paint-controller".parse().expect("service id"),
            version: Version::new(1, 0, 0),
        }],
        requires_services: vec![service_requirement("software.target-binding", "^1")],
        optional_services: vec![service_requirement("runtime.telemetry", "^1")],
        publishes_events: vec![event("software.paint/saved", Version::new(1, 0, 0), EventMode::Emit)],
        subscribes_events: vec![event("runtime.shutdown", Version::new(1, 0, 0), EventMode::Serial)],
        permissions: vec![PermissionRequest {
            permission_id: "filesystem.write".parse().expect("permission id"),
            required: true,
            reason: "Write the caller-approved PNG output."
                .parse()
                .expect("reason"),
            constraints: PermissionConstraints::try_from(object(vec![
                ("extensions", JsonValue::Array(vec![text("png")])),
                ("overwrite", JsonValue::Bool(false)),
            ]))
            .expect("constraints"),
        }],
        provided_capabilities: vec![CapabilityContractRef {
            capability_id: "software.windows.paint.image.compose"
                .parse()
                .expect("capability id"),
            version: Version::new(1, 0, 0),
        }],
        required_capabilities: vec![CapabilityRequirement {
            capability_id: "software.window.observe".parse().expect("capability id"),
            version_requirement: requirement("^1"),
        }],
    }
}

#[test]
fn valid_manifest_passes_and_names_its_protocol() {
    let manifest = valid_manifest();
    manifest.validate().expect("manifest remains valid");
    assert_eq!(
        manifest
            .execution
            .protocol()
            .map(|(id, requirement)| (id.as_str(), requirement.to_string())),
        Some(("software-use.plugin-rpc", "^1".to_owned()))
    );
    let decoded = PluginExecution::from_json(&object(vec![
        ("kind", text("isolated_process")),
        ("protocol_id", text("software-use.plugin-rpc")),
        ("protocol_requirement", text("^1")),
    ]))
    .expect("execution");
    assert_eq!(decoded, manifest.execution);
}

#[test]
fn static_factory_decodes_only_from_a_lone_kind() {
    assert_eq!(
        PluginExecution::from_json(&object(vec![("kind", text("static_factory"))])),
        Ok(PluginExecution::StaticFactory)
    );
    assert!(
        PluginExecution::from_json(&object(vec![
            ("kind", text("static_factory")),
            ("library", text("plugin.dll")),
        ]))
        .is_err()
    );
    assert_eq!(PluginExecution::StaticFactory.protocol(), None);
}

#[test]
fn execution_decoding_reports_each_fault() {
    assert_eq!(
        PluginExecution::from_json(&text("static_factory")),
        Err(PluginExecutionDecodeError::NotAnObject)
    );
    assert_eq!(
        PluginExecution::from_json(&object(vec![("protocol_id", text("a"))])),
        Err(PluginExecutionDecodeError::MissingKind)
    );
    assert_eq!(
        PluginExecution::from_json(&object(vec![("kind", JsonValue::Bool(true))])),
        Err(PluginExecutionDecodeError::MissingKind)
    );
    assert_eq!(
        PluginExecution::from_json(&object(vec![("kind", text("dynamic_library"))])),
        Err(PluginExecutionDecodeError::UnknownVariant {
            kind: "dynamic_library".to_owned()
        })
    );
    assert_eq!(
        PluginExecution::from_json(&object(vec![
            ("kind", text("static_factory")),
            ("library", text("plugin.dll")),
        ])),
        Err(PluginExecutionDecodeError::UnknownField {
            field: "library".to_owned()
        })
    );
    assert_eq!(
        PluginExecution::from_json(&object(vec![
            ("kind", text("isolated_process")),
            ("protocol_requirement", text("^1")),
        ])),
        Err(PluginExecutionDecodeError::MissingProtocolId)
    );
    assert_eq!(
        PluginExecution::from_json(&object(vec![
            ("kind", text("isolated_process")),
            ("protocol_id", text("rpc")),
        ])),
        Err(PluginExecutionDecodeError::MissingProtocolRequirement)
    );
    assert_eq!(
        PluginExecution::from_json(&object(vec![
            ("kind", text("isolated_process")),
            ("protocol_id", text("Not-An-Id")),
            ("protocol_requirement", text("^1")),
        ])),
        Err(PluginExecutionDecodeError::InvalidProtocolId)
    );
    assert_eq!(
        PluginExecution::from_json(&object(vec![
            ("kind", text("isolated_process")),
            ("protocol_id", text("rpc")),
            ("protocol_requirement", text("not a requirement")),
        ])),
        Err(PluginExecutionDecodeError::InvalidProtocolRequirement)
    );
    assert_eq!(
        PluginExecution::from_json(&object(vec![
            ("kind", text("isolated_process")),
            ("library", text("plugin.dll")),
            ("protocol_id", text("rpc")),
            ("protocol_requirement", text("^1")),
        ])),
        Err(PluginExecutionDecodeError::UnknownField {
            field: "library".to_owned()
        })
    );
}

#[test]
fn validation_rejects_unsupported_manifest_versions() {
    let mut unsupported = valid_manifest();
    unsupported.manifest_version = 2;
    assert_eq!(
        unsupported.validate(),
        Err(PluginManifestValidationError::UnsupportedManifestVersion { found: 2 })
    );
}

#[test]
fn duplicate_and_overlapping_service_declarations_are_rejected() {
    let mut duplicate = valid_manifest();
    duplicate.provides_services = vec![
        ServiceProvision {
            service_id: "software.paint-controller".parse().expect("service id"),
            version: Version::new(1, 0, 0),
        },
        ServiceProvision {
            service_id: "software.paint-controller".parse().expect("service id"),
            version: Version::new(2, 0, 0),
        },
    ];
    assert_eq!(
        duplicate.validate(),
        Err(PluginManifestValidationError::DuplicateDeclaration {
            collection: PluginManifestCollection::ProvidesServices,
            identifier: "software.paint-controller".to_owned(),
        })
    );

    let mut overlap = valid_manifest();
    overlap.optional_services = vec![service_requirement("software.target-binding", "^2")];
    assert_eq!(
        overlap.validate(),
        Err(PluginManifestValidationError::RequiredOptionalServiceOverlap {
            service_id: "software.target-binding".parse().expect("service id"),
        })
    );
}

#[test]
fn conflicting_event_contracts_are_rejected() {
    let mut mode = valid_manifest();
    mode.subscribes_events = vec![event(
        "software.paint/saved",
        Version::new(1, 0, 0),
        EventMode::Parallel,
    )];
    assert!(mode.validate().is_err());

    let mut version = valid_manifest();
    version.subscribes_events = vec![event(
        "software.paint/saved",
        Version::new(2, 0, 0),
        EventMode::Emit,
    )];
    assert_eq!(
        version.validate(),
        Err(PluginManifestValidationError::EventVersionConflict {
            event_id: "software.paint/saved".parse().expect("event id"),
            published: Version::new(1, 0, 0),
            subscribed: Version::new(2, 0, 0),
        })
    );
}

#[test]
fn matching_event_contracts_are_accepted() {
    let mut manifest = valid_manifest();
    manifest.subscribes_events.push(event(
        "software.paint/saved",
        Version::new(1, 0, 0),
        EventMode::Emit,
    ));
    assert_eq!(manifest.validate(), Ok(()));
}

#[test]
fn declaration_collections_are_bounded() {
    let mut permissions = BoundedDeclarations::new();
    for index in 0..MAX_PLUGIN_DECLARATIONS_PER_COLLECTION {
        assert!(permissions.push(index));
    }
    assert!(!permissions.push(MAX_PLUGIN_DECLARATIONS_PER_COLLECTION));
    assert_eq!(
        permissions.into_vec().len(),
        MAX_PLUGIN_DECLARATIONS_PER_COLLECTION
    );

    let mut manifest = valid_manifest();
    let template = manifest.permissions[0].clone();
    manifest.permissions = (0..=MAX_PLUGIN_DECLARATIONS_PER_COLLECTION)
        .map(|index| PermissionRequest {
            permission_id: format!("permission.item-{index}").parse().expect("permission id"),
            ..template.clone()
        })
        .collect();
    assert_eq!(
        manifest.validate(),
        Err(PluginManifestValidationError::TooManyDeclarations {
            collection: PluginManifestCollection::Permissions,
            maximum: MAX_PLUGIN_DECLARATIONS_PER_COLLECTION,
        })
    );
}

#[test]
fn total_declarations_are_bounded() {
    let mut manifest = valid_manifest();
    let capability = |index: usize| CapabilityContractRef {
        capability_id: format!("capability.item-{index}").parse().expect("capability id"),
        version: Version::new(1, 0, 0),
    };
    let requirement_of = |index: usize| CapabilityRequirement {
        capability_id: format!("capability.need-{index}").parse().expect("capability id"),
        version_requirement: requirement("^1"),
    };
    manifest.provided_capabilities = (0..128).map(capability).collect();
    manifest.required_capabilities = (0..128).map(requirement_of).collect();
    manifest.provides_services = (0..128)
        .map(|index| ServiceProvision {
            service_id: format!("service.item-{index}").parse().expect("service id"),
            version: Version::new(1, 0, 0),
        })
        .collect();
    manifest.requires_services = (0..128)
        .map(|index| service_requirement(&format!("service.need-{index}"), "^1"))
        .collect();
    assert_eq!(
        manifest.validate(),
        Err(PluginManifestValidationError::TooManyTotalDeclarations { maximum: 512 })
    );
}

#[test]
fn permission_constraints_are_objects_and_strictly_bounded() {
    assert_eq!(
        PermissionConstraints::try_from(JsonValue::Array(vec![
            text("not"),
            text("an"),
            text("object")
        ])),
        Err(PermissionConstraintsError::NotAnObject)
    );
    assert_eq!(
        PermissionConstraints::try_from(object(vec![(
            "value",
            text(&"x".repeat(MAX_PERMISSION_CONSTRAINT_STRING_CHARS + 1))
        )])),
        Err(PermissionConstraintsError::InvalidString)
    );

    let too_many = (0..=MAX_PERMISSION_CONSTRAINT_COLLECTION_ITEMS)
        .map(|index| (format!("key-{index}"), JsonValue::Bool(true)))
        .collect::<Vec<_>>();
    assert_eq!(
        PermissionConstraints::try_from(object(too_many)),
        Err(PermissionConstraintsError::CollectionItemsExceeded)
    );
}

#[test]
fn permission_constraint_depth_and_total_nodes_are_bounded() {
    let mut nested = JsonValue::Bool(true);
    for _ in 0..=MAX_PERMISSION_CONSTRAINT_DEPTH {
        nested = object(vec![("nested", nested)]);
    }
    assert_eq!(
        PermissionConstraints::try_from(nested),
        Err(PermissionConstraintsError::DepthExceeded)
    );

    let leaves = (0..MAX_PERMISSION_CONSTRAINT_COLLECTION_ITEMS)
        .map(|_| JsonValue::Array(vec![JsonValue::Bool(true); 4]))
        .collect::<Vec<_>>();
    let many_nodes = object(vec![("items", JsonValue::Array(leaves))]);
    assert_eq!(
        PermissionConstraints::try_from(many_nodes),
        Err(PermissionConstraintsError::NodesExceeded)
    );
}

#[test]
fn permission_constraint_keys_and_size_are_checked() {
    assert_eq!(
        PermissionConstraints::try_from(object(vec![(" padded", JsonValue::Null)])),
        Err(PermissionConstraintsError::InvalidKey)
    );
    assert_eq!(
        PermissionConstraints::try_from(object(vec![("", JsonValue::Null)])),
        Err(PermissionConstraintsError::InvalidKey)
    );
    assert_eq!(
        PermissionConstraints::try_from(object(vec![("line\nbreak", JsonValue::Null)])),
        Err(PermissionConstraintsError::InvalidKey)
    );
    let big = (0..60)
        .map(|index| (format!("key-{index:02}"), text(&"y".repeat(400))))
        .collect::<Vec<_>>();
    assert_eq!(
        PermissionConstraints::try_from(object(big)),
        Err(PermissionConstraintsError::EncodedSizeExceeded)
    );
    let bad_number = object(vec![("n", JsonValue::Number("not-a-number".to_owned()))]);
    assert_eq!(
        PermissionConstraints::try_from(bad_number),
        Err(PermissionConstraintsError::EncodedSizeExceeded)
    );
    let numbers = object(vec![
        ("float", JsonValue::Number("1.5".to_owned())),
        ("negative", JsonValue::Number("-7".to_owned())),
    ]);
    let accepted = PermissionConstraints::try_from(numbers.clone()).expect("numbers");
    assert_eq!(accepted.as_value(), &numbers);
    assert_eq!(accepted.into_value(), numbers);
    assert_eq!(
        PermissionConstraints::default().as_value(),
        &JsonValue::Object(Vec::new())
    );
}

#[test]
fn encoded_size_limit_is_checked_on_the_encoding() {
    let value = object(vec![("a", JsonValue::Null)]);
    assert_eq!(
        validate_encoded_permission_constraints(&value, &Some(vec![b'x'; 16 * 1024])),
        Ok(())
    );
    assert_eq!(
        validate_encoded_permission_constraints(&value, &Some(vec![b'x'; 16 * 1024 + 1])),
        Err(PermissionConstraintsError::EncodedSizeExceeded)
    );
    assert_eq!(
        validate_encoded_permission_constraints(&value, &None),
        Err(PermissionConstraintsError::EncodedSizeExceeded)
    );
}

#[test]
fn manifest_validation_error_exposes_event_mode_evidence() {
    let mut manifest = valid_manifest();
    manifest.subscribes_events = vec![event(
        "software.paint/saved",
        Version::new(1, 0, 0),
        EventMode::Waterfall,
    )];

    assert!(matches!(
        manifest.validate(),
        Err(PluginManifestValidationError::EventModeConflict {
            published: EventMode::Emit,
            subscribed: EventMode::Waterfall,
            ..
        })
    ));
}

#[test]
fn collection_names_match_manifest_fields() {
    assert_eq!(PluginManifestCollection::ProvidesServices.name(), "provides_services");
    assert_eq!(PluginManifestCollection::RequiredCapabilities.name(), "required_capabilities");
}

#[test]
fn versions_parse_as_semver_reads_them() {
    let version = Version::parse("1.2.3-alpha.1+build.5").expect("version");
    assert_eq!((version.major, version.minor, version.patch), (1, 2, 3));
    assert_eq!(version.pre, "alpha.1");
    assert_eq!(version.build, "build.5");
    assert_eq!(Version::parse("1.0.0"), Some(Version::new(1, 0, 0)));
    assert_eq!(Version::parse("1.0"), None);
    assert_eq!(Version::parse("1.0.0-alpha_1"), None);
}

#[test]
fn decoded_requirement_is_the_one_written() {
    let decoded = PluginExecution::from_json(&object(vec![
        ("kind", text("isolated_process")),
        ("protocol_id", text("rpc")),
        ("protocol_requirement", text(">=1.2, <2")),
    ]))
    .expect("execution");
    assert_eq!(
        decoded.protocol().map(|(_, requirement)| requirement.clone()),
        Some(requirement(">=1.2, <2"))
    );
}

#[test]
fn objects_in_serde_json_form_have_ascending_keys() {
    assert!(object(vec![("b", JsonValue::Null), ("a", JsonValue::Null)]).is_canonical());
    let unsorted = JsonValue::Object(vec![
        ("b".to_owned(), JsonValue::Null),
        ("a".to_owned(), JsonValue::Null),
    ]);
    assert!(!unsorted.is_canonical());
    let repeated = JsonValue::Object(vec![
        ("a".to_owned(), JsonValue::Null),
        ("a".to_owned(), JsonValue::Null),
    ]);
    assert!(!repeated.is_canonical());
    let nested = JsonValue::Array(vec![JsonValue::Null, unsorted]);
    assert!(!nested.is_canonical());
    assert!(JsonValue::Object(Vec::new()).is_canonical());
    assert!(text_precedes_text("a", "b"));
    assert!(text_precedes_text("a", "ab"));
    assert!(!text_precedes_text("ab", "a"));
    assert!(!text_precedes_text("a", "a"));
    assert!(text_precedes_text("z", "\u{e9}"));
    assert!(text_precedes_text("Z", "a"));
}

#[test]
fn constraint_entries_are_walked_in_key_order() {
    let mut deep = JsonValue::Bool(true);
    for _ in 0..=MAX_PERMISSION_CONSTRAINT_DEPTH {
        deep = object(vec![("nested", deep)]);
    }
    let value = object(vec![("b", deep), ("a ", JsonValue::Null)]);
    assert_eq!(
        PermissionConstraints::try_from(value),
        Err(PermissionConstraintsError::InvalidKey)
    );
}

#[test]
fn decoding_uses_the_requirement_semver_read() {
    let description = object(vec![
        ("kind", text("isolated_process")),
        ("protocol_id", text("rpc")),
        ("protocol_requirement", text("^1")),
    ]);
    assert_eq!(
        PluginExecution::from_json_parsed(&description, None),
        Err(PluginExecutionDecodeError::InvalidProtocolRequirement)
    );
    let decoded = PluginExecution::from_json_parsed(&description, Some(requirement(">=2")))
        .expect("execution");
    assert_eq!(
        decoded.protocol().map(|(id, requirement)| (id.as_str().to_owned(), requirement.clone())),
        Some(("rpc".to_owned(), requirement(">=2")))
    );
    assert_eq!(
        PluginExecution::from_json_parsed(&object(vec![("kind", text("static_factory"))]), None),
        Ok(PluginExecution::StaticFactory)
    );
}

#[test]
fn the_depth_bound_is_checked_before_a_node_is_counted() {
    let mut nodes = usize::MAX;
    assert_eq!(
        validate_permission_node(&JsonValue::Null, MAX_PERMISSION_CONSTRAINT_DEPTH + 1, &mut nodes),
        Err(PermissionConstraintsError::DepthExceeded)
    );
    assert_eq!(nodes, usize::MAX);
    let mut nodes = 0;
    assert_eq!(
        validate_permission_node(&object(vec![("a", JsonValue::Null)]), 0, &mut nodes),
        Ok(())
    );
    assert_eq!(nodes, 2);
}

#[test]
fn uniqueness_and_event_checks_judge_identities() {
    let mut manifest = valid_manifest();
    manifest.provides_services.push(ServiceProvision {
        service_id: "software.paint-controller".parse().expect("service id"),
        version: Version::new(2, 0, 0),
    });
    assert!(matches!(
        manifest.validate_unique_declarations(),
        Err(PluginManifestValidationError::DuplicateDeclaration {
            collection: PluginManifestCollection::ProvidesServices,
            ..
        })
    ));

    let mut conflicting = valid_manifest();
    conflicting.subscribes_events =
        vec![event("software.paint/saved", Version::new(2, 0, 0), EventMode::Emit)];
    let mut swapped = conflicting.clone();
    std::mem::swap(&mut swapped.publishes_events, &mut swapped.subscribes_events);
    assert!(conflicting.validate_event_contracts().is_err());
    assert!(swapped.validate_event_contracts().is_err());
    assert!(valid_manifest().validate_service_dependencies().is_ok());
    assert!(valid_manifest().validate_declaration_bounds().is_ok());
}
