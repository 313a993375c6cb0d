use sua_sdk::id::validate_identifier;
use sua_sdk::{
    CapabilityId, EventId, InvocationId, MAX_METADATA_TEXT_CHARS, MetadataText, PermissionId,
    PluginId, ProtocolId, ProviderId, ServiceId,
};

#[test]
fn accepts_namespaced_identifiers() {
    assert!("software.window.observe".parse::<CapabilityId>().is_ok());
    assert!("dcc/cua-windows".parse::<ProviderId>().is_ok());
    assert!("invocation-2026-08-14".parse::<InvocationId>().is_ok());
    assert!(
        "019ffe5b-5c93-7091-9277-92d045da6ef0"
            .parse::<InvocationId>()
            .is_ok()
    );
    assert!("019ffe5b".parse::<CapabilityId>().is_err());

    assert!("software-use.paint".parse::<PluginId>().is_ok());
    assert!("runtime.provider-registry".parse::<ServiceId>().is_ok());
    assert!("plugin.lifecycle/activated".parse::<EventId>().is_ok());
    assert!("filesystem.write".parse::<PermissionId>().is_ok());
    assert!("software-use.plugin-rpc".parse::<ProtocolId>().is_ok());
}

#[test]
fn rejects_ambiguous_or_noncanonical_identifiers() {
    for value in ["", "Upper", "2fast", "ends-", "two..dots", "under_score"] {
        assert!(value.parse::<CapabilityId>().is_err(), "accepted {value}");
    }
}

#[test]
fn plugin_ecosystem_identifiers_must_start_with_a_letter() {
    assert!("1-plugin".parse::<PluginId>().is_err());
    assert!("1-service".parse::<ServiceId>().is_err());
    assert!("1-event".parse::<EventId>().is_err());
    assert!("1-permission".parse::<PermissionId>().is_err());
    assert!("1-protocol".parse::<ProtocolId>().is_err());
}

#[test]
fn identifier_text_round_trips_through_parse() {
    let id = "software.read".parse::<CapabilityId>().expect("valid ID");
    assert_eq!(id.as_str(), "software.read");
    assert_eq!(id.as_str().parse::<CapabilityId>().expect("reparse"), id);
}

#[test]
fn identifier_length_limit_is_128_characters() {
    let longest = "a".repeat(128);
    assert!(longest.parse::<CapabilityId>().is_ok());
    assert!("a".repeat(129).parse::<CapabilityId>().is_err());
}

#[test]
fn identifier_separators_and_characters() {
    assert!("a-b.c/d".parse::<CapabilityId>().is_ok());
    assert!("a/-b".parse::<CapabilityId>().is_err());
    assert!("a./b".parse::<CapabilityId>().is_err());
    assert!(".a".parse::<CapabilityId>().is_err());
    assert!("a9".parse::<CapabilityId>().is_ok());
    assert!("é".parse::<CapabilityId>().is_err());
    assert!("9".parse::<InvocationId>().is_ok());
    assert!("9-".parse::<InvocationId>().is_err());
}

#[test]
fn identifier_error_names_the_kind_only() {
    let error = "Bad Value".parse::<ServiceId>().expect_err("rejected");
    assert_eq!(error.kind(), "service");
    assert!("1x".parse::<InvocationId>().is_ok());
    assert_eq!("UPPER".parse::<InvocationId>().expect_err("rejected").kind(), "invocation");
}

#[test]
fn rejects_unbounded_or_noncanonical_text() {
    for value in ["", " padded", "padded ", "line\nbreak"] {
        assert!(value.parse::<MetadataText>().is_err(), "accepted {value:?}");
    }
    assert!(
        "x".repeat(MAX_METADATA_TEXT_CHARS + 1)
            .parse::<MetadataText>()
            .is_err()
    );
}

#[test]
fn metadata_text_accepts_bounded_trimmed_text() {
    let text = "Window observer".parse::<MetadataText>().expect("valid text");
    assert_eq!(text.as_str(), "Window observer");
    assert!("x".repeat(MAX_METADATA_TEXT_CHARS).parse::<MetadataText>().is_ok());
    assert!("inner\u{a0}space".parse::<MetadataText>().is_ok());
    assert!("\u{a0}leading".parse::<MetadataText>().is_err());
    assert!("trailing\u{3000}".parse::<MetadataText>().is_err());
    assert!("tab\tinside".parse::<MetadataText>().is_err());
    assert!("del\u{7f}".parse::<MetadataText>().is_err());
    assert!("c1\u{85}x".parse::<MetadataText>().is_err());
    assert!("ünïcödé".parse::<MetadataText>().is_ok());
}

#[test]
fn rejections_do_not_depend_on_the_rejected_value() {
    let first = "Upper".parse::<CapabilityId>().expect_err("rejected");
    let second = "two..dots".parse::<CapabilityId>().expect_err("rejected");
    assert_eq!(first, second);
    assert_eq!(first.kind(), "capability");
    assert!(!format!("{first:?}").contains("Upper"));
}

#[test]
fn identifier_rejections_name_only_the_kind() {
    let first = validate_identifier("capability", "Upper", false).expect_err("rejected");
    let second = validate_identifier("capability", "two..dots", false).expect_err("rejected");
    assert_eq!(first, second);
    assert_eq!(first.kind(), "capability");
    assert!(validate_identifier("invocation", "2fast", true).is_ok());
    assert!(validate_identifier("capability", "2fast", false).is_err());
    assert_eq!(
        validate_identifier("plugin", "fast-2", false),
        validate_identifier("plugin", "fast-2", true)
    );
}
