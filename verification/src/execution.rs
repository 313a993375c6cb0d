//! How a runtime obtains and isolates a plugin implementation, and the
//! decoding of its JSON description.
use vstd::prelude::*;

use crate::id::{ProtocolId, is_valid_identifier};
use crate::json::{JsonTree, JsonValue, json_is_canonical, lemma_object_view};
use crate::text::same_text;
use crate::version::{parse_version_requirement, semver_parses_requirement, semver_requirement};

verus! {

/// How a runtime obtains and isolates a plugin implementation.
#[derive(Clone, Debug, Eq, PartialEq)]
pub enum PluginExecution {
    /// A trusted factory linked into the runtime binary.
    StaticFactory,
    /// A separately supervised process speaking a bounded, versioned protocol.
    IsolatedProcess {
        /// Stable protocol identity used during the handshake.
        protocol_id: ProtocolId,
        /// Protocol versions the plugin process can speak.
        protocol_requirement: semver::VersionReq,
    },
}

impl PluginExecution {
    /// Returns the isolated-process protocol contract, when applicable.
    pub fn protocol(&self) -> (r: Option<(&ProtocolId, &semver::VersionReq)>)
        ensures
            match *self {
                PluginExecution::StaticFactory => r is None,
                PluginExecution::IsolatedProcess { protocol_id, protocol_requirement } => r
                    == Some((&protocol_id, &protocol_requirement)),
            },
    {
        match self {
            PluginExecution::StaticFactory => None,
            PluginExecution::IsolatedProcess { protocol_id, protocol_requirement } => Some(
                (protocol_id, protocol_requirement),
            ),
        }
    }
}

/// Why a JSON description of a plugin execution model was rejected.
#[derive(Clone, Debug, Eq, PartialEq)]
pub enum PluginExecutionDecodeError {
    /// The value was not a JSON object.
    NotAnObject,
    /// The `kind` field was absent or not a string.
    MissingKind,
    /// The `kind` names no execution model.
    UnknownVariant {
        /// The `kind` text.
        kind: String,
    },
    /// A field that the execution model does not have.
    UnknownField {
        /// The field name.
        field: String,
    },
    /// A field given twice.
    DuplicateField {
        /// The field name.
        field: String,
    },
    /// `protocol_id` was not a string holding a valid protocol identifier.
    InvalidProtocolId,
    /// `protocol_requirement` was not a string holding a semver requirement.
    InvalidProtocolRequirement,
    /// An isolated process without `protocol_id`.
    MissingProtocolId,
    /// An isolated process without `protocol_requirement`.
    MissingProtocolRequirement,
}

/// The content of a [`PluginExecutionDecodeError`].
pub enum ExecutionDecodeFault {
    NotAnObject,
    MissingKind,
    UnknownVariant(Seq<char>),
    UnknownField(Seq<char>),
    DuplicateField(Seq<char>),
    InvalidProtocolId,
    InvalidProtocolRequirement,
    MissingProtocolId,
    MissingProtocolRequirement,
}

impl View for PluginExecutionDecodeError {
    type V = ExecutionDecodeFault;

    open spec fn view(&self) -> ExecutionDecodeFault {
        match *self {
            PluginExecutionDecodeError::NotAnObject => ExecutionDecodeFault::NotAnObject,
            PluginExecutionDecodeError::MissingKind => ExecutionDecodeFault::MissingKind,
            PluginExecutionDecodeError::UnknownVariant { kind } => ExecutionDecodeFault::UnknownVariant(
                kind@,
            ),
            PluginExecutionDecodeError::UnknownField { field } => ExecutionDecodeFault::UnknownField(
                field@,
            ),
            PluginExecutionDecodeError::DuplicateField { field } => ExecutionDecodeFault::DuplicateField(
                field@,
            ),
            PluginExecutionDecodeError::InvalidProtocolId => ExecutionDecodeFault::InvalidProtocolId,
            PluginExecutionDecodeError::InvalidProtocolRequirement => {
                ExecutionDecodeFault::InvalidProtocolRequirement
            },
            PluginExecutionDecodeError::MissingProtocolId => ExecutionDecodeFault::MissingProtocolId,
            PluginExecutionDecodeError::MissingProtocolRequirement => {
                ExecutionDecodeFault::MissingProtocolRequirement
            },
        }
    }
}

/// What decoding a JSON value as an execution model yields.
pub enum ExecutionDecoding {
    StaticFactory,
    IsolatedProcess { protocol_id: Seq<char>, protocol_requirement: semver::VersionReq },
    Rejected(ExecutionDecodeFault),
}

/// The first entry at or after position `i` whose key is `key`.
pub open spec fn first_key_from(entries: Seq<(Seq<char>, JsonTree)>, key: Seq<char>, i: int) -> Option<
    int,
>
    decreases entries.len() - i,
{
    if i < 0 || i >= entries.len() {
        None
    } else if entries[i].0 == key {
        Some(i)
    } else {
        first_key_from(entries, key, i + 1)
    }
}

/// The fields of an isolated process, read in entry order from position `i`,
/// skipping the `kind` entry at `skip`; `protocol_id` and `requirement`
/// record what was read before `i`, and `parsed` is what reading the text of
/// the `protocol_requirement` field as a semver requirement gave.
pub open spec fn isolated_process_decoding(
    entries: Seq<(Seq<char>, JsonTree)>,
    skip: int,
    i: int,
    protocol_id: Option<Seq<char>>,
    requirement: Option<semver::VersionReq>,
    parsed: Option<semver::VersionReq>,
) -> ExecutionDecoding
    decreases entries.len() - i,
{
    if i < 0 || i >= entries.len() {
        match protocol_id {
            None => ExecutionDecoding::Rejected(ExecutionDecodeFault::MissingProtocolId),
            Some(id) => match requirement {
                Some(protocol_requirement) => ExecutionDecoding::IsolatedProcess {
                    protocol_id: id,
                    protocol_requirement,
                },
                None => ExecutionDecoding::Rejected(ExecutionDecodeFault::MissingProtocolRequirement),
            },
        }
    } else if i == skip {
        isolated_process_decoding(entries, skip, i + 1, protocol_id, requirement, parsed)
    } else if entries[i].0 == "protocol_id"@ {
        if protocol_id is Some {
            ExecutionDecoding::Rejected(ExecutionDecodeFault::DuplicateField(entries[i].0))
        } else {
            match entries[i].1 {
                JsonTree::String(text) => if is_valid_identifier(text, false) {
                    isolated_process_decoding(entries, skip, i + 1, Some(text), requirement, parsed)
                } else {
                    ExecutionDecoding::Rejected(ExecutionDecodeFault::InvalidProtocolId)
                },
                _ => ExecutionDecoding::Rejected(ExecutionDecodeFault::InvalidProtocolId),
            }
        }
    } else if entries[i].0 == "protocol_requirement"@ {
        if requirement is Some {
            ExecutionDecoding::Rejected(ExecutionDecodeFault::DuplicateField(entries[i].0))
        } else {
            match entries[i].1 {
                JsonTree::String(_) => match parsed {
                    Some(read) => isolated_process_decoding(
                        entries,
                        skip,
                        i + 1,
                        protocol_id,
                        Some(read),
                        parsed,
                    ),
                    None => ExecutionDecoding::Rejected(
                        ExecutionDecodeFault::InvalidProtocolRequirement,
                    ),
                },
                _ => ExecutionDecoding::Rejected(ExecutionDecodeFault::InvalidProtocolRequirement),
            }
        }
    } else {
        ExecutionDecoding::Rejected(ExecutionDecodeFault::UnknownField(entries[i].0))
    }
}

/// What semver reads from the text of the first `protocol_requirement` entry
/// of `value`; `None` where there is no such entry, it holds no string, or
/// semver rejects the text.
pub open spec fn requirement_parse(value: JsonTree) -> Option<semver::VersionReq> {
    match value {
        JsonTree::Object(entries) => match first_key_from(entries, "protocol_requirement"@, 0) {
            Some(j) => match entries[j].1 {
                JsonTree::String(text) => if semver_parses_requirement(text) {
                    Some(semver_requirement(text))
                } else {
                    None
                },
                _ => None,
            },
            None => None,
        },
        _ => None,
    }
}

/// Decoding of a JSON value as an execution model, tagged by its string field
/// `kind`: `static_factory` admits no other field; `isolated_process` takes
/// exactly `protocol_id` and `protocol_requirement`; other fields are rejected
/// in entry order.
pub open spec fn execution_decoding(value: JsonTree) -> ExecutionDecoding {
    execution_decoding_with(value, requirement_parse(value))
}

/// [`execution_decoding`], given what semver read from the text of the
/// `protocol_requirement` field (`parsed`, `None` where it rejected the text).
pub open spec fn execution_decoding_with(
    value: JsonTree,
    parsed: Option<semver::VersionReq>,
) -> ExecutionDecoding {
    match value {
        JsonTree::Object(entries) => match first_key_from(entries, "kind"@, 0) {
            None => ExecutionDecoding::Rejected(ExecutionDecodeFault::MissingKind),
            Some(k) => match entries[k].1 {
                JsonTree::String(kind) => if kind == "static_factory"@ {
                    if entries.len() > 1 {
                        ExecutionDecoding::Rejected(
                            ExecutionDecodeFault::UnknownField(
                                if k == 0 {
                                    entries[1].0
                                } else {
                                    entries[0].0
                                },
                            ),
                        )
                    } else {
                        ExecutionDecoding::StaticFactory
                    }
                } else if kind == "isolated_process"@ {
                    isolated_process_decoding(entries, k, 0, None, None, parsed)
                } else {
                    ExecutionDecoding::Rejected(ExecutionDecodeFault::UnknownVariant(kind))
                },
                _ => ExecutionDecoding::Rejected(ExecutionDecodeFault::MissingKind),
            },
        },
        _ => ExecutionDecoding::Rejected(ExecutionDecodeFault::NotAnObject),
    }
}

/// A static factory carries no dynamic-library fields: a description decodes
/// as one only when it is an object whose single field is `kind`, set to
/// `static_factory`.
pub proof fn law_static_factory_has_only_a_kind(value: JsonTree)
    ensures
        execution_decoding(value) == ExecutionDecoding::StaticFactory ==> (value matches JsonTree::Object(
            entries,
        ) && entries.len() == 1 && entries[0] == ("kind"@, JsonTree::String("static_factory"@))),
{
    if let JsonTree::Object(entries) = value {
        if let Some(k) = first_key_from(entries, "kind"@, 0) {
            lemma_first_key(entries, "kind"@, 0);
            lemma_isolated_process_is_not_static(entries, k, 0, None, None, requirement_parse(value));
        }
    }
}

/// `key` is one of the fields an isolated process has.
pub open spec fn is_isolated_process_key(key: Seq<char>) -> bool {
    key == "kind"@ || key == "protocol_id"@ || key == "protocol_requirement"@
}

/// An isolated process has a closed set of fields: a description decodes as
/// one only when it is an object whose keys are exactly `kind` (set to
/// `isolated_process`), `protocol_id` and `protocol_requirement`, and the
/// decoded protocol identity is the text written under `protocol_id`.
pub proof fn law_isolated_process_fields_are_closed(value: JsonTree, parsed: Option<semver::VersionReq>)
    ensures
        execution_decoding_with(value, parsed) matches ExecutionDecoding::IsolatedProcess {
            protocol_id,
            ..
        } ==> value matches JsonTree::Object(entries) && (forall|i: int|
            0 <= i < entries.len() ==> is_isolated_process_key(#[trigger] entries[i].0)) && (exists|
            i: int,
        |
            0 <= i < entries.len() && #[trigger] entries[i] == ("kind"@, JsonTree::String(
                "isolated_process"@,
            ))) && (exists|i: int|
            0 <= i < entries.len() && #[trigger] entries[i] == ("protocol_id"@, JsonTree::String(
                protocol_id,
            ))) && (exists|i: int|
            0 <= i < entries.len() && #[trigger] entries[i].0 == "protocol_requirement"@),
{
    if let JsonTree::Object(entries) = value {
        if let Some(k) = first_key_from(entries, "kind"@, 0) {
            lemma_first_key(entries, "kind"@, 0);
            if let ExecutionDecoding::IsolatedProcess { protocol_id, protocol_requirement } =
                execution_decoding_with(value, parsed) {
                lemma_isolated_process_fields(entries, k, 0, None, None, parsed, protocol_id, protocol_requirement);
                if entries[k].1 matches JsonTree::String(kind) && kind == "static_factory"@ {
                    assert(false);
                }
                assert(entries[k] == ("kind"@, JsonTree::String("isolated_process"@)));
                assert forall|i: int| 0 <= i < entries.len() implies is_isolated_process_key(
                    #[trigger] entries[i].0,
                ) by {}
            }
        }
    }
}

/// The fields read from position `i` on, for an isolated process that decodes
/// to `(id, requirement_read)`: every key after `i` but the skipped `kind` is
/// `protocol_id` or `protocol_requirement`, and each field not yet read is
/// among them, `protocol_id` holding `id`.
pub proof fn lemma_isolated_process_fields(
    entries: Seq<(Seq<char>, JsonTree)>,
    skip: int,
    i: int,
    protocol_id: Option<Seq<char>>,
    requirement: Option<semver::VersionReq>,
    parsed: Option<semver::VersionReq>,
    id: Seq<char>,
    requirement_read: semver::VersionReq,
)
    requires
        0 <= i,
        isolated_process_decoding(entries, skip, i, protocol_id, requirement, parsed)
            == (ExecutionDecoding::IsolatedProcess {
            protocol_id: id,
            protocol_requirement: requirement_read,
        }),
    ensures
        forall|j: int|
            i <= j < entries.len() && j != skip ==> #[trigger] entries[j].0 == "protocol_id"@
                || entries[j].0 == "protocol_requirement"@,
        protocol_id matches Some(known) ==> known == id,
        protocol_id is None ==> exists|j: int|
            i <= j < entries.len() && #[trigger] entries[j] == ("protocol_id"@, JsonTree::String(id)),
        requirement is None ==> exists|j: int|
            i <= j < entries.len() && #[trigger] entries[j].0 == "protocol_requirement"@,
    decreases entries.len() - i,
{
    if i < entries.len() {
        if i == skip {
            lemma_isolated_process_fields(entries, skip, i + 1, protocol_id, requirement, parsed, id, requirement_read);
        } else if entries[i].0 == "protocol_id"@ {
            if let JsonTree::String(text) = entries[i].1 {
                lemma_isolated_process_fields(entries, skip, i + 1, Some(text), requirement, parsed, id, requirement_read);
                assert(entries[i] == ("protocol_id"@, JsonTree::String(id)));
            }
        } else if entries[i].0 == "protocol_requirement"@ {
            if let Some(read) = parsed {
                lemma_isolated_process_fields(entries, skip, i + 1, protocol_id, Some(read), parsed, id, requirement_read);
                if protocol_id is None {
                    let w = choose|j: int|
                        i + 1 <= j < entries.len() && #[trigger] entries[j] == ("protocol_id"@, JsonTree::String(id));
                    assert(entries[w] == ("protocol_id"@, JsonTree::String(id)));
                }
            }
        }
    }
}

/// Decoding the fields of an isolated process never yields a static factory.
pub proof fn lemma_isolated_process_is_not_static(
    entries: Seq<(Seq<char>, JsonTree)>,
    skip: int,
    i: int,
    protocol_id: Option<Seq<char>>,
    requirement: Option<semver::VersionReq>,
    parsed: Option<semver::VersionReq>,
)
    ensures
        isolated_process_decoding(entries, skip, i, protocol_id, requirement, parsed)
            != ExecutionDecoding::StaticFactory,
    decreases entries.len() - i,
{
    if 0 <= i < entries.len() {
        lemma_isolated_process_is_not_static(entries, skip, i + 1, protocol_id, requirement, parsed);
        if let JsonTree::String(text) = entries[i].1 {
            lemma_isolated_process_is_not_static(entries, skip, i + 1, Some(text), requirement, parsed);
        }
        if let Some(read) = parsed {
            lemma_isolated_process_is_not_static(
                entries,
                skip,
                i + 1,
                protocol_id,
                Some(read),
                parsed,
            );
        }
    }
}

/// The entry found from `i` on has the key sought.
pub proof fn lemma_first_key(entries: Seq<(Seq<char>, JsonTree)>, key: Seq<char>, i: int)
    requires
        0 <= i,
    ensures
        first_key_from(entries, key, i) matches Some(k) ==> i <= k < entries.len()
            && entries[k].0 == key,
    decreases entries.len() - i,
{
    if i < entries.len() {
        lemma_first_key(entries, key, i + 1);
    }
}

impl PluginExecution {
    /// Decodes an execution model from its JSON description, which is in
    /// serde_json's form (see [`JsonValue::is_canonical`]). The text of the
    /// `protocol_requirement` field is read with semver.
    pub fn from_json(value: &JsonValue) -> (r: Result<PluginExecution, PluginExecutionDecodeError>)
        requires
            json_is_canonical(value@),
        ensures
            match r {
                Ok(PluginExecution::StaticFactory) => execution_decoding(value@)
                    == ExecutionDecoding::StaticFactory,
                Ok(PluginExecution::IsolatedProcess { protocol_id, protocol_requirement }) => {
                    execution_decoding(value@) == (ExecutionDecoding::IsolatedProcess {
                        protocol_id: protocol_id@,
                        protocol_requirement,
                    })
                },
                Err(e) => execution_decoding(value@) == ExecutionDecoding::Rejected(e@),
            },
    {
        let mut parsed: Option<semver::VersionReq> = None;
        if let JsonValue::Object(entries) = value {
            proof {
                lemma_object_view(*entries);
            }
            let ghost trees = value@->Object_0;
            let mut found: Option<usize> = None;
            for i in 0..entries.len()
                invariant_except_break
                    found is None,
                    first_key_from(trees, "protocol_requirement"@, 0) == first_key_from(
                        trees,
                        "protocol_requirement"@,
                        i as int,
                    ),
                invariant
                    trees.len() == entries@.len(),
                    forall|k: int|
                        0 <= k < entries@.len() ==> #[trigger] trees[k] == (
                            entries@[k].0@,
                            entries@[k].1@,
                        ),
                ensures
                    found is None ==> first_key_from(trees, "protocol_requirement"@, 0) is None,
                    found matches Some(j) ==> first_key_from(trees, "protocol_requirement"@, 0)
                        == Some(j as int) && j < trees.len(),
            {
                if same_text(entries[i].0.as_str(), "protocol_requirement") {
                    found = Some(i);
                    break;
                }
            }
            if let Some(j) = found {
                assert(trees[j as int] == (entries@[j as int].0@, entries@[j as int].1@));
                if let JsonValue::String(text) = &entries[j].1 {
                    parsed = parse_version_requirement(text.as_str());
                }
            }
        }
        Self::from_json_parsed(value, parsed)
    }

    /// Decodes an execution model from its JSON description, which is in
    /// serde_json's form (see [`JsonValue::is_canonical`]), given what semver
    /// read from the text of its `protocol_requirement` field: `parsed`, or
    /// `None` where semver rejected the text.
    pub fn from_json_parsed(
        value: &JsonValue,
        parsed: Option<semver::VersionReq>,
    ) -> (r: Result<PluginExecution, PluginExecutionDecodeError>)
        requires
            json_is_canonical(value@),
        ensures
            match r {
                Ok(PluginExecution::StaticFactory) => execution_decoding_with(value@, parsed)
                    == ExecutionDecoding::StaticFactory,
                Ok(PluginExecution::IsolatedProcess { protocol_id, protocol_requirement }) => {
                    execution_decoding_with(value@, parsed) == (ExecutionDecoding::IsolatedProcess {
                        protocol_id: protocol_id@,
                        protocol_requirement,
                    })
                },
                Err(e) => execution_decoding_with(value@, parsed) == ExecutionDecoding::Rejected(e@),
            },
    {
        let entries = match value {
            JsonValue::Object(entries) => entries,
            _ => {
                return Err(PluginExecutionDecodeError::NotAnObject);
            },
        };
        proof {
            lemma_object_view(*entries);
        }
        let ghost trees = value@->Object_0;
        let ghost given = parsed;
        let mut kind_at: Option<usize> = None;
        for i in 0..entries.len()
            invariant_except_break
                kind_at is None,
                first_key_from(trees, "kind"@, 0) == first_key_from(trees, "kind"@, i as int),
            invariant
                trees.len() == entries@.len(),
                forall|k: int|
                    0 <= k < entries@.len() ==> #[trigger] trees[k] == (
                        entries@[k].0@,
                        entries@[k].1@,
                    ),
            ensures
                kind_at is None ==> first_key_from(trees, "kind"@, 0) is None,
                kind_at matches Some(k) ==> first_key_from(trees, "kind"@, 0) == Some(k as int)
                    && k < trees.len(),
        {
            if same_text(entries[i].0.as_str(), "kind") {
                kind_at = Some(i);
                break;
            }
        }
        let k = match kind_at {
            Some(k) => k,
            None => {
                return Err(PluginExecutionDecodeError::MissingKind);
            },
        };
        let kind = match &entries[k].1 {
            JsonValue::String(kind) => kind,
            _ => {
                return Err(PluginExecutionDecodeError::MissingKind);
            },
        };
        if same_text(kind.as_str(), "static_factory") {
            if entries.len() > 1 {
                let other = if k == 0 {
                    1
                } else {
                    0
                };
                return Err(
                    PluginExecutionDecodeError::UnknownField { field: entries[other].0.clone() },
                );
            }
            return Ok(PluginExecution::StaticFactory);
        }
        if !same_text(kind.as_str(), "isolated_process") {
            return Err(PluginExecutionDecodeError::UnknownVariant { kind: kind.clone() });
        }
        let mut unread = parsed;
        let mut protocol_id: Option<ProtocolId> = None;
        let mut protocol_requirement: Option<semver::VersionReq> = None;
        for i in 0..entries.len()
            invariant
                trees.len() == entries@.len(),
                forall|j: int|
                    0 <= j < entries@.len() ==> #[trigger] trees[j] == (
                        entries@[j].0@,
                        entries@[j].1@,
                    ),
                given == parsed,
                protocol_requirement is None ==> unread == given,
                execution_decoding_with(value@, given) == isolated_process_decoding(
                    trees,
                    k as int,
                    i as int,
                    match protocol_id {
                        Some(id) => Some(id@),
                        None => None,
                    },
                    protocol_requirement,
                    given,
                ),
        {
            if i != k {
                let key = entries[i].0.as_str();
                if same_text(key, "protocol_id") {
                    if protocol_id.is_some() {
                        return Err(
                            PluginExecutionDecodeError::DuplicateField { field: entries[i].0.clone() },
                        );
                    }
                    match &entries[i].1 {
                        JsonValue::String(text) => match ProtocolId::parse(text.as_str()) {
                            Ok(id) => {
                                protocol_id = Some(id);
                            },
                            Err(_) => {
                                return Err(PluginExecutionDecodeError::InvalidProtocolId);
                            },
                        },
                        _ => {
                            return Err(PluginExecutionDecodeError::InvalidProtocolId);
                        },
                    }
                } else if same_text(key, "protocol_requirement") {
                    if protocol_requirement.is_some() {
                        return Err(
                            PluginExecutionDecodeError::DuplicateField { field: entries[i].0.clone() },
                        );
                    }
                    match &entries[i].1 {
                        JsonValue::String(_) => match unread.take() {
                            Some(requirement) => {
                                protocol_requirement = Some(requirement);
                            },
                            None => {
                                return Err(PluginExecutionDecodeError::InvalidProtocolRequirement);
                            },
                        },
                        _ => {
                            return Err(PluginExecutionDecodeError::InvalidProtocolRequirement);
                        },
                    }
                } else {
                    return Err(
                        PluginExecutionDecodeError::UnknownField { field: entries[i].0.clone() },
                    );
                }
            }
        }
        match (protocol_id, protocol_requirement) {
            (None, _) => Err(PluginExecutionDecodeError::MissingProtocolId),
            (Some(_), None) => Err(PluginExecutionDecodeError::MissingProtocolRequirement),
            (Some(protocol_id), Some(protocol_requirement)) => Ok(
                PluginExecution::IsolatedProcess { protocol_id, protocol_requirement },
            ),
        }
    }
}

} // verus!
