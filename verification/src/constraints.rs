//! Bounded, declarative permission constraint objects.
use vstd::prelude::*;

use crate::json::{
    JsonTree, JsonValue, encode_json, json_is_canonical, lemma_array_view, lemma_object_view,
    serde_json_encoding,
};
use crate::text::{has_no_control, is_bounded_label, is_bounded_label_text, is_short_control_free};

verus! {

/// Maximum encoded JSON bytes in one permission constraint object.
pub const MAX_PERMISSION_CONSTRAINT_BYTES: usize = 16 * 1024;

/// Maximum nesting below the root of one permission constraint object.
pub const MAX_PERMISSION_CONSTRAINT_DEPTH: usize = 8;

/// Maximum entries in one permission constraint object or array.
pub const MAX_PERMISSION_CONSTRAINT_COLLECTION_ITEMS: usize = 64;

/// Maximum nodes in one permission constraint tree.
pub const MAX_PERMISSION_CONSTRAINT_NODES: usize = 256;

/// Maximum Unicode scalar values in one permission constraint string.
pub const MAX_PERMISSION_CONSTRAINT_STRING_CHARS: usize = 1024;

/// Maximum Unicode scalar values in one permission constraint object key.
pub const MAX_PERMISSION_CONSTRAINT_KEY_CHARS: usize = 128;

/// Why a permission constraint object was rejected.
#[derive(Clone, Copy, Debug, Eq, PartialEq, Structural)]
pub enum PermissionConstraintsError {
    /// The top-level value was not an object.
    NotAnObject,
    /// The encoded object exceeded the wire-size limit.
    EncodedSizeExceeded,
    /// The object nested too deeply.
    DepthExceeded,
    /// One object or array had too many direct entries.
    CollectionItemsExceeded,
    /// The overall constraint tree had too many values.
    NodesExceeded,
    /// One object key was empty, padded, controlled, or too long.
    InvalidKey,
    /// One string value was controlled or too long.
    InvalidString,
}

/// The depth-first walk over one constraint node at nesting `depth`, after
/// `nodes` nodes have been counted: the first violation met, and the node count
/// after the walk. Object entries and array items are visited in order.
pub open spec fn constraint_node_walk(node: JsonTree, depth: int, nodes: int) -> (Result<
    (),
    PermissionConstraintsError,
>, int)
    decreases node, 0int,
{
    if depth > MAX_PERMISSION_CONSTRAINT_DEPTH {
        (Err(PermissionConstraintsError::DepthExceeded), nodes)
    } else if nodes + 1 > MAX_PERMISSION_CONSTRAINT_NODES {
        (Err(PermissionConstraintsError::NodesExceeded), nodes + 1)
    } else {
        match node {
            JsonTree::Object(entries) => {
                if entries.len() > MAX_PERMISSION_CONSTRAINT_COLLECTION_ITEMS {
                    (Err(PermissionConstraintsError::CollectionItemsExceeded), nodes + 1)
                } else {
                    constraint_entries_walk(entries, 0, depth + 1, nodes + 1)
                }
            },
            JsonTree::Array(items) => {
                if items.len() > MAX_PERMISSION_CONSTRAINT_COLLECTION_ITEMS {
                    (Err(PermissionConstraintsError::CollectionItemsExceeded), nodes + 1)
                } else {
                    constraint_items_walk(items, 0, depth + 1, nodes + 1)
                }
            },
            JsonTree::String(text) => {
                if text.len() <= MAX_PERMISSION_CONSTRAINT_STRING_CHARS && has_no_control(text) {
                    (Ok(()), nodes + 1)
                } else {
                    (Err(PermissionConstraintsError::InvalidString), nodes + 1)
                }
            },
            _ => (Ok(()), nodes + 1),
        }
    }
}

/// The walk over object entries `i..` at nesting `depth`: each key must be a
/// bounded label before its value is walked.
pub open spec fn constraint_entries_walk(
    entries: Seq<(Seq<char>, JsonTree)>,
    i: int,
    depth: int,
    nodes: int,
) -> (Result<(), PermissionConstraintsError>, int)
    decreases entries, entries.len() - i,
{
    if i < 0 || i >= entries.len() {
        (Ok(()), nodes)
    } else if !is_bounded_label(entries[i].0, MAX_PERMISSION_CONSTRAINT_KEY_CHARS as nat) {
        (Err(PermissionConstraintsError::InvalidKey), nodes)
    } else {
        let (r, n) = constraint_node_walk(entries[i].1, depth, nodes);
        if r is Err {
            (r, n)
        } else {
            constraint_entries_walk(entries, i + 1, depth, n)
        }
    }
}

/// The walk over array items `i..` at nesting `depth`.
pub open spec fn constraint_items_walk(items: Seq<JsonTree>, i: int, depth: int, nodes: int) -> (Result<
    (),
    PermissionConstraintsError,
>, int)
    decreases items, items.len() - i,
{
    if i < 0 || i >= items.len() {
        (Ok(()), nodes)
    } else {
        let (r, n) = constraint_node_walk(items[i], depth, nodes);
        if r is Err {
            (r, n)
        } else {
            constraint_items_walk(items, i + 1, depth, n)
        }
    }
}

/// The verdict on a permission constraint value whose serde_json encoding is
/// `encoding`: it must be an object, encode to at most
/// [`MAX_PERMISSION_CONSTRAINT_BYTES`] bytes, and pass the depth-first walk.
pub open spec fn permission_constraints_verdict(
    value: JsonTree,
    encoding: Option<Seq<u8>>,
) -> Result<(), PermissionConstraintsError> {
    if !(value is Object) {
        Err(PermissionConstraintsError::NotAnObject)
    } else if encoding is None || encoding->0.len() > MAX_PERMISSION_CONSTRAINT_BYTES {
        Err(PermissionConstraintsError::EncodedSizeExceeded)
    } else {
        constraint_node_walk(value, 0, 0).0
    }
}

/// The encoding bytes of an encoding result.
pub open spec fn encoding_bytes(encoded: Option<Vec<u8>>) -> Option<Seq<u8>> {
    match encoded {
        Some(bytes) => Some(bytes@),
        None => None,
    }
}

/// The number of nodes in `node`: itself and everything nested in it.
pub open spec fn tree_node_count(node: JsonTree) -> int
    decreases node, 0int,
{
    match node {
        JsonTree::Object(entries) => 1 + entries_node_count(entries, 0),
        JsonTree::Array(items) => 1 + items_node_count(items, 0),
        _ => 1,
    }
}

/// The number of nodes in the values of `entries[i..]`.
pub open spec fn entries_node_count(entries: Seq<(Seq<char>, JsonTree)>, i: int) -> int
    decreases entries, entries.len() - i,
{
    if i < 0 || i >= entries.len() {
        0
    } else {
        tree_node_count(entries[i].1) + entries_node_count(entries, i + 1)
    }
}

/// The number of nodes in `items[i..]`.
pub open spec fn items_node_count(items: Seq<JsonTree>, i: int) -> int
    decreases items, items.len() - i,
{
    if i < 0 || i >= items.len() {
        0
    } else {
        tree_node_count(items[i]) + items_node_count(items, i + 1)
    }
}

/// `node`, placed at nesting `depth`, keeps every bound but the node count:
/// no node deeper than [`MAX_PERMISSION_CONSTRAINT_DEPTH`], no object or array
/// with more than [`MAX_PERMISSION_CONSTRAINT_COLLECTION_ITEMS`] entries, every
/// key a bounded label, every string short and free of control characters.
pub open spec fn tree_fits(node: JsonTree, depth: int) -> bool
    decreases node, 0int,
{
    &&& depth <= MAX_PERMISSION_CONSTRAINT_DEPTH
    &&& match node {
        JsonTree::Object(entries) => entries.len() <= MAX_PERMISSION_CONSTRAINT_COLLECTION_ITEMS
            && entries_fit(entries, 0, depth + 1),
        JsonTree::Array(items) => items.len() <= MAX_PERMISSION_CONSTRAINT_COLLECTION_ITEMS
            && items_fit(items, 0, depth + 1),
        JsonTree::String(text) => text.len() <= MAX_PERMISSION_CONSTRAINT_STRING_CHARS
            && has_no_control(text),
        _ => true,
    }
}

/// Every entry of `entries[i..]` has a bounded-label key and a value that fits at `depth`.
pub open spec fn entries_fit(entries: Seq<(Seq<char>, JsonTree)>, i: int, depth: int) -> bool
    decreases entries, entries.len() - i,
{
    i < 0 || i >= entries.len() || (is_bounded_label(
        entries[i].0,
        MAX_PERMISSION_CONSTRAINT_KEY_CHARS as nat,
    ) && tree_fits(entries[i].1, depth) && entries_fit(entries, i + 1, depth))
}

/// Every item of `items[i..]` fits at `depth`.
pub open spec fn items_fit(items: Seq<JsonTree>, i: int, depth: int) -> bool
    decreases items, items.len() - i,
{
    i < 0 || i >= items.len() || (tree_fits(items[i], depth) && items_fit(items, i + 1, depth))
}

/// The walk over a node succeeds exactly when the node fits at its depth and
/// its nodes fit within the node budget; it then counts every node once.
pub proof fn lemma_node_walk(node: JsonTree, depth: int, nodes: int)
    ensures
        tree_node_count(node) >= 1,
        (constraint_node_walk(node, depth, nodes).0 is Ok) == (tree_fits(node, depth) && nodes
            + tree_node_count(node) <= MAX_PERMISSION_CONSTRAINT_NODES),
        constraint_node_walk(node, depth, nodes).0 is Ok ==> constraint_node_walk(
            node,
            depth,
            nodes,
        ).1 == nodes + tree_node_count(node),
    decreases node, 0int,
{
    match node {
        JsonTree::Object(entries) => {
            lemma_entries_walk(entries, 0, depth + 1, nodes + 1);
        },
        JsonTree::Array(items) => {
            lemma_items_walk(items, 0, depth + 1, nodes + 1);
        },
        _ => {},
    }
}

/// The walk over `entries[i..]` succeeds exactly when they fit and their nodes
/// fit within the node budget; it then counts each of their nodes once.
pub proof fn lemma_entries_walk(
    entries: Seq<(Seq<char>, JsonTree)>,
    i: int,
    depth: int,
    nodes: int,
)
    ensures
        entries_node_count(entries, i) >= 0,
        nodes <= MAX_PERMISSION_CONSTRAINT_NODES ==> (constraint_entries_walk(entries, i, depth, nodes).0 is Ok) == (entries_fit(
            entries,
            i,
            depth,
        ) && nodes + entries_node_count(entries, i) <= MAX_PERMISSION_CONSTRAINT_NODES),
        constraint_entries_walk(entries, i, depth, nodes).0 is Ok ==> constraint_entries_walk(
            entries,
            i,
            depth,
            nodes,
        ).1 == nodes + entries_node_count(entries, i),
    decreases entries, entries.len() - i,
{
    if 0 <= i < entries.len() {
        lemma_node_walk(entries[i].1, depth, nodes);
        let child = constraint_node_walk(entries[i].1, depth, nodes);
        lemma_entries_walk(entries, i + 1, depth, child.1);
    }
}

/// The walk over `items[i..]` succeeds exactly when they fit and their nodes fit
/// within the node budget; it then counts each of their nodes once.
pub proof fn lemma_items_walk(items: Seq<JsonTree>, i: int, depth: int, nodes: int)
    ensures
        items_node_count(items, i) >= 0,
        nodes <= MAX_PERMISSION_CONSTRAINT_NODES ==> (constraint_items_walk(items, i, depth, nodes).0 is Ok) == (items_fit(items, i, depth)
            && nodes + items_node_count(items, i) <= MAX_PERMISSION_CONSTRAINT_NODES),
        constraint_items_walk(items, i, depth, nodes).0 is Ok ==> constraint_items_walk(
            items,
            i,
            depth,
            nodes,
        ).1 == nodes + items_node_count(items, i),
    decreases items, items.len() - i,
{
    if 0 <= i < items.len() {
        lemma_node_walk(items[i], depth, nodes);
        let child = constraint_node_walk(items[i], depth, nodes);
        lemma_items_walk(items, i + 1, depth, child.1);
    }
}

/// The walk never lowers the node count, and from a count within the node
/// budget it stops at one past the budget exactly when it reports
/// [`PermissionConstraintsError::NodesExceeded`].
pub proof fn lemma_walk_counter(node: JsonTree, depth: int, nodes: int)
    ensures
        nodes <= constraint_node_walk(node, depth, nodes).1,
        nodes <= MAX_PERMISSION_CONSTRAINT_NODES ==> constraint_node_walk(node, depth, nodes).1
            <= MAX_PERMISSION_CONSTRAINT_NODES + 1,
        nodes <= MAX_PERMISSION_CONSTRAINT_NODES ==> (constraint_node_walk(node, depth, nodes).0
            == Err::<(), PermissionConstraintsError>(PermissionConstraintsError::NodesExceeded)
            <==> constraint_node_walk(node, depth, nodes).1 == MAX_PERMISSION_CONSTRAINT_NODES
            + 1),
    decreases node, 0int,
{
    match node {
        JsonTree::Object(entries) => {
            lemma_entries_counter(entries, 0, depth + 1, nodes + 1);
        },
        JsonTree::Array(items) => {
            lemma_items_counter(items, 0, depth + 1, nodes + 1);
        },
        _ => {},
    }
}

/// [`lemma_walk_counter`] for object entries.
pub proof fn lemma_entries_counter(
    entries: Seq<(Seq<char>, JsonTree)>,
    i: int,
    depth: int,
    nodes: int,
)
    ensures
        nodes <= constraint_entries_walk(entries, i, depth, nodes).1,
        nodes <= MAX_PERMISSION_CONSTRAINT_NODES ==> constraint_entries_walk(
            entries,
            i,
            depth,
            nodes,
        ).1 <= MAX_PERMISSION_CONSTRAINT_NODES + 1,
        nodes <= MAX_PERMISSION_CONSTRAINT_NODES ==> (constraint_entries_walk(
            entries,
            i,
            depth,
            nodes,
        ).0 == Err::<(), PermissionConstraintsError>(PermissionConstraintsError::NodesExceeded)
            <==> constraint_entries_walk(entries, i, depth, nodes).1
            == MAX_PERMISSION_CONSTRAINT_NODES + 1),
    decreases entries, entries.len() - i,
{
    if 0 <= i < entries.len() {
        lemma_walk_counter(entries[i].1, depth, nodes);
        let child = constraint_node_walk(entries[i].1, depth, nodes);
        lemma_entries_counter(entries, i + 1, depth, child.1);
    }
}

/// [`lemma_walk_counter`] for array items.
pub proof fn lemma_items_counter(items: Seq<JsonTree>, i: int, depth: int, nodes: int)
    ensures
        nodes <= constraint_items_walk(items, i, depth, nodes).1,
        nodes <= MAX_PERMISSION_CONSTRAINT_NODES ==> constraint_items_walk(items, i, depth, nodes).1
            <= MAX_PERMISSION_CONSTRAINT_NODES + 1,
        nodes <= MAX_PERMISSION_CONSTRAINT_NODES ==> (constraint_items_walk(items, i, depth, nodes).0
            == Err::<(), PermissionConstraintsError>(PermissionConstraintsError::NodesExceeded)
            <==> constraint_items_walk(items, i, depth, nodes).1 == MAX_PERMISSION_CONSTRAINT_NODES
            + 1),
    decreases items, items.len() - i,
{
    if 0 <= i < items.len() {
        lemma_walk_counter(items[i], depth, nodes);
        let child = constraint_node_walk(items[i], depth, nodes);
        lemma_items_counter(items, i + 1, depth, child.1);
    }
}

/// Permission constraints are accepted exactly when they form a JSON object
/// that serde_json encodes in at most [`MAX_PERMISSION_CONSTRAINT_BYTES`] bytes,
/// nests at most [`MAX_PERMISSION_CONSTRAINT_DEPTH`] levels below the root, has
/// at most [`MAX_PERMISSION_CONSTRAINT_NODES`] nodes, no object or array with
/// more than [`MAX_PERMISSION_CONSTRAINT_COLLECTION_ITEMS`] entries, only
/// bounded-label keys, and only short, control-free strings. Which violation
/// is reported depends on the visiting order; whether one is reported does not.
pub proof fn law_permission_constraints_are_bounded(value: JsonTree, encoding: Option<Seq<u8>>)
    ensures
        (permission_constraints_verdict(value, encoding) is Ok) == (value is Object
            && encoding is Some && encoding->0.len() <= MAX_PERMISSION_CONSTRAINT_BYTES
            && tree_fits(value, 0) && tree_node_count(value) <= MAX_PERMISSION_CONSTRAINT_NODES),
{
    lemma_node_walk(value, 0, 0);
}

/// Walks one constraint node at nesting `depth`, counting it in `nodes`. A
/// node below the depth bound is rejected before it is counted.
pub fn validate_permission_node(value: &JsonValue, depth: usize, nodes: &mut usize) -> (r: Result<
    (),
    PermissionConstraintsError,
>)
    requires
        depth > MAX_PERMISSION_CONSTRAINT_DEPTH || *old(nodes) < usize::MAX,
    ensures
        r == constraint_node_walk(value@, depth as int, *old(nodes) as int).0,
        *final(nodes) == constraint_node_walk(value@, depth as int, *old(nodes) as int).1,
        *old(nodes) <= *final(nodes),
        (r is Ok) == (tree_fits(value@, depth as int) && *old(nodes) + tree_node_count(value@)
            <= MAX_PERMISSION_CONSTRAINT_NODES),
        r is Ok ==> *final(nodes) == *old(nodes) + tree_node_count(value@),
        r is Ok ==> *final(nodes) <= MAX_PERMISSION_CONSTRAINT_NODES,
        *old(nodes) <= MAX_PERMISSION_CONSTRAINT_NODES ==> *final(nodes)
            <= MAX_PERMISSION_CONSTRAINT_NODES + 1 && (r == Err::<(), PermissionConstraintsError>(
            PermissionConstraintsError::NodesExceeded,
        ) <==> *final(nodes) == MAX_PERMISSION_CONSTRAINT_NODES + 1),
    decreases value,
{
    proof {
        lemma_node_walk(value@, depth as int, *old(nodes) as int);
        lemma_walk_counter(value@, depth as int, *old(nodes) as int);
    }
    if depth > MAX_PERMISSION_CONSTRAINT_DEPTH {
        return Err(PermissionConstraintsError::DepthExceeded);
    }
    *nodes = *nodes + 1;
    if *nodes > MAX_PERMISSION_CONSTRAINT_NODES {
        return Err(PermissionConstraintsError::NodesExceeded);
    }
    match value {
        JsonValue::Object(entries) => {
            proof {
                lemma_object_view(*entries);
            }
            let ghost trees = value@->Object_0;
            if entries.len() > MAX_PERMISSION_CONSTRAINT_COLLECTION_ITEMS {
                return Err(PermissionConstraintsError::CollectionItemsExceeded);
            }
            let ghost start = *nodes as int;
            for i in 0..entries.len()
                invariant
                    trees.len() == entries@.len(),
                    forall|k: int|
                        0 <= k < entries@.len() ==> #[trigger] trees[k] == (
                            entries@[k].0@,
                            entries@[k].1@,
                        ),
                    *old(nodes) <= *nodes <= MAX_PERMISSION_CONSTRAINT_NODES,
                    (constraint_node_walk(value@, depth as int, *old(nodes) as int).0 is Ok) == (
                    tree_fits(value@, depth as int) && *old(nodes) + tree_node_count(value@)
                        <= MAX_PERMISSION_CONSTRAINT_NODES),
                    depth <= MAX_PERMISSION_CONSTRAINT_DEPTH,
                    constraint_entries_walk(trees, 0, depth + 1, start) == constraint_entries_walk(
                        trees,
                        i as int,
                        depth + 1,
                        *nodes as int,
                    ),
                    decreases_to!(*value => *entries),
                    constraint_node_walk(value@, depth as int, *old(nodes) as int)
                        == constraint_entries_walk(trees, 0, depth + 1, start),
            {
                if !is_bounded_label_text(entries[i].0.as_str(), MAX_PERMISSION_CONSTRAINT_KEY_CHARS) {
                    return Err(PermissionConstraintsError::InvalidKey);
                }
                assert(decreases_to!(*entries => entries[i as int]));
                assert(decreases_to!(entries[i as int] => entries[i as int].1));
                assert(trees[i as int] == (entries@[i as int].0@, entries@[i as int].1@));
                validate_permission_node(&entries[i].1, depth + 1, nodes)?;
            }
            Ok(())
        },
        JsonValue::Array(items) => {
            proof {
                lemma_array_view(*items);
            }
            let ghost trees = value@->Array_0;
            if items.len() > MAX_PERMISSION_CONSTRAINT_COLLECTION_ITEMS {
                return Err(PermissionConstraintsError::CollectionItemsExceeded);
            }
            let ghost start = *nodes as int;
            for i in 0..items.len()
                invariant
                    trees.len() == items@.len(),
                    forall|k: int| 0 <= k < items@.len() ==> #[trigger] trees[k] == items@[k]@,
                    *old(nodes) <= *nodes <= MAX_PERMISSION_CONSTRAINT_NODES,
                    (constraint_node_walk(value@, depth as int, *old(nodes) as int).0 is Ok) == (
                    tree_fits(value@, depth as int) && *old(nodes) + tree_node_count(value@)
                        <= MAX_PERMISSION_CONSTRAINT_NODES),
                    depth <= MAX_PERMISSION_CONSTRAINT_DEPTH,
                    constraint_items_walk(trees, 0, depth + 1, start) == constraint_items_walk(
                        trees,
                        i as int,
                        depth + 1,
                        *nodes as int,
                    ),
                    decreases_to!(*value => *items),
                    constraint_node_walk(value@, depth as int, *old(nodes) as int)
                        == constraint_items_walk(trees, 0, depth + 1, start),
            {
                assert(decreases_to!(*items => items[i as int]));
                assert(trees[i as int] == items@[i as int]@);
                validate_permission_node(&items[i], depth + 1, nodes)?;
            }
            Ok(())
        },
        JsonValue::String(text) => {
            if is_short_control_free(text.as_str(), MAX_PERMISSION_CONSTRAINT_STRING_CHARS) {
                Ok(())
            } else {
                Err(PermissionConstraintsError::InvalidString)
            }
        },
        _ => Ok(()),
    }
}

/// Checks a permission constraint value against the bounds, given the result
/// of encoding it with serde_json. The value is in serde_json's form (see
/// [`JsonValue::is_canonical`]), so its object entries are walked in the
/// ascending key order of serde_json's map.
pub fn validate_encoded_permission_constraints(
    value: &JsonValue,
    encoded: &Option<Vec<u8>>,
) -> (r: Result<(), PermissionConstraintsError>)
    requires
        json_is_canonical(value@),
    ensures
        r == permission_constraints_verdict(value@, encoding_bytes(*encoded)),
{
    if !matches!(value, JsonValue::Object(_)) {
        return Err(PermissionConstraintsError::NotAnObject);
    }
    match encoded {
        None => {
            return Err(PermissionConstraintsError::EncodedSizeExceeded);
        },
        Some(bytes) => {
            if bytes.len() > MAX_PERMISSION_CONSTRAINT_BYTES {
                return Err(PermissionConstraintsError::EncodedSizeExceeded);
            }
        },
    }
    let mut nodes: usize = 0;
    validate_permission_node(value, 0, &mut nodes)
}

/// Checks a permission constraint value: it must be a JSON object of at most
/// [`MAX_PERMISSION_CONSTRAINT_BYTES`] encoded bytes whose tree respects the
/// depth, collection, node, key and string bounds. The value is in serde_json's
/// form (see [`JsonValue::is_canonical`]), so object entries are walked in the
/// ascending key order of serde_json's map.
pub fn validate_permission_constraints(value: &JsonValue) -> (r: Result<
    (),
    PermissionConstraintsError,
>)
    requires
        json_is_canonical(value@),
    ensures
        r == permission_constraints_verdict(value@, serde_json_encoding(value@)),
{
    if !matches!(value, JsonValue::Object(_)) {
        return Err(PermissionConstraintsError::NotAnObject);
    }
    let encoded = encode_json(value);
    validate_encoded_permission_constraints(value, &encoded)
}

/// A bounded, declarative JSON object that narrows a permission request.
///
/// The object is data, not an authority token. A host may reject it or issue a
/// narrower grant. It must never contain credentials or executable commands.
#[derive(Debug, Eq, PartialEq)]
pub struct PermissionConstraints(JsonValue);

impl View for PermissionConstraints {
    type V = JsonTree;

    closed spec fn view(&self) -> JsonTree {
        self.0@
    }
}

impl PermissionConstraints {
    #[verifier::type_invariant]
    spec fn well_formed(self) -> bool {
        self.0@ is Object && json_is_canonical(self.0@) && constraint_node_walk(self.0@, 0, 0).0 is Ok
    }

    /// Validates `value` with [`validate_permission_constraints`] and wraps it.
    /// The value is in serde_json's form (see [`JsonValue::is_canonical`]).
    pub fn try_from(value: JsonValue) -> (r: Result<Self, PermissionConstraintsError>)
        requires
            json_is_canonical(value@),
        ensures
            match r {
                Ok(constraints) => constraints@ == value@ && permission_constraints_verdict(
                    value@,
                    serde_json_encoding(value@),
                ) is Ok,
                Err(e) => permission_constraints_verdict(value@, serde_json_encoding(value@))
                    == Err::<(), PermissionConstraintsError>(e),
            },
    {
        validate_permission_constraints(&value)?;
        Ok(PermissionConstraints(value))
    }

    /// Returns the validated constraint object.
    pub fn as_value(&self) -> (r: &JsonValue)
        ensures
            r@ == self@,
            r@ is Object,
            json_is_canonical(r@),
            constraint_node_walk(r@, 0, 0).0 is Ok,
    {
        proof {
            use_type_invariant(self);
        }
        &self.0
    }

    /// Consumes this wrapper and returns its JSON object.
    pub fn into_value(self) -> (r: JsonValue)
        ensures
            r@ == self@,
    {
        self.0
    }
}

impl Default for PermissionConstraints {
    fn default() -> (r: Self)
        ensures
            r@ == JsonTree::Object(Seq::empty()),
    {
        let entries: Vec<(String, JsonValue)> = Vec::new();
        proof {
            lemma_object_view(entries);
            assert(JsonValue::Object(entries)@->Object_0 =~= Seq::empty());
        }
        PermissionConstraints(JsonValue::Object(entries))
    }
}

impl Clone for PermissionConstraints {
    fn clone(&self) -> (r: Self)
        ensures
            r@ == self@,
    {
        proof {
            use_type_invariant(self);
        }
        PermissionConstraints(self.0.clone())
    }
}

} // verus!
