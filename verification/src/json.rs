use serde_json::Value;
use vstd::prelude::*;

verus! {

/// A JSON value as serde_json holds it. Numbers are kept as the text that
/// serde_json writes for them. Object entries are kept in the order they are
/// given. A value read from serde_json has its map's order: keys ascending,
/// none twice ([`JsonValue::is_canonical`]); the checks that follow serde_json's
/// handling of objects ask for values in that form.
#[derive(Debug, PartialEq, Eq)]
pub enum JsonValue {
    /// `null`.
    Null,
    /// `true` or `false`.
    Bool(bool),
    /// A number, as its JSON text (for example `42`, `-7` or `1.5`).
    Number(String),
    /// A string.
    String(String),
    /// An array.
    Array(Vec<JsonValue>),
    /// An object, as its key/value entries.
    Object(Vec<(String, JsonValue)>),
}

/// The mathematical content of a [`JsonValue`]: texts as character sequences
/// and collections as sequences.
pub enum JsonTree {
    Null,
    Bool(bool),
    Number(Seq<char>),
    String(Seq<char>),
    Array(Seq<JsonTree>),
    Object(Seq<(Seq<char>, JsonTree)>),
}

/// The content of `value`.
pub open spec fn json_tree(value: JsonValue) -> JsonTree
    decreases value, 0int,
{
    match value {
        JsonValue::Null => JsonTree::Null,
        JsonValue::Bool(b) => JsonTree::Bool(b),
        JsonValue::Number(text) => JsonTree::Number(text@),
        JsonValue::String(text) => JsonTree::String(text@),
        JsonValue::Array(items) => JsonTree::Array(item_trees(items@, items@.len() as int)),
        JsonValue::Object(entries) => JsonTree::Object(
            entry_trees(entries@, entries@.len() as int),
        ),
    }
}

/// The contents of the first `n` values of `items`.
pub open spec fn item_trees(items: Seq<JsonValue>, n: int) -> Seq<JsonTree>
    decreases items, n,
{
    if n <= 0 || n > items.len() {
        Seq::empty()
    } else {
        item_trees(items, n - 1).push(json_tree(items[n - 1]))
    }
}

/// The contents of the first `n` entries of `entries`.
pub open spec fn entry_trees(entries: Seq<(String, JsonValue)>, n: int) -> Seq<(Seq<char>, JsonTree)>
    decreases entries, n,
{
    if n <= 0 || n > entries.len() {
        Seq::empty()
    } else {
        entry_trees(entries, n - 1).push((entries[n - 1].0@, json_tree(entries[n - 1].1)))
    }
}

impl View for JsonValue {
    type V = JsonTree;

    open spec fn view(&self) -> JsonTree {
        json_tree(*self)
    }
}

/// `item_trees` has one element per value, the content of that value.
pub proof fn lemma_item_trees(items: Seq<JsonValue>, n: int)
    requires
        0 <= n <= items.len(),
    ensures
        item_trees(items, n).len() == n,
        forall|k: int| 0 <= k < n ==> #[trigger] item_trees(items, n)[k] == json_tree(items[k]),
    decreases n,
{
    if n > 0 {
        lemma_item_trees(items, n - 1);
    }
}

/// `entry_trees` has one element per entry, its key text and the content of its value.
pub proof fn lemma_entry_trees(entries: Seq<(String, JsonValue)>, n: int)
    requires
        0 <= n <= entries.len(),
    ensures
        entry_trees(entries, n).len() == n,
        forall|k: int|
            0 <= k < n ==> #[trigger] entry_trees(entries, n)[k] == (
                entries[k].0@,
                json_tree(entries[k].1),
            ),
    decreases n,
{
    if n > 0 {
        lemma_entry_trees(entries, n - 1);
    }
}

/// The items of an array value are its contents, in order.
pub proof fn lemma_array_view(items: Vec<JsonValue>)
    ensures
        JsonValue::Array(items)@ matches JsonTree::Array(trees) && trees.len() == items@.len()
            && forall|k: int| 0 <= k < items@.len() ==> #[trigger] trees[k] == items@[k]@,
{
    lemma_item_trees(items@, items@.len() as int);
}

/// The entries of an object value are its key texts and value contents, in order.
pub proof fn lemma_object_view(entries: Vec<(String, JsonValue)>)
    ensures
        JsonValue::Object(entries)@ matches JsonTree::Object(trees) && trees.len()
            == entries@.len() && forall|k: int|
            0 <= k < entries@.len() ==> #[trigger] trees[k] == (
                entries@[k].0@,
                entries@[k].1@,
            ),
{
    lemma_entry_trees(entries@, entries@.len() as int);
}

/// `a` comes strictly before `b` in code-point order, comparing from position
/// `i` on. Code-point order is the order of `String`'s `Ord` (UTF-8 keeps it),
/// by which serde_json's map sorts its keys.
pub open spec fn text_precedes_from(a: Seq<char>, b: Seq<char>, i: int) -> bool
    decreases a.len() - i,
{
    if i < 0 {
        false
    } else if i >= a.len() {
        i < b.len()
    } else if i >= b.len() {
        false
    } else if a[i] != b[i] {
        (a[i] as u32) < (b[i] as u32)
    } else {
        text_precedes_from(a, b, i + 1)
    }
}

/// `a` comes strictly before `b` in code-point order.
pub open spec fn text_precedes(a: Seq<char>, b: Seq<char>) -> bool {
    text_precedes_from(a, b, 0)
}

/// Each key of `entries` comes strictly after the key before it: the keys
/// ascend and none occurs twice.
pub open spec fn keys_ascend(entries: Seq<(Seq<char>, JsonTree)>) -> bool {
    forall|i: int|
        0 <= i < entries.len() - 1 ==> text_precedes(#[trigger] entries[i].0, entries[i + 1].0)
}

/// `node` is in the form a serde_json value has: the keys of every object in
/// it ascend in code-point order, with no key twice.
pub open spec fn json_is_canonical(node: JsonTree) -> bool
    decreases node, 0int,
{
    match node {
        JsonTree::Object(entries) => keys_ascend(entries) && entries_canonical(entries, 0),
        JsonTree::Array(items) => items_canonical(items, 0),
        _ => true,
    }
}

/// The values of `entries[i..]` are in serde_json's form.
pub open spec fn entries_canonical(entries: Seq<(Seq<char>, JsonTree)>, i: int) -> bool
    decreases entries, entries.len() - i,
{
    if i < 0 || i >= entries.len() {
        true
    } else {
        json_is_canonical(entries[i].1) && entries_canonical(entries, i + 1)
    }
}

/// The values of `items[i..]` are in serde_json's form.
pub open spec fn items_canonical(items: Seq<JsonTree>, i: int) -> bool
    decreases items, items.len() - i,
{
    if i < 0 || i >= items.len() {
        true
    } else {
        json_is_canonical(items[i]) && items_canonical(items, i + 1)
    }
}

/// The characters of `text`.
fn text_chars(text: &str) -> (r: Vec<char>)
    ensures
        r@ == text@,
{
    let mut chars: Vec<char> = Vec::new();
    for c in it: text.chars()
        invariant
            it.seq() == text@,
            chars@ == text@.take(it.index() as int),
    {
        assert(text@.take(chars.len() + 1) == text@.take(chars.len() as int).push(c));
        chars.push(c);
    }
    assert(text@.take(text@.len() as int) == text@);
    chars
}

/// Whether `a` comes strictly before `b` in code-point order.
pub fn text_precedes_text(a: &str, b: &str) -> (r: bool)
    ensures
        r == text_precedes(a@, b@),
{
    let x = text_chars(a);
    let y = text_chars(b);
    let mut i: usize = 0;
    while i < x.len() && i < y.len()
        invariant
            x@ == a@,
            y@ == b@,
            i <= x.len(),
            i <= y.len(),
            text_precedes_from(a@, b@, 0) == text_precedes_from(a@, b@, i as int),
        decreases x.len() - i,
    {
        if x[i] != y[i] {
            return (x[i] as u32) < (y[i] as u32);
        }
        i = i + 1;
    }
    x.len() < y.len()
}

impl JsonValue {
    /// Whether this value is in the form a serde_json value has: the keys of
    /// every object in it ascend in code-point order, with no key twice.
    pub fn is_canonical(&self) -> (r: bool)
        ensures
            r == json_is_canonical(self@),
        decreases self,
    {
        match self {
            JsonValue::Array(items) => {
                proof {
                    lemma_array_view(*items);
                }
                let ghost trees = self@->Array_0;
                for i in 0..items.len()
                    invariant
                        self@ == JsonTree::Array(trees),
                        trees.len() == items@.len(),
                        forall|k: int| 0 <= k < items@.len() ==> #[trigger] trees[k] == items@[k]@,
                        items_canonical(trees, 0) == items_canonical(trees, i as int),
                        decreases_to!(*self => *items),
                {
                    assert(decreases_to!(*items => items[i as int]));
                    assert(trees[i as int] == items@[i as int]@);
                    if !items[i].is_canonical() {
                        return false;
                    }
                }
                true
            },
            JsonValue::Object(entries) => {
                proof {
                    lemma_object_view(*entries);
                }
                let ghost trees = self@->Object_0;
                for i in 0..entries.len()
                    invariant
                        self@ == JsonTree::Object(trees),
                        trees.len() == entries@.len(),
                        forall|k: int|
                            0 <= k < entries@.len() ==> #[trigger] trees[k] == (
                                entries@[k].0@,
                                entries@[k].1@,
                            ),
                        forall|k: int|
                            0 <= k < i - 1 ==> text_precedes(#[trigger] trees[k].0, trees[k + 1].0),
                        entries_canonical(trees, 0) == entries_canonical(trees, i as int),
                        decreases_to!(*self => *entries),
                {
                    assert(trees[i as int] == (entries@[i as int].0@, entries@[i as int].1@));
                    if i > 0 {
                        assert(trees[i - 1] == (entries@[i - 1].0@, entries@[i - 1].1@));
                        if !text_precedes_text(entries[i - 1].0.as_str(), entries[i].0.as_str()) {
                            assert(!text_precedes(trees[i - 1].0, trees[(i - 1) + 1].0));
                            return false;
                        }
                    }
                    assert(decreases_to!(*entries => entries[i as int]));
                    assert(decreases_to!(entries[i as int] => entries[i as int].1));
                    if !entries[i].1.is_canonical() {
                        return false;
                    }
                }
                true
            },
            _ => true,
        }
    }
}

/// A deep copy of `value`.
fn copy_json(value: &JsonValue) -> (r: JsonValue)
    ensures
        r@ == value@,
    decreases value,
{
    match value {
        JsonValue::Null => JsonValue::Null,
        JsonValue::Bool(b) => JsonValue::Bool(*b),
        JsonValue::Number(text) => JsonValue::Number(text.clone()),
        JsonValue::String(text) => JsonValue::String(text.clone()),
        JsonValue::Array(items) => {
            let mut copied: Vec<JsonValue> = Vec::new();
            for i in 0..items.len()
                invariant
                    copied@.len() == i,
                    forall|k: int| 0 <= k < i ==> (#[trigger] copied@[k])@ == items@[k]@,
                    decreases_to!(*value => *items),
            {
                assert(decreases_to!(*items => items[i as int]));
                assert(decreases_to!(*value => items[i as int]));
                copied.push(copy_json(&items[i]));
            }
            proof {
                lemma_array_view(copied);
                lemma_array_view(*items);
                let (a, b) = (JsonValue::Array(copied)@, value@);
                assert(a->Array_0 =~= b->Array_0);
            }
            JsonValue::Array(copied)
        },
        JsonValue::Object(entries) => {
            let mut copied: Vec<(String, JsonValue)> = Vec::new();
            for i in 0..entries.len()
                invariant
                    copied@.len() == i,
                    forall|k: int|
                        0 <= k < i ==> (#[trigger] copied@[k]).0@ == entries@[k].0@
                            && copied@[k].1@ == entries@[k].1@,
                    decreases_to!(*value => *entries),
            {
                assert(decreases_to!(*entries => entries[i as int]));
                assert(decreases_to!(entries[i as int] => entries[i as int].1));
                assert(decreases_to!(*value => entries[i as int].1));
                let item = copy_json(&entries[i].1);
                copied.push((entries[i].0.clone(), item));
            }
            proof {
                lemma_object_view(copied);
                lemma_object_view(*entries);
                let (a, b) = (JsonValue::Object(copied)@, value@);
                assert(a->Object_0 =~= b->Object_0);
            }
            JsonValue::Object(copied)
        },
    }
}

impl Clone for JsonValue {
    fn clone(&self) -> (r: Self)
        ensures
            r@ == self@,
    {
        copy_json(self)
    }
}

/// The bytes that `serde_json::to_vec` produces for the serde_json value that
/// `value` describes; `None` where serde_json does not read a number text as a
/// number or the encoding fails.
pub uninterp spec fn serde_json_encoding(value: JsonTree) -> Option<Seq<u8>>;

/// Encodes `value` with `serde_json::to_vec`. The contract claims only that
/// the result is the one named by [`serde_json_encoding`] for this value.
#[verifier::external_body]
pub(crate) fn encode_json(value: &JsonValue) -> (r: Option<Vec<u8>>)
    ensures
        r matches Some(bytes) ==> serde_json_encoding(value@) == Some(bytes@),
        r is None ==> serde_json_encoding(value@) is None,
{
    to_serde_value(value).and_then(|converted| serde_json::to_vec(&converted).ok())
}

/// serde_json's own value type; it appears only as the result of [`to_serde_value`].
#[verifier::external_type_specification]
#[verifier::external_body]
pub struct ExSerdeJsonValue(Value);

/// Builds the `serde_json::Value` that `value` describes, reading number texts
/// with serde_json's number parser; `None` where one is not a JSON number.
#[verifier::external_body]
fn to_serde_value(value: &JsonValue) -> Option<Value> {
    Some(match value {
        JsonValue::Null => Value::Null,
        JsonValue::Bool(b) => Value::Bool(*b),
        JsonValue::Number(text) => Value::Number(text.parse().ok()?),
        JsonValue::String(text) => Value::String(text.clone()),
        JsonValue::Array(items) => Value::Array(items.iter().map(to_serde_value).collect::<Option<_>>()?),
        JsonValue::Object(entries) => Value::Object(
            entries.iter().map(|(key, item)| Some((key.clone(), to_serde_value(item)?))).collect::<Option<_>>()?,
        ),
    })
}

} // verus!
