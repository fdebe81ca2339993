use serde_json::Value;
use vstd::prelude::*;

verus! {

/// The key under which per-call metadata that is not an object is kept.
pub const VALUE_KEY: &'static str = "value";

/// The fields of a JSON object, as `serde_json` keeps them: each key once.
#[verifier::external_type_specification]
#[verifier::external_body]
#[verifier::reject_recursive_types(K)]
#[verifier::reject_recursive_types(V)]
pub struct ExJsonMap<K, V>(serde_json::Map<K, V>);

/// The fields of a JSON object.
pub type JsonFields = serde_json::Map<String, Value>;

/// What a `serde_json::Map` holds: the value of each of its keys.
pub uninterp spec fn json_fields(fields: JsonFields) -> Map<Seq<char>, Value>;

/// An empty map: `serde_json::Map::new`.
#[verifier::external_body]
pub(crate) fn empty_fields() -> (r: JsonFields)
    ensures
        (json_fields(r) == Map::<Seq<char>, Value>::empty()),
{
    serde_json::Map::new()
}

/// Sets the field `key` to `value`: `serde_json::Map::insert`, which replaces the value of
/// an existing key and adds a new key otherwise. The value it hands back is not used.
#[verifier::external_body]
pub(crate) fn set_field(fields: &mut JsonFields, key: String, value: Value)
    ensures
        json_fields(*final(fields)) == json_fields(*old(fields)).insert(key@, value),
{
    let _ = fields.insert(key, value);
}

/// Takes the field `key` out: `serde_json::Map::remove`, which removes the key and hands
/// back its value, or `None` when the key is absent.
#[verifier::external_body]
pub(crate) fn take_field(fields: &mut JsonFields, key: &str) -> (r: Option<
    Value,
>)
    ensures
        json_fields(*final(fields)) == json_fields(*old(fields)).remove(key@),
        r == (if json_fields(*old(fields)).contains_key(key@) {
            Some(json_fields(*old(fields))[key@])
        } else {
            None
        }),
{
    fields.remove(key)
}

/// Whether the map holds no field: `serde_json::Map::is_empty`.
#[verifier::external_body]
fn has_no_fields(fields: &JsonFields) -> (r: bool)
    ensures
        r == (json_fields(*fields) == Map::<Seq<char>, Value>::empty()),
{
    fields.is_empty()
}

/// The fields of a map as a list: `serde_json::Map::into_iter`, collected. The contract
/// claims that setting the listed fields one after the other gives exactly what the map holds
/// (each key of the map comes out once, with its value); it says nothing of their order.
#[verifier::external_body]
fn field_list(fields: JsonFields) -> (r: Vec<(String, Value)>)
    ensures
        fields_map(r@) == json_fields(fields),
{
    fields.into_iter().collect()
}

/// The JSON object that [`object_value`] builds from a map.
pub uninterp spec fn json_object(fields: JsonFields) -> Value;

/// A JSON object with the given fields: `serde_json::Value::Object`. The contract names the
/// result `json_object(fields)`; it says nothing more of it.
#[verifier::external_body]
pub(crate) fn object_value(fields: JsonFields) -> (r: Value)
    ensures
        r == json_object(fields),
{
    Value::Object(fields)
}

/// The top-level form of a metadata value, which is all that merging looks at.
#[derive(Debug)]
pub enum MetadataShape {
    /// `null`: contributes nothing.
    Null,
    /// An object, with its fields.
    Object(JsonFields),
    /// Any other value (a string, a number, a boolean or an array).
    Other(Value),
}

/// The fields after inserting `entries` one after the other into `base`; a later entry
/// replaces an earlier field with the same key.
pub open spec fn insert_all(base: Map<Seq<char>, Value>, entries: Seq<(String, Value)>) -> Map<
    Seq<char>,
    Value,
>
    decreases entries.len(),
{
    if entries.len() == 0 {
        base
    } else {
        insert_all(base, entries.drop_last()).insert(entries.last().0@, entries.last().1)
    }
}

/// The fields that a list of key and value pairs sets, a later pair winning over an earlier
/// one with the same key.
pub open spec fn fields_map(entries: Seq<(String, Value)>) -> Map<Seq<char>, Value> {
    insert_all(Map::empty(), entries)
}

/// Inserting a list of fields into `base` is `base` with the fields of the list on top.
proof fn lemma_insert_all_on_top(base: Map<Seq<char>, Value>, entries: Seq<(String, Value)>)
    ensures
        insert_all(base, entries) == base.union_prefer_right(fields_map(entries)),
    decreases entries.len(),
{
    if entries.len() == 0 {
        assert(base.union_prefer_right(Map::empty()) =~= base);
    } else {
        lemma_insert_all_on_top(base, entries.drop_last());
        lemma_insert_all_on_top(Map::empty(), entries.drop_last());
        assert(Map::<Seq<char>, Value>::empty().union_prefer_right(fields_map(entries.drop_last()))
            =~= fields_map(entries.drop_last()));
        assert(insert_all(base, entries) =~= base.union_prefer_right(fields_map(entries)));
    }
}

/// Sets the fields `entries` one after the other.
pub(crate) fn insert_fields(fields: &mut JsonFields, entries: Vec<(String, Value)>)
    ensures
        json_fields(*final(fields)) == insert_all(json_fields(*old(fields)), entries@),
{
    let ghost base = json_fields(*fields);
    for entry in it: entries
        invariant
            base == json_fields(*old(fields)),
            it.seq() == entries@,
            json_fields(*fields) == insert_all(base, it.seq().take(it.index() as int)),
    {
        let ghost done = it.seq().take(it.index() as int);
        let (key, value) = entry;
        set_field(fields, key, value);
        proof {
            let next = it.seq().take(it.index() + 1);
            assert(next.drop_last() =~= done);
        }
    }
    assert(entries@.take(entries@.len() as int) =~= entries@);
}

/// The fields of an entry's metadata: the fields of the global metadata when it is an object,
/// then the per-call metadata on top: the fields of an object replace global fields with the
/// same key, `null` adds nothing, and any other value is kept under `"value"`. `None` for
/// the per-call metadata means that it could not be serialized; it then adds nothing.
pub open spec fn merged_fields(
    global: Option<MetadataShape>,
    per_call: Option<MetadataShape>,
) -> Map<Seq<char>, Value> {
    let base = match global {
        Some(MetadataShape::Object(fields)) => json_fields(fields),
        _ => Map::empty(),
    };
    match per_call {
        Some(MetadataShape::Object(fields)) => base.union_prefer_right(json_fields(fields)),
        Some(MetadataShape::Other(v)) => base.insert(VALUE_KEY@, v),
        _ => base,
    }
}

/// The fields of an entry's metadata (see [`merged_fields`]): the global object's map, or a
/// new one, with the per-call fields inserted one by one.
pub fn merge_fields(global: Option<MetadataShape>, per_call: Option<MetadataShape>) -> (r:
    JsonFields)
    ensures
        json_fields(r) == merged_fields(global, per_call),
{
    let mut fields = match global {
        Some(MetadataShape::Object(fields)) => fields,
        _ => empty_fields(),
    };
    match per_call {
        Some(MetadataShape::Object(object)) => {
            let entries = field_list(object);
            let ghost base = json_fields(fields);
            insert_fields(&mut fields, entries);
            proof {
                lemma_insert_all_on_top(base, entries@);
            }
        },
        Some(MetadataShape::Other(v)) => {
            set_field(&mut fields, VALUE_KEY.to_owned(), v);
        },
        _ => {},
    }
    fields
}

/// The top-level form that [`shape_of`] gives for a JSON value.
pub uninterp spec fn json_shape(value: Value) -> MetadataShape;

/// The top-level form of a JSON value: matches on the variants of `serde_json::Value`, one
/// arm each, and moves an object's map out. The contract names the result
/// `json_shape(value)`; it says nothing more of it.
#[verifier::external_body]
fn shape_of(value: Value) -> (r: MetadataShape)
    ensures
        r == json_shape(value),
{
    match value {
        Value::Null => MetadataShape::Null,
        Value::Object(fields) => MetadataShape::Object(fields),
        other => MetadataShape::Other(other),
    }
}

/// The metadata of an entry made of its fields: `None` when there are none, else the JSON
/// object with those fields.
pub fn metadata_from_fields(fields: JsonFields) -> (r: Option<Value>)
    ensures
        r is None <==> json_fields(fields) == Map::<Seq<char>, Value>::empty(),
        r matches Some(v) ==> v == json_object(fields),
{
    if has_no_fields(&fields) {
        None
    } else {
        Some(object_value(fields))
    }
}

/// The metadata of an entry, and whether the per-call metadata failed to serialize.
#[derive(Debug)]
pub struct MergedMetadata {
    pub metadata: Option<Value>,
    pub serialization_failed: bool,
}

/// The top-level form of an optional JSON value.
pub open spec fn optional_shape(value: Option<Value>) -> Option<MetadataShape> {
    match value {
        Some(v) => Some(json_shape(v)),
        None => None,
    }
}

/// The top-level form of a serialized value; `None` when serialization failed.
pub open spec fn serialized_shape<E>(value: Result<Value, E>) -> Option<MetadataShape> {
    match value {
        Ok(v) => Some(json_shape(v)),
        Err(_) => None,
    }
}

/// Merges the global metadata (when there is one to include) and the serialized per-call
/// metadata into the metadata of an entry: `None` when the merged fields
/// ([`merged_fields`]) are empty, else the JSON object of a map that holds exactly them. A
/// per-call value that failed to serialize adds nothing and is reported.
pub fn merge_metadata<E>(global: Option<Value>, per_call: Result<Value, E>) -> (r: MergedMetadata)
    ensures
        r.serialization_failed == per_call is Err,
        r.metadata is None <==> merged_fields(optional_shape(global), serialized_shape(per_call))
            == Map::<Seq<char>, Value>::empty(),
        r.metadata matches Some(v) ==> exists|fields: JsonFields|
            #![trigger json_object(fields)]
            {
                &&& json_fields(fields) == merged_fields(
                    optional_shape(global),
                    serialized_shape(per_call),
                )
                &&& v == json_object(fields)
            },
{
    let global_shape = match global {
        Some(v) => Some(shape_of(v)),
        None => None,
    };
    let (per_call_shape, serialization_failed) = match per_call {
        Ok(v) => (Some(shape_of(v)), false),
        Err(_) => (None, true),
    };
    let fields = merge_fields(global_shape, per_call_shape);
    let ghost merged = fields;
    let metadata = metadata_from_fields(fields);
    assert(metadata matches Some(v) ==> v == json_object(merged));
    MergedMetadata { metadata, serialization_failed }
}

/// A per-call object field wins over a global field with the same key, a global field that
/// the per-call object does not name is kept, and no other key appears.
pub proof fn law_per_call_fields_win(
    global: JsonFields,
    per_call: JsonFields,
    key: Seq<char>,
)
    ensures
        ({
            let merged = merged_fields(
                Some(MetadataShape::Object(global)),
                Some(MetadataShape::Object(per_call)),
            );
            &&& json_fields(per_call).contains_key(key) ==> merged.contains_key(key)
                && merged[key] == json_fields(per_call)[key]
            &&& !json_fields(per_call).contains_key(key) && json_fields(global).contains_key(key)
                ==> merged.contains_key(key) && merged[key] == json_fields(global)[key]
            &&& merged.contains_key(key) ==> json_fields(per_call).contains_key(key)
                || json_fields(global).contains_key(key)
        }),
{
}

/// Per-call metadata that is not an object is kept whole under `"value"`, next to the global
/// fields; `null` adds nothing.
pub proof fn law_non_object_metadata_is_wrapped(global: Option<MetadataShape>, value: Value)
    ensures
        merged_fields(global, Some(MetadataShape::Other(value))) == merged_fields(global, None).insert(
            VALUE_KEY@,
            value,
        ),
        merged_fields(global, Some(MetadataShape::Null)) == merged_fields(global, None),
        merged_fields(global, Some(MetadataShape::Other(value)))[VALUE_KEY@] == value,
{
}

/// Global metadata that is not an object contributes nothing.
pub proof fn law_non_object_global_is_ignored(value: Value, per_call: Option<MetadataShape>)
    ensures
        merged_fields(Some(MetadataShape::Other(value)), per_call) == merged_fields(None, per_call),
        merged_fields(Some(MetadataShape::Null), per_call) == merged_fields(None, per_call),
{
}

} // verus!
