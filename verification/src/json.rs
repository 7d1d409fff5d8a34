//! The calls into `serde_json` that the library makes, each with what the
//! library relies on.
use vstd::prelude::*;
use serde_json::Value;
use crate::packaging::{cargo_message_view, CargoMessage, CargoMessageModel};

verus! {

#[verifier::external_type_specification]
#[verifier::external_body]
pub struct ExJsonValue(serde_json::Value);

#[verifier::external_type_specification]
#[verifier::external_body]
#[verifier::reject_recursive_types(K)]
#[verifier::reject_recursive_types(V)]
pub struct ExJsonMap<K, V>(serde_json::Map<K, V>);

#[verifier::external_type_specification]
#[verifier::external_body]
pub struct ExJsonError(serde_json::Error);

/// Whether `serde_json::from_slice::<Value>` accepts these bytes as JSON.
pub uninterp spec fn json_parses(bytes: Seq<u8>) -> bool;

/// Whether `serde_json::from_slice::<Value>` reads these bytes as an object.
pub uninterp spec fn json_is_object(bytes: Seq<u8>) -> bool;

/// The `target_directory` string of `cargo metadata`'s JSON output, if it has one.
pub uninterp spec fn cargo_target_directory(bytes: Seq<u8>) -> Option<Seq<char>>;

/// The fields of a line of Cargo's JSON messages, if the line is JSON.
pub uninterp spec fn cargo_message_of(line: Seq<char>) -> Option<CargoMessageModel>;

/// The pretty-printed JSON text of an object.
pub uninterp spec fn json_pretty_text(m: serde_json::Map<String, Value>) -> Seq<u8>;

/// The object that `serde_json::from_slice::<Value>` reads from these bytes,
/// when the document is an object.
pub uninterp spec fn json_object_of(bytes: Seq<u8>) -> serde_json::Map<String, Value>;

/// The entries of a JSON object, each key with its value, whatever its kind.
pub uninterp spec fn json_values(m: serde_json::Map<String, Value>) -> Map<Seq<char>, Value>;

/// The entries of a JSON object whose values are objects, with those objects.
pub uninterp spec fn json_objects(m: serde_json::Map<String, Value>) -> Map<Seq<char>, serde_json::Map<String, Value>>;

/// The keys of a JSON object.
pub uninterp spec fn json_keys(m: serde_json::Map<String, Value>) -> Set<Seq<char>>;

/// The entries of a JSON object whose values are strings.
pub uninterp spec fn json_texts(m: serde_json::Map<String, Value>) -> Map<Seq<char>, Seq<char>>;

/// The entries of a JSON object whose values are booleans.
pub uninterp spec fn json_flags(m: serde_json::Map<String, Value>) -> Map<Seq<char>, bool>;

/// The entries of a JSON object whose values are arrays of strings.
pub uninterp spec fn json_lists(m: serde_json::Map<String, Value>) -> Map<Seq<char>, Seq<Seq<char>>>;

/// `serde_json::from_slice::<Value>`, keeping the object if the document is
/// one: `Ok` exactly for the inputs that `json_parses` names, and then an
/// object exactly for those that `json_is_object` names, the object being
/// `json_object_of` the bytes. All three depend on the bytes alone.
#[verifier::external_body]
pub(crate) fn json_object_from_slice(bytes: &[u8]) -> (r: Result<Option<serde_json::Map<String, Value>>, serde_json::Error>)
    ensures
        r.is_ok() == json_parses(bytes@),
        r matches Ok(o) ==> (o is Some == json_is_object(bytes@)),
        r matches Ok(Some(m)) ==> m == json_object_of(bytes@),
{
    match serde_json::from_slice::<Value>(bytes)? {
        Value::Object(m) => Ok(Some(m)),
        _ => Ok(None),
    }
}

/// `serde_json::from_slice::<Value>` of `cargo metadata`'s output, then
/// `value["target_directory"].as_str()`, owned: `Ok` exactly for the inputs
/// that `json_parses` names; the directory depends on the bytes alone and is
/// named `cargo_target_directory`.
#[verifier::external_body]
pub(crate) fn metadata_target_directory(bytes: &[u8]) -> (r: Result<Option<String>, serde_json::Error>)
    ensures
        r.is_ok() == json_parses(bytes@),
        r matches Ok(d) ==> match d {
            Some(s) => cargo_target_directory(bytes@) == Some(s@),
            None => cargo_target_directory(bytes@) is None,
        },
{
    let v: Value = serde_json::from_slice(bytes)?;
    Ok(v["target_directory"].as_str().map(|s| s.to_owned()))
}

/// `serde_json::to_vec_pretty` of `Value::Object(m)`: it succeeds, since a
/// `Value` has only string keys and its `Serialize` never fails, and writing
/// to a `Vec` cannot fail; the text depends on the object alone and is named
/// `json_pretty_text`.
#[verifier::external_body]
pub(crate) fn json_object_pretty(m: serde_json::Map<String, Value>) -> (r: Result<Vec<u8>, serde_json::Error>)
    ensures
        r is Ok,
        r matches Ok(b) ==> b@ == json_pretty_text(m),
{
    serde_json::to_vec_pretty(&Value::Object(m))
}

/// `<serde_json::Error as Display>::fmt`, through `to_string`; nothing is
/// claimed of the text.
#[verifier::external_body]
pub(crate) fn json_error_text(e: &serde_json::Error) -> (r: String) {
    e.to_string()
}

/// A value to be stored in a JSON object.
pub enum JsonEntry {
    /// A JSON string.
    Text(String),
    /// A JSON boolean.
    Flag(bool),
    /// A JSON array of strings.
    Texts(Vec<String>),
    /// A JSON object.
    Object(serde_json::Map<String, Value>),
}

/// The strings of a list, as text.
pub open spec fn texts_view(items: Seq<String>) -> Seq<Seq<char>> {
    items.map_values(|s: String| s@)
}

/// `Map::new`: an empty object.
#[verifier::external_body]
pub(crate) fn json_map_new() -> (r: serde_json::Map<String, Value>)
    ensures
        json_keys(r) == Set::<Seq<char>>::empty(),
        json_texts(r).dom() == Set::<Seq<char>>::empty(),
        json_flags(r).dom() == Set::<Seq<char>>::empty(),
        json_lists(r).dom() == Set::<Seq<char>>::empty(),
        json_objects(r).dom() == Set::<Seq<char>>::empty(),
        json_values(r).dom() == Set::<Seq<char>>::empty(),
{
    serde_json::Map::new()
}

/// `Map::insert`, of the `Value` that `entry` is: the entry at `k` becomes
/// that value (replacing any earlier one); no other entry changes.
#[verifier::external_body]
pub(crate) fn json_map_insert(m: &mut serde_json::Map<String, Value>, k: String, entry: JsonEntry)
    ensures
        json_keys(*final(m)) == json_keys(*old(m)).insert(k@),
        json_texts(*final(m)) == match entry {
            JsonEntry::Text(s) => json_texts(*old(m)).insert(k@, s@),
            _ => json_texts(*old(m)).remove(k@),
        },
        json_flags(*final(m)) == match entry {
            JsonEntry::Flag(b) => json_flags(*old(m)).insert(k@, b),
            _ => json_flags(*old(m)).remove(k@),
        },
        json_lists(*final(m)) == match entry {
            JsonEntry::Texts(items) => json_lists(*old(m)).insert(k@, texts_view(items@)),
            _ => json_lists(*old(m)).remove(k@),
        },
        json_objects(*final(m)) == match entry {
            JsonEntry::Object(o) => json_objects(*old(m)).insert(k@, o),
            _ => json_objects(*old(m)).remove(k@),
        },
        json_values(*final(m)).dom() == json_values(*old(m)).dom().insert(k@),
        json_values(*final(m)).remove(k@) == json_values(*old(m)).remove(k@),
{
    let value = match entry {
        JsonEntry::Text(s) => Value::String(s),
        JsonEntry::Flag(b) => Value::Bool(b),
        JsonEntry::Texts(items) => Value::Array(items.into_iter().map(Value::String).collect()),
        JsonEntry::Object(o) => Value::Object(o),
    };
    m.insert(k, value);
}

/// `Map::remove`: afterwards the key is absent, and no other entry changed.
#[verifier::external_body]
pub(crate) fn json_map_remove(m: &mut serde_json::Map<String, Value>, k: &str)
    ensures
        json_keys(*final(m)) == json_keys(*old(m)).remove(k@),
        json_texts(*final(m)) == json_texts(*old(m)).remove(k@),
        json_flags(*final(m)) == json_flags(*old(m)).remove(k@),
        json_lists(*final(m)) == json_lists(*old(m)).remove(k@),
        json_objects(*final(m)) == json_objects(*old(m)).remove(k@),
        json_values(*final(m)) == json_values(*old(m)).remove(k@),
{
    m.remove(k);
}

/// Reads one line of Cargo's JSON message stream with
/// `serde_json::from_str::<Value>`, keeping the fields the build looks at:
/// `reason`, `executable`, `target.kind[0]`, `target.name` (each as a string,
/// if it is one), `package_id` (as JSON text, via `Display`) and
/// `message.rendered`. The result depends on the line alone and is named
/// `cargo_message_of`.
#[verifier::external_body]
pub(crate) fn read_cargo_message(line: &str) -> (r: Option<CargoMessage>)
    ensures
        cargo_message_view(r) == cargo_message_of(line@),
{
    let v: Value = serde_json::from_str(line).ok()?;
    let text = |x: &Value| x.as_str().map(|s| s.to_owned());
    Some(CargoMessage {
        reason: text(&v["reason"]),
        executable: text(&v["executable"]),
        kind: text(&v["target"]["kind"][0]),
        name: text(&v["target"]["name"]),
        package_id: v["package_id"].to_string(),
        rendered: text(&v["message"]["rendered"]),
    })
}

} // verus!
