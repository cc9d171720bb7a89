//! Decoding response bodies.
//!
//! Every operation answers with a JSON object holding a `data` object and,
//! sometimes, a `meta` object; below those two fields the payload's shape is
//! opaque and is carried through as arbitrary JSON values.  The shape rules
//! themselves — the top level must be an object, `data` is required and must
//! be an object, `meta` may be absent or null or an object, every other key
//! is ignored — are verified code here; only the raw JSON parse and the
//! primitive value accessors are trusted.

use vstd::prelude::*;

use crate::error::CurrencyapiError;

verus! {

/// `serde_json::Value`: an arbitrary JSON value, carried through opaquely.
#[verifier::external_type_specification]
#[verifier::external_body]
pub struct ExValue(serde_json::Value);

/// `serde_json::Map`: the representation of a JSON object.
#[verifier::external_type_specification]
#[verifier::external_body]
#[verifier::reject_recursive_types(K)]
#[verifier::reject_recursive_types(V)]
pub struct ExMap<K, V>(serde_json::Map<K, V>);

/// A decoded JSON object: string keys to arbitrary JSON values.
pub type JsonObject = serde_json::Map<String, serde_json::Value>;

/// Relies on `serde_json::Map`'s `Clone` implementation (written for maps of
/// `String` to `Value` exactly): the clone equals the original.
pub assume_specification[ <serde_json::Map<String, serde_json::Value> as Clone>::clone ](
    m: &serde_json::Map<String, serde_json::Value>,
) -> (r: serde_json::Map<String, serde_json::Value>)
    ensures
        r == *m,
;

/// Response of the currencyapi: the `data` object, and the `meta` object
/// where the body carries one.  No schema is enforced below the two
/// top-level fields.
#[derive(Debug, Clone)]
pub struct DetailsResponse {
    /// The payload under the body's `data` key.
    pub data: JsonObject,
    /// The metadata under the body's `meta` key, if the body has one.
    pub meta: Option<JsonObject>,
}

/// What `serde_json::from_str` parses `body` to: some JSON value, or none
/// where the text is not valid JSON.
pub uninterp spec fn json_value_of(body: Seq<char>) -> Option<serde_json::Value>;

/// Relies on `serde_json::from_str` for `serde_json::Value`: parsing is a
/// function of the text alone, and the recursion depth is limited, so the
/// call returns on every input.
#[verifier::external_body]
fn parse_json(body: &str) -> (r: Option<serde_json::Value>)
    ensures
        r == json_value_of(body@),
{
    serde_json::from_str::<serde_json::Value>(body).ok()
}

/// The map a JSON value carries when it is an object, and nothing otherwise.
pub uninterp spec fn object_of(v: serde_json::Value) -> Option<JsonObject>;

/// Relies on the `serde_json::Value` variants: exactly the `Object` variant
/// carries a map, and which variant a value is depends on the value alone.
#[verifier::external_body]
fn into_object(v: serde_json::Value) -> (r: Option<JsonObject>)
    ensures
        r == object_of(v),
{
    match v {
        serde_json::Value::Object(m) => Some(m),
        _ => None,
    }
}

/// Whether a JSON value is the `null` value.
pub uninterp spec fn is_null_value(v: serde_json::Value) -> bool;

/// Relies on `serde_json::Value::is_null`: true exactly of the `Null`
/// variant, a function of the value alone.
pub assume_specification[ serde_json::Value::is_null ](v: &serde_json::Value) -> (r: bool)
    ensures
        r == is_null_value(*v),
;

/// The value an object holds under `key`, if any.
pub uninterp spec fn object_lookup(m: JsonObject, key: Seq<char>) -> Option<serde_json::Value>;

/// Relies on `serde_json::Map::remove` (backed by a `BTreeMap`): it takes
/// the value under the key out of the object, leaves the value under every
/// other key in place, and depends on the object's contents and the key
/// alone.
#[verifier::external_body]
fn object_remove(m: &mut JsonObject, key: &str) -> (r: Option<serde_json::Value>)
    ensures
        r == object_lookup(*old(m), key@),
        object_lookup(*final(m), key@) is None,
        forall|other: Seq<char>|
            other != key@ ==> object_lookup(*final(m), other) == object_lookup(*old(m), other),
{
    m.remove(key)
}

/// What decoding a response body yields.  The parsed JSON must be an object
/// whose `data` member is an object; `meta` may be absent or null (no
/// metadata) or an object, and anything else under it is rejected; every
/// other top-level key is ignored.
pub open spec fn json_details_of(body: Seq<char>) -> Option<(JsonObject, Option<JsonObject>)> {
    match json_value_of(body) {
        None => None,
        Some(top) => match object_of(top) {
            None => None,
            Some(obj) => match object_lookup(obj, "data"@) {
                None => None,
                Some(data_value) => match object_of(data_value) {
                    None => None,
                    Some(data) => match object_lookup(obj, "meta"@) {
                        None => Some((data, None)),
                        Some(meta_value) => if is_null_value(meta_value) {
                            Some((data, None))
                        } else {
                            match object_of(meta_value) {
                                None => None,
                                Some(meta) => Some((data, Some(meta))),
                            }
                        },
                    },
                },
            },
        },
    }
}

/// The decode failure for `body`: the parse error carrying the body itself.
fn parse_failure(body: &str) -> (e: CurrencyapiError)
    ensures
        e matches CurrencyapiError::ResponseParsingError { body: b } && b@ == body@,
{
    CurrencyapiError::ResponseParsingError { body: body.to_owned() }
}

/// Decodes a response body: the `data` object and the optional `meta`
/// object on success; on any body that does not parse to that shape, a
/// `ResponseParsingError` carrying the raw body itself.
pub fn decode_response(body: &str) -> (r: Result<DetailsResponse, CurrencyapiError>)
    ensures
        r matches Ok(resp) ==> json_details_of(body@) == Some((resp.data, resp.meta)),
        r matches Err(e) ==> json_details_of(body@) is None && (e matches
        CurrencyapiError::ResponseParsingError { body: b } && b@ == body@),
{
    let top = match parse_json(body) {
        Some(v) => v,
        None => {
            return Err(parse_failure(body));
        },
    };
    let mut obj = match into_object(top) {
        Some(m) => m,
        None => {
            return Err(parse_failure(body));
        },
    };
    let ghost obj0 = obj;
    let data_value = match object_remove(&mut obj, "data") {
        Some(v) => v,
        None => {
            return Err(parse_failure(body));
        },
    };
    let data = match into_object(data_value) {
        Some(m) => m,
        None => {
            return Err(parse_failure(body));
        },
    };
    let meta_value = object_remove(&mut obj, "meta");
    proof {
        reveal_strlit("data");
        reveal_strlit("meta");
        assert("meta"@[0] != "data"@[0]);
        assert("meta"@ != "data"@);
        assert(meta_value == object_lookup(obj0, "meta"@));
    }
    match meta_value {
        None => Ok(DetailsResponse { data, meta: None }),
        Some(mv) => {
            if mv.is_null() {
                Ok(DetailsResponse { data, meta: None })
            } else {
                match into_object(mv) {
                    Some(meta) => Ok(DetailsResponse { data, meta: Some(meta) }),
                    None => Err(parse_failure(body)),
                }
            }
        },
    }
}

} // verus!
