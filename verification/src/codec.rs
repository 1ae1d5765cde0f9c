//! The trusted boundary to the JSON text codec.
//!
//! Decoding bytes to text, reading JSON text and printing a JSON value are
//! done by `std::str::from_utf8` and the `json` crate.  Each call stands
//! behind one item here whose contract Verus believes; everything around the
//! calls is verified against those contracts.

use crate::value::{JsonModel, JsonVal};
use vstd::prelude::*;

verus! {

/// The document that well-formed JSON text denotes, and `None` on text that
/// `json::parse` refuses.  Named only: its value on given text is learned by
/// calling [`parse_text`].
pub uninterp spec fn json_of(text: Seq<char>) -> Option<JsonModel>;

/// The description `json::parse`'s error carries for text it refuses: a
/// function of the text alone (character, line and column of the fault).
/// Named only: its value on given text is learned by calling [`parse_text`].
pub uninterp spec fn json_err_of(text: Seq<char>) -> Seq<char>;

/// The description `std::str::from_utf8`'s error carries for bytes it
/// refuses: a function of the bytes alone (where the invalid sequence
/// starts).  Named only: its value is learned by calling [`text_of_bytes`].
pub uninterp spec fn utf8_err_of(data: Seq<u8>) -> Seq<char>;

/// The one text that a document prints as.  Named only: its value on a given
/// document is learned by calling [`dump_text`].
pub uninterp spec fn dump_of(doc: JsonModel) -> Seq<char>;

/// The shortest run of consecutive zero digits that is kept away from
/// `json::parse`.  While a number's mantissa is still zero, the parser
/// lowers its 16-bit decimal exponent once per fraction digit, and once the
/// mantissa turns nonzero at most 20 further times before it saturates; a
/// run this long could therefore drive the exponent past its floor of
/// -32768, which overflow-checked builds refuse.  Shorter runs are safe.
pub const ZERO_DIGIT_RUN_LIMIT: usize = 32749;

/// Whether `start` begins a run of [`ZERO_DIGIT_RUN_LIMIT`] consecutive
/// zero digits (byte 48) in `bytes`.
pub open spec fn zero_run_at(bytes: Seq<u8>, start: int) -> bool {
    &&& 0 <= start
    &&& start + ZERO_DIGIT_RUN_LIMIT as int <= bytes.len()
    &&& forall|k: int| start <= k < start + ZERO_DIGIT_RUN_LIMIT as int ==> bytes[k] == 48
}

/// Whether `bytes` holds a run of at least [`ZERO_DIGIT_RUN_LIMIT`]
/// consecutive zero digits anywhere.
pub open spec fn has_zero_digit_run(bytes: Seq<u8>) -> bool {
    exists|start: int| zero_run_at(bytes, start)
}

#[verifier::external_type_specification]
#[verifier::external_body]
pub struct ExJsonValue(json::JsonValue);

/// Relies on `json::JsonValue`'s shape: each variant is carried over field
/// for field (both of json's string variants become `Str`; a number becomes
/// the sign, mantissa and exponent parts that `Number::as_parts` hands out).
#[verifier::external_body]
fn of_outside(v: json::JsonValue) -> JsonVal {
    match v {
        json::JsonValue::Null => JsonVal::Null,
        json::JsonValue::Boolean(b) => JsonVal::Bool(b),
        json::JsonValue::Number(n) => { let (p, m, e) = n.as_parts(); JsonVal::Num(p, m, e) },
        json::JsonValue::Short(s) => JsonVal::Str(String::from(s.as_str())),
        json::JsonValue::String(s) => JsonVal::Str(s),
        json::JsonValue::Array(a) => JsonVal::Arr(a.into_iter().map(of_outside).collect()),
        json::JsonValue::Object(o) => JsonVal::Obj(
            o.iter().map(|(k, x)| (String::from(k), of_outside(x.clone()))).collect(),
        ),
    }
}

/// Relies on `json::JsonValue`'s constructors: each variant is rebuilt field
/// for field, a number through `Number::from_parts`, an object member by
/// member in order through `Object::insert`.
#[verifier::external_body]
fn to_outside(v: &JsonVal) -> json::JsonValue {
    match v {
        JsonVal::Null => json::JsonValue::Null,
        JsonVal::Bool(b) => json::JsonValue::Boolean(*b),
        JsonVal::Num(p, m, e) => json::JsonValue::Number(json::number::Number::from_parts(*p, *m, *e)),
        JsonVal::Str(s) => json::JsonValue::String(s.clone()),
        JsonVal::Arr(items) => json::JsonValue::Array(items.iter().map(to_outside).collect()),
        JsonVal::Obj(fields) => {
            let mut o = json::object::Object::with_capacity(fields.len());
            for (k, x) in fields.iter() { o.insert(k, to_outside(x)); }
            json::JsonValue::Object(o)
        },
    }
}

/// Relies on `std::str::from_utf8`: it returns `Ok` exactly on valid UTF-8,
/// with the text those bytes decode to, and an error whose description
/// ([`utf8_err_of`] names it) the `Err` branch carries here as a `String`.
#[verifier::external_body]
pub(crate) fn text_of_bytes(data: &[u8]) -> (r: Result<&str, String>)
    ensures
        r is Ok <==> vstd::utf8::valid_utf8(data@),
        r matches Ok(t) ==> t@ == vstd::utf8::decode_utf8(data@),
        r matches Err(m) ==> m@ == utf8_err_of(data@),
{
    core::str::from_utf8(data).map_err(|e| format!("{}", e))
}

/// Relies on `json::parse`: it returns `Ok` exactly on text it accepts as
/// JSON ([`json_of`] names its result; the parser also bounds nesting depth)
/// and an error whose description ([`json_err_of`] names it) the `Err`
/// branch carries here as a `String`.  Text holding a long zero-digit run
/// is excluded up front: on such text the parser's exponent arithmetic can
/// overflow an `i16` and panic in overflow-checked builds (see
/// [`ZERO_DIGIT_RUN_LIMIT`]); callers screen the payload first.
#[verifier::external_body]
pub(crate) fn parse_text(text: &str) -> (r: Result<JsonVal, String>)
    requires
        !has_zero_digit_run(vstd::utf8::encode_utf8(text@)),
    ensures
        r is Ok <==> json_of(text@) is Some,
        r matches Ok(v) ==> Some(v.model()) == json_of(text@),
        r matches Err(m) ==> m@ == json_err_of(text@),
{
    match json::parse(text) {
        Ok(v) => Ok(of_outside(v)),
        Err(e) => Err(format!("{}", e)),
    }
}

/// Relies on `json::JsonValue::dump`: one deterministic text for each value,
/// depending on the document alone ([`dump_of`] names it).
#[verifier::external_body]
pub(crate) fn dump_text(v: &JsonVal) -> (r: String)
    ensures
        r@ == dump_of(v.model()),
{
    to_outside(v).dump()
}

} // verus!
