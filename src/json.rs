//! Reading one line of text as a JSON object, through serde_json.
use vstd::prelude::*;
use crate::template::{Prop, PropModel, entries_view};

verus! {

#[verifier::external_type_specification]
#[verifier::external_body]
pub struct ExJsonError(serde_json::Error);

/// What serde_json reads from `line`: `None` where it is not JSON, `Some(None)`
/// where it is JSON but not an object, and otherwise the object's top-level
/// keys, each with its value classed as a string, an `i64` integer, or other.
pub uninterp spec fn json_object_of(line: Seq<char>) -> Option<Option<Seq<(Seq<char>, PropModel)>>>;

/// Relies on `serde_json::from_str` into a `serde_json::Value`, on
/// `Value::as_object` and the map's iteration for the top-level entries, and
/// on `Number::as_i64` to tell the integers that fit in `i64`.
#[verifier::external_body]
pub(crate) fn parse_object(line: &str) -> (r: Result<Option<Vec<(String, Prop)>>, serde_json::Error>)
    ensures
        match r {
            Ok(Some(es)) => json_object_of(line@) == Some(Some(entries_view(es@))),
            Ok(None) => json_object_of(line@) == Some(None::<Seq<(Seq<char>, PropModel)>>),
            Err(_) => json_object_of(line@) is None,
        },
{
    let v: serde_json::Value = serde_json::from_str(line)?;
    let m = match v.as_object() {
        Some(m) => m,
        None => return Ok(None),
    };
    let mut es = Vec::new();
    for (k, x) in m {
        es.push((k.clone(), match x {
            serde_json::Value::String(s) => Prop::Str(s.clone()),
            serde_json::Value::Number(n) => n.as_i64().map_or(Prop::Other, Prop::Int),
            serde_json::Value::Null | serde_json::Value::Bool(_) => Prop::Other,
            serde_json::Value::Array(_) | serde_json::Value::Object(_) => Prop::Other,
        }));
    }
    Ok(Some(es))
}

} // verus!
