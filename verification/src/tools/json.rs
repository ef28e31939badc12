//! Reading string arguments out of a tool's JSON argument text.

use vstd::prelude::*;
use crate::text::str_eq;

verus! {

/// What `serde_json::from_str::<serde_json::Value>` makes of `text`, reduced to
/// what the tools read: the error message when `text` is not JSON; otherwise
/// the top-level entries of the object (none when the document is not an
/// object), each key with its value when that value is a JSON string.
pub uninterp spec fn json_string_fields(text: Seq<char>) -> Result<Seq<(Seq<char>, Option<Seq<char>>)>, Seq<char>>;

/// The characters of an optional string.
pub open spec fn opt_view(o: Option<String>) -> Option<Seq<char>> {
    match o {
        Some(s) => Some(s@),
        None => None,
    }
}

/// The characters of each entry.
pub open spec fn fields_view(v: Seq<(String, Option<String>)>) -> Seq<(Seq<char>, Option<Seq<char>>)> {
    v.map_values(|p: (String, Option<String>)| (p.0@, opt_view(p.1)))
}

/// The characters of a parse result.
pub open spec fn parsed_view(r: Result<Vec<(String, Option<String>)>, String>) -> Result<Seq<(Seq<char>, Option<Seq<char>>)>, Seq<char>> {
    match r {
        Ok(v) => Ok(fields_view(v@)),
        Err(e) => Err(e@),
    }
}

/// The string stored under `key`, as `value[key].as_str()` reads it: the value
/// of the first entry named `key`, when it is a string.
pub open spec fn field_value(fields: Seq<(Seq<char>, Option<Seq<char>>)>, key: Seq<char>) -> Option<Seq<char>>
    decreases fields.len(),
{
    if fields.len() == 0 {
        None
    } else if fields[0].0 == key {
        fields[0].1
    } else {
        field_value(fields.drop_first(), key)
    }
}

/// Calls `serde_json::from_str::<serde_json::Value>` and lists the top-level
/// entries of the object it reads, with `Value::as_str` of each value; a
/// document that is not an object gives no entries, a parse error gives its
/// message. The contract names the result `json_string_fields` of the text;
/// the JSON grammar and the wording of the messages are left unstated.
#[verifier::external_body]
pub(crate) fn parse_string_fields(text: &str) -> (r: Result<Vec<(String, Option<String>)>, String>)
    ensures
        parsed_view(r) == json_string_fields(text@),
{
    match serde_json::from_str::<serde_json::Value>(text) {
        Ok(serde_json::Value::Object(map)) => Ok(
            map.iter().map(|(k, v)| (k.clone(), v.as_str().map(|s| s.to_string()))).collect(),
        ),
        Ok(_) => Ok(Vec::new()),
        Err(e) => Err(e.to_string()),
    }
}

/// The string stored under `key` among `fields`.
pub fn string_field(fields: &Vec<(String, Option<String>)>, key: &str) -> (r: Option<String>)
    ensures
        opt_view(r) == field_value(fields_view(fields@), key@),
{
    let ghost all = fields_view(fields@);
    let mut i: usize = 0;
    assert(all.subrange(0, all.len() as int) =~= all);
    while i < fields.len()
        invariant
            i <= fields@.len(),
            all == fields_view(fields@),
            field_value(all, key@) == field_value(all.subrange(i as int, all.len() as int), key@),
        decreases fields@.len() - i,
    {
        let ghost rest = all.subrange(i as int, all.len() as int);
        assert(rest[0] == all[i as int]);
        assert(rest.drop_first() =~= all.subrange(i + 1, all.len() as int));
        if str_eq(fields[i].0.as_str(), key) {
            return match &fields[i].1 {
                Some(s) => Some(s.clone()),
                None => None,
            };
        }
        i = i + 1;
    }
    None
}

} // verus!
