use vstd::prelude::*;

verus! {

/// A JSON document, modelled with the pieces the catalog responses carry.
/// A number outside the unsigned 64-bit range carries nothing the decoders
/// read, so it is folded into `Null`.
pub enum Json {
    Null,
    Bool(bool),
    UInt(u64),
    Str(String),
    Arr(Vec<Json>),
    Obj(Vec<(String, Json)>),
}

/// The value under `key` in a list of object entries: the first entry whose
/// key matches, if any.
pub open spec fn spec_lookup(entries: Seq<(String, Json)>, key: Seq<char>) -> Option<Json>
    decreases entries.len(),
{
    if entries.len() == 0 {
        None
    } else if entries[0].0@ == key {
        Some(entries[0].1)
    } else {
        spec_lookup(entries.drop_first(), key)
    }
}

/// The member of an object document under `key`; `None` when the document
/// is not an object or has no such member.
pub open spec fn spec_get(doc: Json, key: Seq<char>) -> Option<Json> {
    match doc {
        Json::Obj(entries) => spec_lookup(entries@, key),
        _ => None,
    }
}

/// A decode error: the document under examination misses a required field
/// or carries one of the wrong shape.
#[derive(Debug)]
pub struct DecodeError;

/// The unsigned-integer member under `key`, if the document has one.
pub open spec fn spec_uint_member(doc: Json, key: Seq<char>) -> Option<u64> {
    match spec_get(doc, key) {
        Some(Json::UInt(n)) => Some(n),
        _ => None,
    }
}

/// The non-empty string member under `key`, if the document has one.
pub open spec fn spec_str_member(doc: Json, key: Seq<char>) -> Option<Seq<char>> {
    match spec_get(doc, key) {
        Some(Json::Str(s)) => if s@.len() > 0 {
            Some(s@)
        } else {
            None
        },
        _ => None,
    }
}

#[verifier::external_type_specification]
#[verifier::external_body]
pub struct ExValue(serde_json::Value);

/// The document that the JSON parser yields for the given bytes, under this
/// module's model; `None` when the bytes are not a JSON document.
pub uninterp spec fn spec_parse_json(bytes: Seq<u8>) -> Option<Json>;

/// Relies on `serde_json::Value`: folds each variant of a parsed document
/// into the library's model, one arm per variant; a number that is not an
/// unsigned 64-bit integer becomes `Null`, which no decoder accepts.
#[verifier::external_body]
fn json_of_value(v: serde_json::Value) -> Json {
    match v {
        serde_json::Value::Null => Json::Null,
        serde_json::Value::Bool(b) => Json::Bool(b),
        serde_json::Value::Number(n) => n.as_u64().map_or(Json::Null, Json::UInt),
        serde_json::Value::String(s) => Json::Str(s),
        serde_json::Value::Array(a) => Json::Arr(a.into_iter().map(json_of_value).collect()),
        serde_json::Value::Object(m) => Json::Obj(
            m.into_iter().map(|e| (e.0, json_of_value(e.1))).collect(),
        ),
    }
}

/// Relies on `serde_json::from_slice`: parses a byte body into a JSON
/// document; the result depends on the bytes alone.
#[verifier::external_body]
pub(crate) fn parse_json(bytes: &[u8]) -> (r: Option<Json>)
    ensures
        r == spec_parse_json(bytes@),
{
    match serde_json::from_slice::<serde_json::Value>(bytes) {
        Ok(v) => Some(json_of_value(v)),
        Err(_) => None,
    }
}

impl Json {
    /// Look a member up in an object document.
    #[verifier::loop_isolation(false)]
    pub fn get<'a>(&'a self, key: &str) -> (r: Option<&'a Json>)
        ensures
            match r {
                Some(v) => spec_get(*self, key@) == Some(*v),
                None => spec_get(*self, key@) is None,
            },
    {
        match self {
            Json::Obj(entries) => {
                let key_string = key.to_owned();
                let mut i: usize = 0;
                proof {
                    assert(entries@.skip(0) =~= entries@);
                }
                while i < entries.len()
                    invariant
                        i <= entries.len(),
                        key_string@ == key@,
                        spec_lookup(entries@, key@) == spec_lookup(
                            entries@.skip(i as int),
                            key@,
                        ),
                    decreases entries.len() - i,
                {
                    proof {
                        assert(entries@.skip(i as int)[0] == entries@[i as int]);
                        assert(entries@.skip(i as int).drop_first() =~= entries@.skip(
                            i as int + 1,
                        ));
                    }
                    if entries[i].0 == key_string {
                        proof {
                            assert(spec_lookup(entries@.skip(i as int), key@) == Some(
                                entries@[i as int].1,
                            ));
                        }
                        return Some(&entries[i].1);
                    }
                    i = i + 1;
                }
                proof {
                    assert(entries@.skip(i as int).len() == 0);
                }
                None
            },
            _ => None,
        }
    }
}

} // verus!
