//! A small JSON-like document model.
//!
//! The remote API answers with nested JSON documents; the session logic only
//! ever reads object fields, strings, unsigned integers and arrays out of
//! them, so the model carries exactly those shapes as plain values. Numbers
//! outside the unsigned 64-bit range are of no interest to the session logic
//! and are represented as `Null` by whoever builds a document.

use vstd::prelude::*;

verus! {

/// A JSON-like value: the raw material of login and user-info responses.
#[derive(Debug)]
pub enum JsonDoc {
    /// A JSON null, or any value the session logic has no use for.
    Null,
    /// A boolean.
    Bool(bool),
    /// An unsigned integer.
    UInt(u64),
    /// A string.
    Str(String),
    /// An array of values.
    Arr(Vec<JsonDoc>),
    /// An object: a list of key/value pairs. Lookup takes the first match.
    Obj(Vec<(String, JsonDoc)>),
}

/// The value paired with `key` in `fields`, or `Null` when no pair carries it.
pub open spec fn field_lookup(fields: Seq<(String, JsonDoc)>, key: Seq<char>) -> JsonDoc
    decreases fields.len(),
{
    if fields.len() == 0 {
        JsonDoc::Null
    } else if fields[0].0@ == key {
        fields[0].1
    } else {
        field_lookup(fields.drop_first(), key)
    }
}

/// The value stored under `key` in `doc`: `Null` when `doc` is not an object
/// or has no such key, mirroring tolerant indexing into a JSON document.
pub open spec fn get_field(doc: JsonDoc, key: Seq<char>) -> JsonDoc {
    match doc {
        JsonDoc::Obj(fields) => field_lookup(fields@, key),
        _ => JsonDoc::Null,
    }
}

impl JsonDoc {
    /// Looks `key` up in this document. `None` stands for the `Null` that
    /// indexing a non-object or a missing key yields.
    pub fn get<'a>(&'a self, key: &str) -> (r: Option<&'a JsonDoc>)
        ensures
            (match r {
                Some(v) => *v,
                None => JsonDoc::Null,
            }) == get_field(*self, key@),
    {
        match self {
            JsonDoc::Obj(fields) => {
                let k = String::from_str(key);
                let mut i: usize = 0;
                proof {
                    assert(fields@.skip(0) =~= fields@);
                    assert(get_field(*self, key@) == field_lookup(fields@, key@));
                }
                while i < fields.len()
                    invariant
                        i <= fields@.len(),
                        k@ == key@,
                        get_field(*self, key@) == field_lookup(fields@, key@),
                        field_lookup(fields@, key@) == field_lookup(
                            fields@.skip(i as int),
                            key@,
                        ),
                    decreases fields@.len() - i,
                {
                    proof {
                        assert(fields@.skip(i as int)[0] == fields@[i as int]);
                        assert(fields@.skip(i as int).drop_first() =~= fields@.skip(
                            i as int + 1,
                        ));
                    }
                    if fields[i].0 == k {
                        proof {
                            assert(field_lookup(fields@.skip(i as int), key@)
                                == fields@[i as int].1);
                        }
                        return Some(&fields[i].1);
                    }
                    i += 1;
                }
                proof {
                    assert(fields@.skip(fields@.len() as int) =~= Seq::<(
                        String,
                        JsonDoc,
                    )>::empty());
                }
                None
            },
            _ => None,
        }
    }
}

} // verus!
