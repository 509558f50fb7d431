//! A JSON-like value: the shape of the platform's event payloads and of the
//! handlers' responses.
//!
//! Numbers are modelled as signed integers; none of the handlers reads a
//! fractional number. An object is an ordered list of fields; the decoders
//! always go by the first field of a given name.

use vstd::prelude::*;

verus! {

/// A structured value as delivered by, or returned to, the invoking platform.
#[derive(Debug, PartialEq, Eq)]
pub enum JsonValue {
    Null,
    Boolean(bool),
    Integer(i64),
    Text(String),
    Array(Vec<JsonValue>),
    Object(Vec<(String, JsonValue)>),
}

/// The value of the first field named `key`, searching front to back.
pub open spec fn lookup(fields: Seq<(String, JsonValue)>, key: Seq<char>) -> Option<JsonValue>
    decreases fields.len(),
{
    if fields.len() == 0 {
        None
    } else if fields[0].0@ == key {
        Some(fields[0].1)
    } else {
        lookup(fields.drop_first(), key)
    }
}

/// A reference to the first field of `fields` named `key`, if there is one.
pub fn find_field<'a>(fields: &'a Vec<(String, JsonValue)>, key: &String) -> (r: Option<
    &'a JsonValue,
>)
    ensures
        match r {
            Some(v) => lookup(fields@, key@) == Some(*v),
            None => lookup(fields@, key@) is None,
        },
{
    let ghost full = fields@;
    proof {
        assert(full.skip(0) =~= full);
    }
    let mut i: usize = 0;
    while i < fields.len()
        invariant
            i <= full.len(),
            fields@ == full,
            lookup(full, key@) == lookup(full.skip(i as int), key@),
        decreases full.len() - i,
    {
        proof {
            assert(full.skip(i as int)[0] == full[i as int]);
        }
        if fields[i].0 == *key {
            return Some(&fields[i].1);
        }
        proof {
            assert(full.skip(i as int).drop_first() =~= full.skip(i as int + 1));
        }
        i = i + 1;
    }
    proof {
        assert(full.skip(full.len() as int) =~= Seq::<(String, JsonValue)>::empty());
    }
    None
}

} // verus!
