//! The diagnostic lister: shapes the names a backing store returned into
//! the handler's response. The call to the store itself is I/O and stays
//! with the host process; this module owns the page bound and the response
//! shape.

use vstd::prelude::*;
use crate::json::JsonValue;

verus! {

/// The page-size cap the lister asks the backing store for.
pub const PAGE_LIMIT: usize = 10;

/// The first page of a name listing: everything, where the store returned
/// no more than the page limit; else the first `PAGE_LIMIT` names.
pub open spec fn page_of(names: Seq<String>) -> Seq<String> {
    if names.len() <= PAGE_LIMIT {
        names
    } else {
        names.take(PAGE_LIMIT as int)
    }
}

/// Truncate a name listing to the page bound.
pub fn first_page(names: Vec<String>) -> (r: Vec<String>)
    ensures
        r@ == page_of(names@),
{
    let mut page = names;
    page.truncate(PAGE_LIMIT);
    page
}

/// The single-field envelope of a name listing: the key `response` holding
/// the names, in order, as text values.
pub open spec fn is_name_list_envelope(v: JsonValue, names: Seq<String>) -> bool {
    &&& v matches JsonValue::Object(fields)
    &&& fields@.len() == 1
    &&& fields@[0].0@ == "response"@
    &&& (fields@[0].1 matches JsonValue::Array(items) && items@.len() == names.len() && (forall|
        i: int,
    |
        0 <= i < names.len() ==> items@[i] == JsonValue::Text(names[i])))
}

/// Handle one diagnostic event: wrap the names the backing store returned,
/// cut to the first page, in the response envelope.
pub fn diagnostic_response(names: Vec<String>) -> (r: JsonValue)
    ensures
        is_name_list_envelope(r, page_of(names@)),
{
    let page = first_page(names);
    let mut items: Vec<JsonValue> = Vec::new();
    let mut i: usize = 0;
    while i < page.len()
        invariant
            i <= page@.len(),
            items@.len() == i,
            forall|t: int| 0 <= t < i ==> items@[t] == JsonValue::Text(page@[t]),
        decreases page@.len() - i,
    {
        items.push(JsonValue::Text(page[i].clone()));
        i = i + 1;
    }
    JsonValue::Object(vec![("response".to_owned(), JsonValue::Array(items))])
}

} // verus!
