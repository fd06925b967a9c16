//! Two-stage decoding of the `/cache_list` payload: an array of strings, each
//! of which is the JSON text of one cache entry.
use vstd::prelude::*;

verus! {

/// One backend-reported record: an identifier and a size in bytes.
#[derive(Clone, Copy, Debug, PartialEq, Eq, Structural)]
pub struct CacheEntry {
    pub id: u64,
    pub data_size: u64,
}

/// The strings of a JSON array of strings, in order; `None` when the text is
/// not such an array.
pub uninterp spec fn json_string_array(text: Seq<char>) -> Option<Seq<Seq<char>>>;

/// The unsigned integer stored under `key` in the JSON object that `text`
/// holds; `None` when the text is no object, lacks the key, or holds there
/// something other than an unsigned integer.
pub uninterp spec fn json_u64_member(text: Seq<char>, key: Seq<char>) -> Option<u64>;

/// Relies on `serde_json::from_str::<Vec<String>>`: the strings of a JSON
/// array of strings, or an error for any other text.
#[verifier::external_body]
fn parse_string_array(text: &str) -> (r: Option<Vec<String>>)
    ensures
        match r {
            Some(v) => json_string_array(text@) == Some(v@.map_values(|s: String| s@)),
            None => json_string_array(text@) is None,
        },
{
    serde_json::from_str::<Vec<String>>(text).ok()
}

/// Relies on `serde_json::from_str::<serde_json::Value>`, `Value::get` and
/// `Value::as_u64`: the unsigned integer member `key` of a JSON object.
#[verifier::external_body]
fn parse_u64_member(text: &str, key: &str) -> (r: Option<u64>)
    ensures
        r == json_u64_member(text@, key@),
{
    serde_json::from_str::<serde_json::Value>(text).ok().and_then(|v| v.get(key).and_then(|m| m.as_u64()))
}

/// The entry that one element's text encodes: an object with unsigned
/// integer members `id` and `data_size`.
pub open spec fn entry_of(text: Seq<char>) -> Option<CacheEntry> {
    match (json_u64_member(text, "id"@), json_u64_member(text, "data_size"@)) {
        (Some(id), Some(data_size)) => Some(CacheEntry { id, data_size }),
        _ => None,
    }
}

/// All entries of the elements, in order, or `None` as soon as one element
/// does not decode: no partial list.
pub open spec fn entries_of(items: Seq<Seq<char>>) -> Option<Seq<CacheEntry>> {
    if forall|i: int| 0 <= i < items.len() ==> (#[trigger] entry_of(items[i])) is Some {
        Some(items.map_values(|t: Seq<char>| entry_of(t)->0))
    } else {
        None
    }
}

/// The cache list that a response body encodes, if it encodes one.
pub open spec fn cache_list_of(body: Seq<char>) -> Option<Seq<CacheEntry>> {
    match json_string_array(body) {
        Some(items) => entries_of(items),
        None => None,
    }
}

/// Decodes one element of the outer array into an entry.
pub fn decode_entry(text: &str) -> (r: Option<CacheEntry>)
    ensures
        r == entry_of(text@),
{
    let id = parse_u64_member(text, "id");
    let data_size = parse_u64_member(text, "data_size");
    match (id, data_size) {
        (Some(id), Some(data_size)) => Some(CacheEntry { id, data_size }),
        _ => None,
    }
}

/// Decodes the elements in order, stopping at the first that fails.
pub fn decode_entries(items: &Vec<String>) -> (r: Option<Vec<CacheEntry>>)
    ensures
        match r {
            Some(v) => entries_of(items@.map_values(|s: String| s@)) == Some(v@),
            None => entries_of(items@.map_values(|s: String| s@)) is None,
        },
{
    let ghost texts = items@.map_values(|s: String| s@);
    let mut out: Vec<CacheEntry> = Vec::new();
    let mut i: usize = 0;
    while i < items.len()
        invariant
            i <= items.len(),
            texts == items@.map_values(|s: String| s@),
            out@.len() == i,
            forall|j: int| 0 <= j < i ==> entry_of(#[trigger] texts[j]) == Some(out@[j]),
        decreases items.len() - i,
    {
        match decode_entry(items[i].as_str()) {
            Some(e) => {
                out.push(e);
            },
            None => {
                assert(entry_of(texts[i as int]) is None);
                return None;
            },
        }
        i += 1;
    }
    assert(out@ =~= texts.map_values(|t: Seq<char>| entry_of(t)->0));
    Some(out)
}

/// Decodes a whole response body: the outer array first, then each element.
pub fn decode_cache_list(body: &str) -> (r: Option<Vec<CacheEntry>>)
    ensures
        match r {
            Some(v) => cache_list_of(body@) == Some(v@),
            None => cache_list_of(body@) is None,
        },
{
    match parse_string_array(body) {
        Some(items) => decode_entries(&items),
        None => None,
    }
}

} // verus!
