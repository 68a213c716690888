//! The optional JSON payload of a request: a timestamp override and filter fields.

use vstd::prelude::*;
use crate::window::opt_view;

verus! {

#[verifier::external_type_specification]
#[verifier::external_body]
pub struct ExJsonValue(serde_json::Value);

/// The name of the timestamp column; in a payload it overrides the pivot.
pub const TIMESTAMP_COL: &'static str = "_timestamp";

/// What a payload holds for one allow-listed field.
pub enum FieldValue {
    /// The payload has no such member.
    Missing,
    /// The member is JSON `null`.
    Null,
    /// The member's value, as text.
    Text(String),
}

/// The text of a field value, when it has one.
pub open spec fn field_text(v: FieldValue) -> Option<Seq<char>> {
    match v {
        FieldValue::Text(t) => Some(t@),
        _ => None,
    }
}

/// The filters chosen from `fields` and the text each has in the payload, if any:
/// every field with a text, in allow-list order, but the timestamp column and
/// fields that already occurred earlier in the list.
pub open spec fn chosen_filters(
    fields: Seq<Seq<char>>,
    texts: Seq<Option<Seq<char>>>,
    timestamp_col: Seq<char>,
) -> Seq<(Seq<char>, Seq<char>)>
    decreases fields.len(),
{
    if fields.len() == 0 || texts.len() == 0 {
        Seq::empty()
    } else {
        let rest = chosen_filters(fields.drop_last(), texts.drop_last(), timestamp_col);
        let f = fields.last();
        match texts.last() {
            Some(t) => if f != timestamp_col && !fields.drop_last().contains(f) {
                rest.push((f, t))
            } else {
                rest
            },
            None => rest,
        }
    }
}

/// The view of a list of filters.
pub open spec fn filters_view(v: Seq<(String, String)>) -> Seq<(Seq<char>, Seq<char>)> {
    v.map_values(|p: (String, String)| (p.0@, p.1@))
}

/// The texts of a list of field values.
pub open spec fn texts_view(v: Seq<FieldValue>) -> Seq<Option<Seq<char>>> {
    v.map_values(|x: FieldValue| field_text(x))
}

/// Every chosen filter names a field of the allow-list.
proof fn lemma_keys_from_fields(
    fields: Seq<Seq<char>>,
    texts: Seq<Option<Seq<char>>>,
    ts: Seq<char>,
)
    ensures
        forall|i: int|
            0 <= i < chosen_filters(fields, texts, ts).len() ==> fields.contains(
                #[trigger] chosen_filters(fields, texts, ts)[i].0,
            ),
    decreases fields.len(),
{
    if fields.len() > 0 && texts.len() > 0 {
        let pre = fields.drop_last();
        lemma_keys_from_fields(pre, texts.drop_last(), ts);
        let rest = chosen_filters(pre, texts.drop_last(), ts);
        let all = chosen_filters(fields, texts, ts);
        assert forall|i: int| 0 <= i < all.len() implies fields.contains(#[trigger] all[i].0) by {
            if i < rest.len() {
                assert(all[i] == rest[i]);
                let k = choose|k: int| 0 <= k < pre.len() && pre[k] == rest[i].0;
                assert(fields[k] == pre[k]);
            } else {
                assert(fields[fields.len() - 1] == fields.last());
            }
        }
    }
}

/// No two chosen filters name the same field.
pub proof fn filter_keys_are_distinct(
    fields: Seq<Seq<char>>,
    texts: Seq<Option<Seq<char>>>,
    ts: Seq<char>,
)
    ensures
        forall|i: int, j: int|
            0 <= i < j < chosen_filters(fields, texts, ts).len() ==> chosen_filters(
                fields,
                texts,
                ts,
            )[i].0 != chosen_filters(fields, texts, ts)[j].0,
    decreases fields.len(),
{
    if fields.len() > 0 && texts.len() > 0 {
        let pre = fields.drop_last();
        filter_keys_are_distinct(pre, texts.drop_last(), ts);
        lemma_keys_from_fields(pre, texts.drop_last(), ts);
        let rest = chosen_filters(pre, texts.drop_last(), ts);
        let all = chosen_filters(fields, texts, ts);
        assert forall|i: int, j: int| 0 <= i < j < all.len() implies all[i].0 != all[j].0 by {
            assert(all[i] == rest[i]);
            if j < rest.len() {
                assert(all[j] == rest[j]);
            } else {
                assert(pre.contains(rest[i].0));
            }
        }
    }
}

/// Keeps the allow-listed fields that have a text value, in order, leaving out
/// null and missing ones, the timestamp column and repeated fields.
pub fn select_filters(fields: &Vec<String>, found: &Vec<FieldValue>) -> (r: Vec<(String, String)>)
    requires
        fields.len() == found.len(),
    ensures
        filters_view(r@) == chosen_filters(fields.deep_view(), texts_view(found@), TIMESTAMP_COL@),
{
    let mut out: Vec<(String, String)> = Vec::new();
    let mut i: usize = 0;
    while i < fields.len()
        invariant
            fields.len() == found.len(),
            i <= fields.len(),
            filters_view(out@) == chosen_filters(
                fields.deep_view().take(i as int),
                texts_view(found@).take(i as int),
                TIMESTAMP_COL@,
            ),
        decreases fields.len() - i,
    {
        let ghost prev = out@;
        let ghost pre = fields.deep_view().take(i as int);
        proof {
            assert(fields.deep_view().take(i + 1).drop_last() =~= pre);
            assert(texts_view(found@).take(i + 1).drop_last() =~= texts_view(found@).take(i as int));
            assert(fields.deep_view().take(i + 1).last() == fields[i as int]@);
            assert(texts_view(found@).take(i + 1).last() == field_text(found@[i as int]));
        }
        match &found[i] {
            FieldValue::Text(t) => {
                let repeated = occurs_before(fields, i);
                if !repeated && !str_eq(fields[i].as_str(), TIMESTAMP_COL) {
                    out.push((fields[i].clone(), t.clone()));
                    proof {
                        assert(filters_view(out@) =~= filters_view(prev).push((fields[i as int]@, t@)));
                    }
                }
            },
            _ => {},
        }
        i = i + 1;
    }
    proof {
        assert(fields.deep_view().take(fields.len() as int) =~= fields.deep_view());
        assert(texts_view(found@).take(found.len() as int) =~= texts_view(found@));
    }
    out
}

/// Whether `fields[i]` already occurs among the fields before it.
fn occurs_before(fields: &Vec<String>, i: usize) -> (r: bool)
    requires
        i < fields.len(),
    ensures
        r == fields.deep_view().take(i as int).contains(fields[i as int]@),
{
    let mut j: usize = 0;
    while j < i
        invariant
            i < fields.len(),
            j <= i,
            forall|k: int| 0 <= k < j ==> fields[k]@ != fields[i as int]@,
        decreases i - j,
    {
        if str_eq(fields[j].as_str(), fields[i].as_str()) {
            proof {
                assert(fields.deep_view().take(i as int)[j as int] == fields[i as int]@);
            }
            return true;
        }
        j = j + 1;
    }
    proof {
        let pre = fields.deep_view().take(i as int);
        assert forall|k: int| 0 <= k < pre.len() implies pre[k] != fields[i as int]@ by {
            assert(pre[k] == fields[k]@);
        }
    }
    false
}

/// Whether two strings hold the same characters.
pub fn str_eq(a: &str, b: &str) -> (r: bool)
    ensures
        r == (a@ == b@),
{
    let n = a.unicode_len();
    if n != b.unicode_len() {
        return false;
    }
    let mut i: usize = 0;
    while i < n
        invariant
            n == a@.len() == b@.len(),
            i <= n,
            a@.take(i as int) == b@.take(i as int),
        decreases n - i,
    {
        if a.get_char(i) != b.get_char(i) {
            return false;
        }
        proof {
            assert(a@.take(i + 1) =~= a@.take(i as int).push(a@[i as int]));
            assert(b@.take(i + 1) =~= b@.take(i as int).push(b@[i as int]));
        }
        i = i + 1;
    }
    proof {
        assert(a@.take(n as int) =~= a@);
        assert(b@.take(n as int) =~= b@);
    }
    true
}

/// Whether bytes are a JSON document.
pub uninterp spec fn is_json(b: Seq<u8>) -> bool;

/// Whether the document in `body` is an object with a member named `key`.
pub uninterp spec fn has_member(body: Seq<u8>, key: Seq<char>) -> bool;

/// Whether that member is JSON `null`.
pub uninterp spec fn member_is_null(body: Seq<u8>, key: Seq<char>) -> bool;

/// That member as an `i64`, when it is an integer that fits.
pub uninterp spec fn member_i64(body: Seq<u8>, key: Seq<char>) -> Option<i64>;

/// That member's text, when it is a JSON string.
pub uninterp spec fn member_str(body: Seq<u8>, key: Seq<char>) -> Option<Seq<char>>;

/// That member written as compact JSON text.
pub uninterp spec fn member_json(body: Seq<u8>, key: Seq<char>) -> Seq<char>;

/// A parsed payload, with the bytes it was parsed from.
pub struct JsonDoc {
    value: serde_json::Value,
    source: Ghost<Seq<u8>>,
}

/// One member of a parsed payload, with the bytes and the name it comes from.
pub struct JsonMember<'a> {
    value: &'a serde_json::Value,
    source: Ghost<Seq<u8>>,
    key: Ghost<Seq<char>>,
}

/// Relies on serde_json::from_slice: the document, exactly when the bytes are JSON.
#[verifier::external_body]
fn parse_json(body: &[u8]) -> (r: Option<JsonDoc>)
    ensures
        r is Some <==> is_json(body@),
        r matches Some(d) ==> d.source@ == body@,
{
    match serde_json::from_slice::<serde_json::Value>(body) {
        Ok(value) => Some(JsonDoc { value, source: Ghost(body@) }),
        Err(_) => None,
    }
}

/// Relies on serde_json::Value::get: the member named `key` when the document is
/// an object that has one.
#[verifier::external_body]
fn member<'a>(doc: &'a JsonDoc, key: &str) -> (r: Option<JsonMember<'a>>)
    ensures
        r is Some <==> has_member(doc.source@, key@),
        r matches Some(m) ==> m.source@ == doc.source@ && m.key@ == key@,
{
    match doc.value.get(key) {
        Some(value) => Some(JsonMember { value, source: Ghost(doc.source@), key: Ghost(key@) }),
        None => None,
    }
}

/// Relies on serde_json::Value::as_i64: the value as an `i64`, when it is an integer that fits.
#[verifier::external_body]
fn as_i64(m: &JsonMember) -> (r: Option<i64>)
    ensures
        r == member_i64(m.source@, m.key@),
{
    m.value.as_i64()
}

/// Relies on serde_json::Value::is_null: whether the value is JSON `null`.
#[verifier::external_body]
fn is_null(m: &JsonMember) -> (r: bool)
    ensures
        r == member_is_null(m.source@, m.key@),
{
    m.value.is_null()
}

/// Relies on serde_json::Value::as_str: the text of a JSON string.
#[verifier::external_body]
fn as_str(m: &JsonMember) -> (r: Option<String>)
    ensures
        opt_view(r) == member_str(m.source@, m.key@),
{
    m.value.as_str().map(|s| s.to_string())
}

/// Relies on serde_json::Value's `Display`: the compact JSON text of the value.
#[verifier::external_body]
fn json_text(m: &JsonMember) -> (r: String)
    ensures
        r@ == member_json(m.source@, m.key@),
{
    m.value.to_string()
}

/// What the payload `body` holds for `key` as filter text: a string's own text,
/// any other non-null value as JSON text; nothing for null or a missing member.
pub open spec fn member_text(body: Seq<u8>, key: Seq<char>) -> Option<Seq<char>> {
    if !has_member(body, key) || member_is_null(body, key) {
        None
    } else {
        match member_str(body, key) {
            Some(s) => Some(s),
            None => Some(member_json(body, key)),
        }
    }
}

/// The pivot after reading the payload: its integer `_timestamp`, if it has one.
pub open spec fn payload_pivot(body: Seq<u8>, pivot: i64) -> i64 {
    if has_member(body, TIMESTAMP_COL@) {
        match member_i64(body, TIMESTAMP_COL@) {
            Some(t) => t,
            None => pivot,
        }
    } else {
        pivot
    }
}

/// The filters a JSON payload gives for the allow-list `fields`.
pub open spec fn payload_filters(body: Seq<u8>, fields: Seq<Seq<char>>) -> Seq<(Seq<char>, Seq<char>)> {
    chosen_filters(
        fields,
        fields.map_values(|f: Seq<char>| member_text(body, f)),
        TIMESTAMP_COL@,
    )
}

/// The text a filter compares against: a string's own text, otherwise the JSON text.
fn string_value(m: &JsonMember) -> (r: String)
    ensures
        r@ == (match member_str(m.source@, m.key@) {
            Some(s) => s,
            None => member_json(m.source@, m.key@),
        }),
{
    match as_str(m) {
        Some(s) => s,
        None => json_text(m),
    }
}

/// What the payload `doc` holds for `field`.
fn lookup(doc: &JsonDoc, field: &str) -> (r: FieldValue)
    ensures
        field_text(r) == member_text(doc.source@, field@),
{
    match member(doc, field) {
        None => FieldValue::Missing,
        Some(m) => if is_null(&m) {
            FieldValue::Null
        } else {
            FieldValue::Text(string_value(&m))
        },
    }
}

/// Reads the pivot override and the filters from a payload. A payload that is not
/// JSON leaves the pivot as it is and gives no filters. Otherwise an integer
/// `_timestamp` member replaces the pivot, and each allow-listed field with a
/// non-null value becomes a filter.
pub fn read_payload(body: &[u8], fields: &Vec<String>, pivot: i64) -> (r: (
    i64,
    Vec<(String, String)>,
))
    ensures
        !is_json(body@) ==> r.0 == pivot && r.1@.len() == 0,
        is_json(body@) ==> r.0 == payload_pivot(body@, pivot),
        is_json(body@) ==> filters_view(r.1@) == payload_filters(body@, fields.deep_view()),
{
    match parse_json(body) {
        None => (pivot, Vec::new()),
        Some(doc) => {
            let new_pivot = match member(&doc, TIMESTAMP_COL) {
                Some(m) => match as_i64(&m) {
                    Some(ts) => ts,
                    None => pivot,
                },
                None => pivot,
            };
            let ghost texts = fields.deep_view().map_values(|f: Seq<char>| member_text(body@, f));
            let mut found: Vec<FieldValue> = Vec::new();
            let mut i: usize = 0;
            while i < fields.len()
                invariant
                    doc.source@ == body@,
                    texts == fields.deep_view().map_values(|f: Seq<char>| member_text(body@, f)),
                    i <= fields.len(),
                    found@.len() == i,
                    texts.len() == fields.len(),
                    texts_view(found@) == texts.take(i as int),
                decreases fields.len() - i,
            {
                let v = lookup(&doc, fields[i].as_str());
                let ghost prev = found@;
                found.push(v);
                proof {
                    assert(fields.deep_view()[i as int] == fields[i as int]@);
                    assert(texts[i as int] == member_text(body@, fields[i as int]@));
                    assert(found@ == prev.push(v));
                    assert(texts_view(found@)[i as int] == field_text(v));
                    assert(texts_view(found@) =~= texts.take(i + 1));
                }
                i = i + 1;
            }
            proof {
                assert(texts.take(fields.len() as int) =~= texts);
            }
            (new_pivot, select_filters(fields, &found))
        },
    }
}

} // verus!
