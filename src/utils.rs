//! Redaction of sensitive values, client IP selection and the JSON content
//! gate.

use vstd::prelude::*;
use crate::error::TreblleError;
use crate::json::{Json, JsonV};
use crate::pattern::{regex_matches, regex_valid, KeyPattern};
use crate::text::{
    chars_of, contains_seq, contains_str, first_field, lower_of, str_eq, string_from_chars,
    to_lowercase, trim, trimmed,
};

verus! {

/// The text that replaces a sensitive value.
pub open spec fn mask_text() -> Seq<char> {
    "*****"@
}

/// The media type that marks a JSON transaction.
pub open spec fn json_media_type() -> Seq<char> {
    "application/json"@
}

/// `v` with every object value whose key matches `pattern` replaced by the
/// mask; the masked values are not descended into, all others are.
pub open spec fn masked(v: JsonV, pattern: Seq<char>) -> JsonV
    decreases v,
{
    match v {
        JsonV::Array(items) => JsonV::Array(
            Seq::new(
                items.len(),
                |i: int|
                    if 0 <= i < items.len() {
                        masked(items[i], pattern)
                    } else {
                        JsonV::Null
                    },
            ),
        ),
        JsonV::Object(entries) => JsonV::Object(
            Seq::new(
                entries.len(),
                |i: int|
                    if 0 <= i < entries.len() {
                        (
                            entries[i].0,
                            if regex_matches(pattern, entries[i].0) {
                                JsonV::Str(mask_text())
                            } else {
                                masked(entries[i].1, pattern)
                            },
                        )
                    } else {
                        (Seq::empty(), JsonV::Null)
                    },
            ),
        ),
        _ => v,
    }
}

/// The model of a header list: names and values, in order.
pub open spec fn headers_view(h: Seq<(String, String)>) -> Seq<(Seq<char>, Seq<char>)> {
    h.map_values(|e: (String, String)| (e.0@, e.1@))
}

/// Header list `h` with the value of every header whose name matches
/// `pattern` replaced by the mask.
pub open spec fn masked_headers(h: Seq<(Seq<char>, Seq<char>)>, pattern: Seq<char>) -> Seq<
    (Seq<char>, Seq<char>),
> {
    h.map_values(
        |e: (Seq<char>, Seq<char>)|
            (e.0, if regex_matches(pattern, e.0) { mask_text() } else { e.1 }),
    )
}

/// The value of the first header named `name`, if any.
pub open spec fn header_lookup(h: Seq<(Seq<char>, Seq<char>)>, name: Seq<char>) -> Option<Seq<char>>
    decreases h.len(),
{
    if h.len() == 0 {
        None
    } else if h[0].0 == name {
        Some(h[0].1)
    } else {
        header_lookup(h.drop_first(), name)
    }
}

/// The client address a header list names: the first comma-separated part of
/// `X-Forwarded-For`, else of `X-Real-IP`, trimmed.
pub open spec fn ip_from_headers(h: Seq<(Seq<char>, Seq<char>)>) -> Option<Seq<char>> {
    let chosen = match header_lookup(h, "X-Forwarded-For"@) {
        Some(v) => Some(v),
        None => header_lookup(h, "X-Real-IP"@),
    };
    match chosen {
        Some(v) => Some(trimmed(first_field(v, ','))),
        None => None,
    }
}

/// A string holding the mask.
fn mask_string() -> (r: String)
    ensures
        r@ == mask_text(),
{
    String::from_str("*****")
}

/// `data` with the values at sensitive keys masked.
pub fn mask_value(data: &Json, pattern: &KeyPattern) -> (r: Json)
    ensures
        r@ == masked(data@, pattern.source()),
    decreases data,
{
    match data {
        Json::Null => Json::Null,
        Json::Bool(b) => Json::Bool(*b),
        Json::Number(n) => Json::Number(n.clone()),
        Json::Str(s) => Json::Str(s.clone()),
        Json::Array(items) => {
            let mut out: Vec<Json> = Vec::new();
            let mut i: usize = 0;
            while i < items.len()
                invariant
                    *data == Json::Array(*items),
                    i <= items.len(),
                    out.len() == i,
                    forall|k: int| 0 <= k < i ==> out@[k]@ == masked(items@[k]@, pattern.source()),
                decreases items.len() - i,
            {
                proof {
                    assert(decreases_to!(*data => data->Array_0));
                    assert(decreases_to!(*items => items[i as int]));
                }
                let m = mask_value(&items[i], pattern);
                out.push(m);
                i = i + 1;
            }
            let r = Json::Array(out);
            assert(r@ == masked(data@, pattern.source())) by {
                if let JsonV::Array(ms) = masked(data@, pattern.source()) {
                    if let JsonV::Array(rs) = r@ {
                        assert(rs =~= ms);
                    }
                }
            }
            r
        },
        Json::Object(entries) => {
            let mut out: Vec<(String, Json)> = Vec::new();
            let mut i: usize = 0;
            while i < entries.len()
                invariant
                    *data == Json::Object(*entries),
                    i <= entries.len(),
                    out.len() == i,
                    forall|k: int|
                        0 <= k < i ==> out@[k].0@ == entries@[k].0@ && out@[k].1@ == (
                        if regex_matches(pattern.source(), entries@[k].0@) {
                            JsonV::Str(mask_text())
                        } else {
                            masked(entries@[k].1@, pattern.source())
                        }),
                decreases entries.len() - i,
            {
                let key = entries[i].0.clone();
                let value = if pattern.is_match(entries[i].0.as_str()) {
                    Json::Str(mask_string())
                } else {
                    proof {
                        assert(decreases_to!(*data => data->Object_0));
                        assert(decreases_to!(*entries => entries[i as int]));
                        assert(decreases_to!(entries[i as int] => entries[i as int].1));
                    }
                    mask_value(&entries[i].1, pattern)
                };
                out.push((key, value));
                i = i + 1;
            }
            let r = Json::Object(out);
            assert(r@ == masked(data@, pattern.source())) by {
                if let JsonV::Object(ms) = masked(data@, pattern.source()) {
                    if let JsonV::Object(rs) = r@ {
                        assert(rs =~= ms);
                    }
                }
            }
            r
        },
    }
}

/// Masks the values at keys that match the regex `sensitive_keys_regex`,
/// at any depth; fails exactly when the regex does not compile.
pub fn mask_sensitive_data(data: &Json, sensitive_keys_regex: &str) -> (r: Result<Json, TreblleError>)
    ensures
        r is Ok <==> regex_valid(sensitive_keys_regex@),
        r matches Ok(v) ==> v@ == masked(data@, sensitive_keys_regex@),
        r matches Err(e) ==> e is Regex,
{
    let pattern = KeyPattern::new(sensitive_keys_regex)?;
    Ok(mask_value(data, &pattern))
}

/// `headers` with the value of every header whose name matches masked.
pub fn mask_headers(headers: &Vec<(String, String)>, pattern: &KeyPattern) -> (r: Vec<(String, String)>)
    ensures
        headers_view(r@) == masked_headers(headers_view(headers@), pattern.source()),
{
    let mut out: Vec<(String, String)> = Vec::new();
    let mut i: usize = 0;
    while i < headers.len()
        invariant
            i <= headers.len(),
            out.len() == i,
            forall|k: int|
                0 <= k < i ==> out@[k].0@ == headers@[k].0@ && out@[k].1@ == (
                if regex_matches(pattern.source(), headers@[k].0@) {
                    mask_text()
                } else {
                    headers@[k].1@
                }),
        decreases headers.len() - i,
    {
        let name = headers[i].0.clone();
        let value = if pattern.is_match(headers[i].0.as_str()) {
            mask_string()
        } else {
            headers[i].1.clone()
        };
        out.push((name, value));
        i = i + 1;
    }
    assert(headers_view(out@) =~= masked_headers(headers_view(headers@), pattern.source()));
    out
}

/// Masks the values of headers whose names match the regex
/// `sensitive_keys_regex`; fails exactly when the regex does not compile.
pub fn mask_sensitive_headers(headers: &Vec<(String, String)>, sensitive_keys_regex: &str) -> (r:
    Result<Vec<(String, String)>, TreblleError>)
    ensures
        r is Ok <==> regex_valid(sensitive_keys_regex@),
        r matches Ok(v) ==> headers_view(v@) == masked_headers(
            headers_view(headers@),
            sensitive_keys_regex@,
        ),
        r matches Err(e) ==> e is Regex,
{
    let pattern = KeyPattern::new(sensitive_keys_regex)?;
    Ok(mask_headers(headers, &pattern))
}

/// The value of the first header named `name`, if any.
pub fn get_header<'a>(headers: &'a Vec<(String, String)>, name: &str) -> (r: Option<&'a String>)
    ensures
        match r {
            Some(v) => header_lookup(headers_view(headers@), name@) == Some(v@),
            None => header_lookup(headers_view(headers@), name@) is None,
        },
{
    let mut i: usize = 0;
    assert(headers_view(headers@).skip(0) =~= headers_view(headers@));
    while i < headers.len()
        invariant
            i <= headers.len(),
            header_lookup(headers_view(headers@), name@) == header_lookup(
                headers_view(headers@).skip(i as int),
                name@,
            ),
        decreases headers.len() - i,
    {
        assert(headers_view(headers@).skip(i as int).drop_first() =~= headers_view(headers@).skip(
            i + 1,
        ));
        if str_eq(headers[i].0.as_str(), name) {
            return Some(&headers[i].1);
        }
        i = i + 1;
    }
    None
}

/// The characters of `s` before the first comma, or all of them.
fn before_first_comma(s: &str) -> (r: String)
    ensures
        r@ == first_field(s@, ','),
{
    let cs = chars_of(s);
    let mut i: usize = 0;
    assert(cs@.skip(0) =~= cs@);
    assert(cs@.take(0) =~= Seq::<char>::empty());
    while i < cs.len() && cs[i] != ','
        invariant
            cs@ == s@,
            i <= cs.len(),
            forall|k: int| 0 <= k < i ==> cs@[k] != ',',
            first_field(s@, ',') == cs@.take(i as int) + first_field(cs@.skip(i as int), ','),
        decreases cs.len() - i,
    {
        assert(cs@.skip(i as int).drop_first() =~= cs@.skip(i + 1));
        assert(cs@.take(i + 1) =~= cs@.take(i as int) + seq![cs@[i as int]]);
        i = i + 1;
    }
    if i == cs.len() {
        assert(cs@.skip(i as int) =~= Seq::<char>::empty());
    } else {
        assert(first_field(cs@.skip(i as int), ',') == Seq::<char>::empty());
    }
    assert(cs@.take(i as int) =~= cs@.subrange(0, i as int));
    string_from_chars(&cs, 0, i)
}

/// The client address: the first comma-separated part of `X-Forwarded-For`,
/// else of `X-Real-IP`, trimmed; `None` when neither header is present.
pub fn extract_ip_from_headers(headers: &Vec<(String, String)>) -> (r: Option<String>)
    ensures
        match r {
            Some(ip) => ip_from_headers(headers_view(headers@)) == Some(ip@),
            None => ip_from_headers(headers_view(headers@)) is None,
        },
{
    let chosen = match get_header(headers, "X-Forwarded-For") {
        Some(v) => Some(v),
        None => get_header(headers, "X-Real-IP"),
    };
    match chosen {
        Some(v) => {
            let part = before_first_comma(v.as_str());
            Some(trim(part.as_str()))
        },
        None => None,
    }
}

/// Whether an already lower-cased content type names JSON.
pub fn is_json_lowercase(lowered: &str) -> (r: bool)
    ensures
        r == contains_seq(lowered@, json_media_type()),
{
    contains_str(lowered, "application/json")
}

/// Whether a content type names JSON: `application/json` occurs in it,
/// ignoring case.
pub fn is_json(content_type: &str) -> (r: bool)
    ensures
        r == contains_seq(lower_of(content_type@), json_media_type()),
{
    let lowered = to_lowercase(content_type);
    is_json_lowercase(lowered.as_str())
}

/// Whether no object key in `v`, at any depth, matches `pattern`.
pub open spec fn free_of_sensitive(v: JsonV, pattern: Seq<char>) -> bool
    decreases v,
{
    match v {
        JsonV::Array(items) => forall|i: int|
            0 <= i < items.len() ==> free_of_sensitive(#[trigger] items[i], pattern),
        JsonV::Object(entries) => forall|i: int|
            0 <= i < entries.len() ==> !regex_matches(pattern, (#[trigger] entries[i]).0)
                && free_of_sensitive(entries[i].1, pattern),
        _ => true,
    }
}

/// Redaction keeps every key of an object, in order; the value at a key that
/// matches the pattern becomes exactly the mask, with nothing under it; the
/// value at any other key is redacted in turn. The value of a header whose
/// name matches becomes the mask.
pub proof fn lemma_redaction_completeness(
    v: JsonV,
    headers: Seq<(Seq<char>, Seq<char>)>,
    pattern: Seq<char>,
)
    ensures
        v is Object ==> masked(v, pattern) is Object && masked(v, pattern)->Object_0.len()
            == v->Object_0.len(),
        forall|i: int|
            #![trigger masked(v, pattern)->Object_0[i]]
            v is Object && 0 <= i < v->Object_0.len() ==> {
                let (k, x) = v->Object_0[i];
                &&& masked(v, pattern)->Object_0[i].0 == k
                &&& regex_matches(pattern, k) ==> masked(v, pattern)->Object_0[i].1 == JsonV::Str(
                    mask_text(),
                )
                &&& !regex_matches(pattern, k) ==> masked(v, pattern)->Object_0[i].1 == masked(
                    x,
                    pattern,
                )
            },
        masked_headers(headers, pattern).len() == headers.len(),
        forall|i: int|
            0 <= i < headers.len() && regex_matches(pattern, headers[i].0) ==> #[trigger] masked_headers(
                headers,
                pattern,
            )[i] == (headers[i].0, mask_text()),
{
}

/// A value with no sensitive key at any depth comes out of redaction
/// unchanged.
pub proof fn lemma_mask_identity(v: JsonV, pattern: Seq<char>)
    requires
        free_of_sensitive(v, pattern),
    ensures
        masked(v, pattern) == v,
    decreases v,
{
    match v {
        JsonV::Array(items) => {
            assert forall|i: int| 0 <= i < items.len() implies masked(items[i], pattern)
                == items[i] by {
                assert(free_of_sensitive(items[i], pattern));
                lemma_mask_identity(items[i], pattern);
            }
            assert(masked(v, pattern)->Array_0 =~= items);
        },
        JsonV::Object(entries) => {
            assert forall|i: int| 0 <= i < entries.len() implies masked(entries[i].1, pattern)
                == entries[i].1 by {
                assert(free_of_sensitive(entries[i].1, pattern));
                lemma_mask_identity(entries[i].1, pattern);
            }
            assert(masked(v, pattern)->Object_0 =~= entries);
        },
        _ => {},
    }
}

/// At a key that does not match the pattern, and whose value holds no
/// matching key, the redacted object holds the input value unchanged; a
/// header whose name does not match keeps its value.
pub proof fn lemma_redaction_soundness(
    v: JsonV,
    headers: Seq<(Seq<char>, Seq<char>)>,
    pattern: Seq<char>,
)
    ensures
        forall|i: int|
            #![trigger masked(v, pattern)->Object_0[i]]
            v is Object && 0 <= i < v->Object_0.len() && !regex_matches(pattern, v->Object_0[i].0)
                && free_of_sensitive(v->Object_0[i].1, pattern) ==> masked(v, pattern)->Object_0[i]
                == v->Object_0[i],
        forall|i: int|
            0 <= i < headers.len() && !regex_matches(pattern, headers[i].0) ==> #[trigger] masked_headers(
                headers,
                pattern,
            )[i] == headers[i],
{
    assert forall|i: int|
        #![trigger masked(v, pattern)->Object_0[i]]
        v is Object && 0 <= i < v->Object_0.len() && !regex_matches(pattern, v->Object_0[i].0)
            && free_of_sensitive(v->Object_0[i].1, pattern) implies masked(v, pattern)->Object_0[i]
        == v->Object_0[i] by {
        lemma_mask_identity(v->Object_0[i].1, pattern);
    }
}

} // verus!
