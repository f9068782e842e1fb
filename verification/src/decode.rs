//! Decoding of response JSON into the library's typed values. A decoder
//! dispatches on the selector discriminant, requires every field the
//! shape declares, ignores unknown fields, and fails on anything else.
use vstd::prelude::*;

use crate::annotations::{
    Annotation, AnnotationV, Permissions, PermissionsV, Selector, SelectorV, Target, TargetV,
    TextPositionSelector, TextQuoteSelector, TextQuoteSelectorV, UserInfo, UserInfoV,
};
use crate::errors::{APIError, APIErrorV};
use crate::UserAccountID;
use crate::json::{
    clone_json, field_views_of, lemma_field_views_of_deep, lemma_lookup_at, lookup, spec_has_key,
    spec_lookup, view_of, JsonV, JsonValue,
};

verus! {

/// Decoded string items: every element must be a JSON string.
pub open spec fn spec_decode_string_items(items: Seq<JsonV>) -> Option<Seq<Seq<char>>>
    decreases items.len(),
{
    if items.len() == 0 {
        Some(Seq::empty())
    } else {
        match (items[0], spec_decode_string_items(items.drop_first())) {
            (JsonV::Str(s), Some(rest)) => Some(seq![s] + rest),
            _ => None,
        }
    }
}

/// A decoded string array.
pub open spec fn spec_decode_strings(v: JsonV) -> Option<Seq<Seq<char>>> {
    match v {
        JsonV::Arr(items) => spec_decode_string_items(items),
        _ => None,
    }
}

/// An object's fields with every `type` discriminant entry removed: what
/// remains of a range selector's wire form once the discriminant is read.
pub open spec fn spec_strip_tag(fields: Seq<(Seq<char>, JsonV)>) -> Seq<(Seq<char>, JsonV)>
    decreases fields.len(),
{
    if fields.len() == 0 {
        Seq::empty()
    } else if fields.last().0 == "type"@ {
        spec_strip_tag(fields.drop_last())
    } else {
        spec_strip_tag(fields.drop_last()).push(fields.last())
    }
}

/// The selector decoded from a JSON value: an object whose `type` field
/// names one of the three variants, with that variant's fields present
/// and well-typed; unknown sibling fields are ignored; a range selector
/// keeps every field but the discriminant.
pub open spec fn spec_decode_selector(v: JsonV) -> Option<SelectorV> {
    match v {
        JsonV::Obj(fields) => match spec_lookup(fields, "type"@) {
            Some(JsonV::Str(tag)) => if tag == "TextQuoteSelector"@ {
                match (
                    spec_lookup(fields, "exact"@),
                    spec_lookup(fields, "prefix"@),
                    spec_lookup(fields, "suffix"@),
                ) {
                    (Some(JsonV::Str(e)), Some(JsonV::Str(p)), Some(JsonV::Str(sx))) => Some(
                        SelectorV::TextQuoteSelector(
                            TextQuoteSelectorV { exact: e, prefix: p, suffix: sx },
                        ),
                    ),
                    _ => None,
                }
            } else if tag == "TextPositionSelector"@ {
                match (spec_lookup(fields, "start"@), spec_lookup(fields, "end"@)) {
                    (Some(JsonV::UInt(s)), Some(JsonV::UInt(e))) => Some(
                        SelectorV::TextPositionSelector(TextPositionSelector { start: s, end: e }),
                    ),
                    _ => None,
                }
            } else if tag == "RangeSelector"@ {
                Some(SelectorV::RangeSelector(spec_strip_tag(fields)))
            } else {
                None
            },
            _ => None,
        },
        _ => None,
    }
}

/// Decoded selector items: every element must decode.
pub open spec fn spec_decode_selector_items(items: Seq<JsonV>) -> Option<Seq<SelectorV>>
    decreases items.len(),
{
    if items.len() == 0 {
        Some(Seq::empty())
    } else {
        match (spec_decode_selector(items[0]), spec_decode_selector_items(items.drop_first())) {
            (Some(s), Some(rest)) => Some(seq![s] + rest),
            _ => None,
        }
    }
}

/// The target decoded from a JSON value: `source` is required, a missing
/// `selector` field means no selectors.
pub open spec fn spec_decode_target(v: JsonV) -> Option<TargetV> {
    match v {
        JsonV::Obj(fields) => match spec_lookup(fields, "source"@) {
            Some(JsonV::Str(src)) => match spec_lookup(fields, "selector"@) {
                None => Some(TargetV { source: src, selector: Seq::empty() }),
                Some(JsonV::Arr(items)) => match spec_decode_selector_items(items) {
                    Some(sels) => Some(TargetV { source: src, selector: sels }),
                    None => None,
                },
                Some(_) => None,
            },
            _ => None,
        },
        _ => None,
    }
}

/// Decoded target items: every element must decode.
pub open spec fn spec_decode_target_items(items: Seq<JsonV>) -> Option<Seq<TargetV>>
    decreases items.len(),
{
    if items.len() == 0 {
        Some(Seq::empty())
    } else {
        match (spec_decode_target(items[0]), spec_decode_target_items(items.drop_first())) {
            (Some(t), Some(rest)) => Some(seq![t] + rest),
            _ => None,
        }
    }
}

/// Decode a JSON array of strings.
#[verifier::loop_isolation(false)]
pub fn decode_strings(v: &JsonValue) -> (r: Option<Vec<String>>)
    ensures
        match r {
            Some(ss) => spec_decode_strings(v@) == Some(ss.deep_view()),
            None => spec_decode_strings(v@) is None,
        },
{
    let items = match v {
        JsonValue::Arr(items) => items,
        _ => { return None; },
    };
    proof {
        crate::json::lemma_views_of_deep(*items);
    }
    let ghost model = items.deep_view();
    let mut out: Vec<String> = Vec::new();
    let mut i: usize = 0;
    proof {
        assert(model.skip(0) =~= model);
        assert(out.deep_view() =~= Seq::<Seq<char>>::empty());
    }
    while i < items.len()
        invariant
            i <= items@.len(),
            out@.len() == i,
            match spec_decode_string_items(model.skip(i as int)) {
                Some(rest) => spec_decode_string_items(model) == Some(out.deep_view() + rest),
                None => spec_decode_string_items(model) is None,
            },
        decreases items@.len() - i,
    {
        let ghost pre = out.deep_view();
        match &items[i] {
            JsonValue::Str(s) => {
                out.push(s.clone());
            },
            _ => {
                return None;
            },
        }
        proof {
            assert(model.skip(i as int).drop_first() =~= model.skip(i + 1));
            assert(out.deep_view() =~= pre.push(model[i as int]->Str_0));
            match spec_decode_string_items(model.skip(i + 1)) {
                Some(rest) => {
                    assert(pre.push(model[i as int]->Str_0) + rest =~= pre + (seq![
                        model[i as int]->Str_0,
                    ] + rest));
                },
                None => {},
            }
        }
        i += 1;
    }
    proof {
        assert(model.skip(items@.len() as int) =~= Seq::<JsonV>::empty());
        assert(out.deep_view() + Seq::<Seq<char>>::empty() =~= out.deep_view());
    }
    Some(out)
}

/// Decode one selector, dispatching on its `type` discriminant.
#[verifier::loop_isolation(false)]
pub fn decode_selector(v: &JsonValue) -> (r: Option<Selector>)
    ensures
        match r {
            Some(s) => spec_decode_selector(v@) == Some(s@),
            None => spec_decode_selector(v@) is None,
        },
{
    let fields = match v {
        JsonValue::Obj(fields) => fields,
        _ => { return None; },
    };
    proof {
        lemma_field_views_of_deep(*fields);
    }
    let ghost model = fields.deep_view();
    let tag_key = "type".to_owned();
    let tag_value = match lookup(fields, &tag_key) {
        Some(t) => t,
        None => { return None; },
    };
    let tag = match tag_value {
        JsonValue::Str(t) => t,
        _ => { return None; },
    };
    if tag.eq(&"TextQuoteSelector".to_owned()) {
        let exact = match lookup(fields, &"exact".to_owned()) {
            Some(JsonValue::Str(s)) => s.clone(),
            _ => { return None; },
        };
        let prefix = match lookup(fields, &"prefix".to_owned()) {
            Some(JsonValue::Str(s)) => s.clone(),
            _ => { return None; },
        };
        let suffix = match lookup(fields, &"suffix".to_owned()) {
            Some(JsonValue::Str(s)) => s.clone(),
            _ => { return None; },
        };
        Some(Selector::TextQuoteSelector(TextQuoteSelector { exact, prefix, suffix }))
    } else if tag.eq(&"TextPositionSelector".to_owned()) {
        let start = match lookup(fields, &"start".to_owned()) {
            Some(JsonValue::UInt(n)) => *n,
            _ => { return None; },
        };
        let end = match lookup(fields, &"end".to_owned()) {
            Some(JsonValue::UInt(n)) => *n,
            _ => { return None; },
        };
        Some(Selector::TextPositionSelector(TextPositionSelector { start, end }))
    } else if tag.eq(&"RangeSelector".to_owned()) {
        let mut out: Vec<(String, JsonValue)> = Vec::new();
        let mut i: usize = 0;
        proof {
            assert(model.take(0) =~= Seq::<(Seq<char>, JsonV)>::empty());
            assert(out.deep_view() =~= spec_strip_tag(model.take(0)));
        }
        while i < fields.len()
            invariant
                i <= fields@.len(),
                out.deep_view() == spec_strip_tag(model.take(i as int)),
            decreases fields@.len() - i,
        {
            let ghost pre = out.deep_view();
            let entry = &fields[i];
            if !entry.0.eq(&tag_key) {
                out.push((entry.0.clone(), clone_json(&entry.1)));
                proof {
                    assert(out.deep_view() =~= pre.push(model[i as int]));
                }
            }
            proof {
                assert(model.take(i + 1).drop_last() =~= model.take(i as int));
                assert(out.deep_view() =~= spec_strip_tag(model.take(i + 1)));
            }
            i += 1;
        }
        proof {
            assert(model.take(fields@.len() as int) =~= model);
        }
        Some(Selector::RangeSelector(out))
    } else {
        None
    }
}

/// Decode a JSON array of selectors.
#[verifier::loop_isolation(false)]
fn decode_selector_items(items: &Vec<JsonValue>) -> (r: Option<Vec<Selector>>)
    ensures
        match r {
            Some(ss) => spec_decode_selector_items(items.deep_view()) == Some(ss.deep_view()),
            None => spec_decode_selector_items(items.deep_view()) is None,
        },
{
    let ghost model = items.deep_view();
    let mut out: Vec<Selector> = Vec::new();
    let mut i: usize = 0;
    proof {
        assert(model.skip(0) =~= model);
        assert(out.deep_view() =~= Seq::<SelectorV>::empty());
    }
    while i < items.len()
        invariant
            i <= items@.len(),
            out@.len() == i,
            match spec_decode_selector_items(model.skip(i as int)) {
                Some(rest) => spec_decode_selector_items(model) == Some(out.deep_view() + rest),
                None => spec_decode_selector_items(model) is None,
            },
        decreases items@.len() - i,
    {
        let ghost pre = out.deep_view();
        match decode_selector(&items[i]) {
            Some(s) => {
                out.push(s);
                proof {
                    assert(out.deep_view() =~= pre.push(s@));
                }
            },
            None => {
                return None;
            },
        }
        proof {
            assert(model.skip(i as int).drop_first() =~= model.skip(i + 1));
            match spec_decode_selector_items(model.skip(i + 1)) {
                Some(rest) => {
                    assert(out.deep_view() + rest =~= pre + (seq![out.deep_view().last()]
                        + rest));
                },
                None => {},
            }
        }
        i += 1;
    }
    proof {
        assert(model.skip(items@.len() as int) =~= Seq::<JsonV>::empty());
        assert(out.deep_view() + Seq::<SelectorV>::empty() =~= out.deep_view());
    }
    Some(out)
}

/// Decode one target.
pub fn decode_target(v: &JsonValue) -> (r: Option<Target>)
    ensures
        match r {
            Some(t) => spec_decode_target(v@) == Some(t@),
            None => spec_decode_target(v@) is None,
        },
{
    let fields = match v {
        JsonValue::Obj(fields) => fields,
        _ => { return None; },
    };
    proof {
        lemma_field_views_of_deep(*fields);
    }
    let source = match lookup(fields, &"source".to_owned()) {
        Some(JsonValue::Str(s)) => s.clone(),
        _ => { return None; },
    };
    let selector: Vec<Selector> = match lookup(fields, &"selector".to_owned()) {
        None => Vec::new(),
        Some(JsonValue::Arr(items)) => {
            proof {
                crate::json::lemma_views_of_deep(*items);
            }
            match decode_selector_items(items) {
                Some(ss) => ss,
                None => { return None; },
            }
        },
        Some(_) => { return None; },
    };
    let t = Target { source, selector };
    proof {
        assert(spec_decode_target(v@) == Some(t@)) by {
            assert(spec_decode_target(v@)->0 =~= t@);
        }
    }
    Some(t)
}

/// Decode a JSON array of targets.
#[verifier::loop_isolation(false)]
pub fn decode_target_items(items: &Vec<JsonValue>) -> (r: Option<Vec<Target>>)
    ensures
        match r {
            Some(ts) => spec_decode_target_items(items.deep_view()) == Some(ts.deep_view()),
            None => spec_decode_target_items(items.deep_view()) is None,
        },
{
    let ghost model = items.deep_view();
    let mut out: Vec<Target> = Vec::new();
    let mut i: usize = 0;
    proof {
        assert(model.skip(0) =~= model);
        assert(out.deep_view() =~= Seq::<TargetV>::empty());
    }
    while i < items.len()
        invariant
            i <= items@.len(),
            out@.len() == i,
            match spec_decode_target_items(model.skip(i as int)) {
                Some(rest) => spec_decode_target_items(model) == Some(out.deep_view() + rest),
                None => spec_decode_target_items(model) is None,
            },
        decreases items@.len() - i,
    {
        let ghost pre = out.deep_view();
        match decode_target(&items[i]) {
            Some(t) => {
                out.push(t);
                proof {
                    assert(out.deep_view() =~= pre.push(t@));
                }
            },
            None => {
                return None;
            },
        }
        proof {
            assert(model.skip(i as int).drop_first() =~= model.skip(i + 1));
            match spec_decode_target_items(model.skip(i + 1)) {
                Some(rest) => {
                    assert(out.deep_view() + rest =~= pre + (seq![out.deep_view().last()]
                        + rest));
                },
                None => {},
            }
        }
        i += 1;
    }
    proof {
        assert(model.skip(items@.len() as int) =~= Seq::<JsonV>::empty());
        assert(out.deep_view() + Seq::<TargetV>::empty() =~= out.deep_view());
    }
    Some(out)
}

/// Stripping the discriminant from a discriminant-plus-bag object gives
/// back the bag, provided the bag itself carries no discriminant entry.
proof fn lemma_strip_tag_restores(m: Seq<(Seq<char>, JsonV)>)
    requires
        !spec_has_key(m, "type"@),
    ensures
        spec_strip_tag(seq![("type"@, JsonV::Str("RangeSelector"@))] + m) == m,
    decreases m.len(),
{
    let tagged = seq![("type"@, JsonV::Str("RangeSelector"@))] + m;
    lemma_no_key_no_entry(m, "type"@);
    if m.len() == 0 {
        assert(tagged.len() == 1);
        assert(tagged.last() == ("type"@, JsonV::Str("RangeSelector"@)));
        assert(tagged.drop_last() =~= Seq::<(Seq<char>, JsonV)>::empty());
        assert(spec_strip_tag(tagged.drop_last()) == Seq::<(Seq<char>, JsonV)>::empty());
        assert(spec_strip_tag(tagged) =~= m);
    } else {
        lemma_no_key_prefix(m, "type"@);
        lemma_strip_tag_restores(m.drop_last());
        assert(tagged.drop_last() =~= seq![("type"@, JsonV::Str("RangeSelector"@))]
            + m.drop_last());
        assert(tagged.last() == m.last());
        assert(m.last().0 != "type"@);
        assert(spec_strip_tag(tagged) =~= m.drop_last().push(m.last()));
        assert(m.drop_last().push(m.last()) =~= m);
    }
}

/// A field list without a key has no entry under that key.
proof fn lemma_no_key_no_entry(m: Seq<(Seq<char>, JsonV)>, key: Seq<char>)
    requires
        !spec_has_key(m, key),
    ensures
        forall|i: int| 0 <= i < m.len() ==> (#[trigger] m[i]).0 != key,
    decreases m.len(),
{
    if m.len() > 0 {
        lemma_no_key_no_entry(m.drop_first(), key);
        assert(forall|i: int| 1 <= i < m.len() ==> (#[trigger] m[i]) == m.drop_first()[i - 1]);
    }
}

/// Dropping the last entry keeps a key absent.
proof fn lemma_no_key_prefix(m: Seq<(Seq<char>, JsonV)>, key: Seq<char>)
    requires
        !spec_has_key(m, key),
        m.len() > 0,
    ensures
        !spec_has_key(m.drop_last(), key),
    decreases m.len(),
{
    if m.len() > 1 {
        lemma_no_key_prefix(m.drop_first(), key);
        assert(m.drop_first().drop_last() =~= m.drop_last().drop_first());
    } else {
        assert(m.drop_last() =~= Seq::<(Seq<char>, JsonV)>::empty());
    }
}

/// Encoding then decoding a selector yields the original value, for each
/// of the three variants; a range selector's opaque bag must not itself
/// carry a `type` entry, since that slot holds the discriminant on the
/// wire.
pub proof fn lemma_selector_round_trip(s: SelectorV)
    requires
        s matches SelectorV::RangeSelector(m) ==> !spec_has_key(m, "type"@),
    ensures
        spec_decode_selector(crate::encode::spec_selector_json(s)) == Some(s),
{
    broadcast use vstd::string::group_string_axioms;

    reveal_strlit("type");
    reveal_strlit("exact");
    reveal_strlit("prefix");
    reveal_strlit("suffix");
    reveal_strlit("start");
    reveal_strlit("end");
    reveal_strlit("TextQuoteSelector");
    reveal_strlit("TextPositionSelector");
    reveal_strlit("RangeSelector");
    assert(("type"@).len() == 4);
    assert(("exact"@).len() == 5);
    assert(("prefix"@).len() == 6);
    assert(("suffix"@).len() == 6);
    assert(("start"@).len() == 5);
    assert(("end"@).len() == 3);
    assert(("TextQuoteSelector"@).len() == 17);
    assert(("TextPositionSelector"@).len() == 20);
    assert(("RangeSelector"@).len() == 13);
    assert(("prefix"@) != ("suffix"@)) by {
        assert(("prefix"@)[0] == 'p');
        assert(("suffix"@)[0] == 's');
    }
    match s {
        SelectorV::TextQuoteSelector(q) => {
            let fields = seq![
                ("type"@, JsonV::Str("TextQuoteSelector"@)),
                ("exact"@, JsonV::Str(q.exact)),
                ("prefix"@, JsonV::Str(q.prefix)),
                ("suffix"@, JsonV::Str(q.suffix)),
            ];
            lemma_lookup_at(fields, "type"@, 0);
            lemma_lookup_at(fields, "exact"@, 1);
            lemma_lookup_at(fields, "prefix"@, 2);
            lemma_lookup_at(fields, "suffix"@, 3);
            assert(TextQuoteSelectorV { exact: q.exact, prefix: q.prefix, suffix: q.suffix }
                =~= q);
            assert(crate::encode::spec_selector_json(s) == JsonV::Obj(fields));
            assert(spec_lookup(fields, "type"@) == Some(JsonV::Str("TextQuoteSelector"@)));
            assert(spec_lookup(fields, "exact"@) == Some(JsonV::Str(q.exact)));
            assert(spec_decode_selector(JsonV::Obj(fields)) == Some(
                SelectorV::TextQuoteSelector(
                    TextQuoteSelectorV { exact: q.exact, prefix: q.prefix, suffix: q.suffix },
                ),
            ));
            assert(spec_decode_selector(crate::encode::spec_selector_json(s)) == Some(s));
        },
        SelectorV::TextPositionSelector(p) => {
            let fields = seq![
                ("type"@, JsonV::Str("TextPositionSelector"@)),
                ("start"@, JsonV::UInt(p.start)),
                ("end"@, JsonV::UInt(p.end)),
            ];
            lemma_lookup_at(fields, "type"@, 0);
            lemma_lookup_at(fields, "start"@, 1);
            lemma_lookup_at(fields, "end"@, 2);
            assert(TextPositionSelector { start: p.start, end: p.end } == p);
            assert(crate::encode::spec_selector_json(s) == JsonV::Obj(fields));
            assert(spec_decode_selector(JsonV::Obj(fields)) == Some(
                SelectorV::TextPositionSelector(TextPositionSelector { start: p.start, end: p.end }),
            ));
            assert(spec_decode_selector(crate::encode::spec_selector_json(s)) == Some(s));
        },
        SelectorV::RangeSelector(m) => {
            lemma_strip_tag_restores(m);
            let tagged = seq![("type"@, JsonV::Str("RangeSelector"@))] + m;
            assert(crate::encode::spec_selector_json(s) == JsonV::Obj(tagged));
            assert(tagged[0] == ("type"@, JsonV::Str("RangeSelector"@)));
            lemma_lookup_at(tagged, "type"@, 0);
            assert(spec_strip_tag(tagged) == m);
            assert(spec_decode_selector(crate::encode::spec_selector_json(s)) == Some(s));
        },
    }
}

/// A required string field: present and a JSON string.
pub open spec fn str_field(fields: Seq<(Seq<char>, JsonV)>, key: Seq<char>) -> Option<Seq<char>> {
    match spec_lookup(fields, key) {
        Some(JsonV::Str(s)) => Some(s),
        _ => None,
    }
}

/// A required boolean field: present and a JSON boolean.
pub open spec fn bool_field(fields: Seq<(Seq<char>, JsonV)>, key: Seq<char>) -> Option<bool> {
    match spec_lookup(fields, key) {
        Some(JsonV::Bool(b)) => Some(b),
        _ => None,
    }
}

/// A required string-array field: present and an array of strings.
pub open spec fn strings_field(fields: Seq<(Seq<char>, JsonV)>, key: Seq<char>) -> Option<
    Seq<Seq<char>>,
> {
    match spec_lookup(fields, key) {
        Some(v) => spec_decode_strings(v),
        None => None,
    }
}

/// What parsing an RFC 3339 timestamp yields: its epoch milliseconds, or
/// `None` when the text is not a valid timestamp. The result depends on
/// the characters alone.
pub uninterp spec fn rfc3339_time(s: Seq<char>) -> Option<i64>;

/// Relies on chrono's DateTime::parse_from_rfc3339 and timestamp_millis:
/// parses an RFC 3339 date-and-time string; the result is a function of
/// the characters alone.
#[verifier::external_body]
pub(crate) fn parse_rfc3339(s: &str) -> (r: Option<i64>)
    ensures
        r == rfc3339_time(s@),
{
    chrono::DateTime::parse_from_rfc3339(s).ok().map(|t| t.timestamp_millis())
}

/// The permissions decoded from a JSON value: four required principal
/// lists.
pub open spec fn spec_decode_permissions(v: JsonV) -> Option<PermissionsV> {
    match v {
        JsonV::Obj(fields) => match (
            strings_field(fields, "read"@),
            strings_field(fields, "delete"@),
            strings_field(fields, "admin"@),
            strings_field(fields, "update"@),
        ) {
            (Some(r), Some(d), Some(a), Some(u)) => Some(
                PermissionsV { read: r, delete: d, admin: a, update: u },
            ),
            _ => None,
        },
        _ => None,
    }
}

/// The user info decoded from a JSON value: a missing display name means
/// an empty one.
pub open spec fn spec_decode_user_info(v: JsonV) -> Option<UserInfoV> {
    match v {
        JsonV::Obj(fields) => match spec_lookup(fields, "display_name"@) {
            None => Some(UserInfoV { display_name: Seq::empty() }),
            Some(JsonV::Str(s)) => Some(UserInfoV { display_name: s }),
            Some(_) => None,
        },
        _ => None,
    }
}

/// Decoded link entries: every value must be a JSON string.
pub open spec fn spec_decode_link_items(fields: Seq<(Seq<char>, JsonV)>) -> Option<
    Seq<(Seq<char>, Seq<char>)>,
>
    decreases fields.len(),
{
    if fields.len() == 0 {
        Some(Seq::empty())
    } else {
        match (fields[0].1, spec_decode_link_items(fields.drop_first())) {
            (JsonV::Str(s), Some(rest)) => Some(seq![(fields[0].0, s)] + rest),
            _ => None,
        }
    }
}

/// The hypermedia link map decoded from a JSON value: an object whose
/// values are all strings.
pub open spec fn spec_decode_links(v: JsonV) -> Option<Seq<(Seq<char>, Seq<char>)>> {
    match v {
        JsonV::Obj(fields) => spec_decode_link_items(fields),
        _ => None,
    }
}

/// Whether an optional `references` field decodes: missing means empty.
pub open spec fn references_ok(fields: Seq<(Seq<char>, JsonV)>) -> bool {
    match spec_lookup(fields, "references"@) {
        None => true,
        Some(v) => spec_decode_strings(v) is Some,
    }
}

/// The decoded `references` field.
pub open spec fn spec_references_of(fields: Seq<(Seq<char>, JsonV)>) -> Seq<Seq<char>> {
    match spec_lookup(fields, "references"@) {
        None => Seq::empty(),
        Some(v) => spec_decode_strings(v)->0,
    }
}

/// Whether an optional `user_info` field decodes: missing or null means
/// none.
pub open spec fn user_info_ok(fields: Seq<(Seq<char>, JsonV)>) -> bool {
    match spec_lookup(fields, "user_info"@) {
        None => true,
        Some(JsonV::Null) => true,
        Some(v) => spec_decode_user_info(v) is Some,
    }
}

/// The decoded `user_info` field.
pub open spec fn spec_user_info_of(fields: Seq<(Seq<char>, JsonV)>) -> Option<UserInfoV> {
    match spec_lookup(fields, "user_info"@) {
        None => None,
        Some(JsonV::Null) => None,
        Some(v) => spec_decode_user_info(v),
    }
}

/// Whether an object's fields carry a full annotation resource: all
/// required fields present and well-typed, both timestamps valid RFC
/// 3339 text, `references` and `user_info` optional.
pub open spec fn annotation_fields_ok(fields: Seq<(Seq<char>, JsonV)>) -> bool {
    &&& str_field(fields, "id"@) is Some
    &&& str_field(fields, "created"@) matches Some(c) && rfc3339_time(c) is Some
    &&& str_field(fields, "updated"@) matches Some(u) && rfc3339_time(u) is Some
    &&& str_field(fields, "user"@) is Some
    &&& str_field(fields, "uri"@) is Some
    &&& str_field(fields, "text"@) is Some
    &&& strings_field(fields, "tags"@) is Some
    &&& str_field(fields, "group"@) is Some
    &&& spec_lookup(fields, "permissions"@) matches Some(pv) && spec_decode_permissions(pv)
        is Some
    &&& spec_lookup(fields, "target"@) matches Some(JsonV::Arr(items))
        && spec_decode_target_items(items) is Some
    &&& spec_lookup(fields, "links"@) matches Some(lv) && spec_decode_links(lv) is Some
    &&& bool_field(fields, "hidden"@) is Some
    &&& bool_field(fields, "flagged"@) is Some
    &&& references_ok(fields)
    &&& user_info_ok(fields)
}

/// The annotation built from an object's fields (meaningful when
/// `annotation_fields_ok` holds).
pub open spec fn spec_annotation_of(fields: Seq<(Seq<char>, JsonV)>) -> AnnotationV {
    AnnotationV {
        id: str_field(fields, "id"@)->0,
        created: str_field(fields, "created"@)->0,
        updated: str_field(fields, "updated"@)->0,
        user: str_field(fields, "user"@)->0,
        uri: str_field(fields, "uri"@)->0,
        text: str_field(fields, "text"@)->0,
        tags: strings_field(fields, "tags"@)->0,
        group: str_field(fields, "group"@)->0,
        permissions: spec_decode_permissions(spec_lookup(fields, "permissions"@)->0)->0,
        target: spec_decode_target_items(spec_lookup(fields, "target"@)->0->Arr_0)->0,
        links: spec_decode_links(spec_lookup(fields, "links"@)->0)->0,
        hidden: bool_field(fields, "hidden"@)->0,
        flagged: bool_field(fields, "flagged"@)->0,
        references: spec_references_of(fields),
        user_info: spec_user_info_of(fields),
    }
}

/// The annotation decoded from a JSON value.
pub open spec fn spec_decode_annotation(v: JsonV) -> Option<AnnotationV> {
    match v {
        JsonV::Obj(fields) => if annotation_fields_ok(fields) {
            Some(spec_annotation_of(fields))
        } else {
            None
        },
        _ => None,
    }
}

/// Decoded annotation items: every element must decode.
pub open spec fn spec_decode_annotation_items(items: Seq<JsonV>) -> Option<Seq<AnnotationV>>
    decreases items.len(),
{
    if items.len() == 0 {
        Some(Seq::empty())
    } else {
        match (
            spec_decode_annotation(items[0]),
            spec_decode_annotation_items(items.drop_first()),
        ) {
            (Some(a), Some(rest)) => Some(seq![a] + rest),
            _ => None,
        }
    }
}

/// The rows of a search response envelope `{rows, total}`: both fields
/// are required, `total` must be an unsigned integer that fits the
/// platform's word, and every row must be an annotation.
pub open spec fn spec_decode_search(v: JsonV) -> Option<Seq<AnnotationV>> {
    match v {
        JsonV::Obj(fields) => match (
            spec_lookup(fields, "rows"@),
            spec_lookup(fields, "total"@),
        ) {
            (Some(JsonV::Arr(items)), Some(JsonV::UInt(n))) => if n <= usize::MAX as u64 {
                spec_decode_annotation_items(items)
            } else {
                None
            },
            _ => None,
        },
        _ => None,
    }
}

/// The deleted flag of a deletion response envelope `{id, deleted}`:
/// both fields are required.
pub open spec fn spec_decode_deletion(v: JsonV) -> Option<bool> {
    match v {
        JsonV::Obj(fields) => match (spec_lookup(fields, "id"@), spec_lookup(fields, "deleted"@)) {
            (Some(JsonV::Str(_)), Some(JsonV::Bool(b))) => Some(b),
            _ => None,
        },
        _ => None,
    }
}

/// The structured service error decoded from a JSON value: `status` and
/// `reason` are required strings.
pub open spec fn spec_decode_api_error(v: JsonV) -> Option<APIErrorV> {
    match v {
        JsonV::Obj(fields) => match (str_field(fields, "status"@), str_field(fields, "reason"@)) {
            (Some(st), Some(re)) => Some(APIErrorV { status: st, reason: re }),
            _ => None,
        },
        _ => None,
    }
}

/// Decode the permissions maps.
pub fn decode_permissions(v: &JsonValue) -> (r: Option<Permissions>)
    ensures
        match r {
            Some(p) => spec_decode_permissions(v@) == Some(p@),
            None => spec_decode_permissions(v@) is None,
        },
{
    let fields = match v {
        JsonValue::Obj(fields) => fields,
        _ => { return None; },
    };
    proof {
        lemma_field_views_of_deep(*fields);
    }
    let read = match lookup(fields, &"read".to_owned()) {
        Some(x) => match decode_strings(x) {
            Some(ss) => ss,
            None => { return None; },
        },
        None => { return None; },
    };
    let delete = match lookup(fields, &"delete".to_owned()) {
        Some(x) => match decode_strings(x) {
            Some(ss) => ss,
            None => { return None; },
        },
        None => { return None; },
    };
    let admin = match lookup(fields, &"admin".to_owned()) {
        Some(x) => match decode_strings(x) {
            Some(ss) => ss,
            None => { return None; },
        },
        None => { return None; },
    };
    let update = match lookup(fields, &"update".to_owned()) {
        Some(x) => match decode_strings(x) {
            Some(ss) => ss,
            None => { return None; },
        },
        None => { return None; },
    };
    let p = Permissions { read, delete, admin, update };
    proof {
        assert(spec_decode_permissions(v@)->0 =~= p@);
    }
    Some(p)
}

/// Decode the user info wrapper.
pub fn decode_user_info(v: &JsonValue) -> (r: Option<UserInfo>)
    ensures
        match r {
            Some(u) => spec_decode_user_info(v@) == Some(u@),
            None => spec_decode_user_info(v@) is None,
        },
{
    let fields = match v {
        JsonValue::Obj(fields) => fields,
        _ => { return None; },
    };
    proof {
        lemma_field_views_of_deep(*fields);
    }
    let display_name = match lookup(fields, &"display_name".to_owned()) {
        None => String::new(),
        Some(JsonValue::Str(s)) => s.clone(),
        Some(_) => { return None; },
    };
    let u = UserInfo { display_name };
    proof {
        assert(spec_decode_user_info(v@)->0 =~= u@);
    }
    Some(u)
}

/// Decode the hypermedia link map.
#[verifier::loop_isolation(false)]
pub fn decode_links(v: &JsonValue) -> (r: Option<Vec<(String, String)>>)
    ensures
        match r {
            Some(ls) => spec_decode_links(v@) == Some(ls.deep_view()),
            None => spec_decode_links(v@) is None,
        },
{
    let fields = match v {
        JsonValue::Obj(fields) => fields,
        _ => { return None; },
    };
    proof {
        lemma_field_views_of_deep(*fields);
    }
    let ghost model = fields.deep_view();
    let mut out: Vec<(String, String)> = Vec::new();
    let mut i: usize = 0;
    proof {
        assert(model.skip(0) =~= model);
        assert(out.deep_view() =~= Seq::<(Seq<char>, Seq<char>)>::empty());
    }
    while i < fields.len()
        invariant
            i <= fields@.len(),
            out@.len() == i,
            match spec_decode_link_items(model.skip(i as int)) {
                Some(rest) => spec_decode_link_items(model) == Some(out.deep_view() + rest),
                None => spec_decode_link_items(model) is None,
            },
        decreases fields@.len() - i,
    {
        let ghost pre = out.deep_view();
        let entry = &fields[i];
        match &entry.1 {
            JsonValue::Str(s) => {
                out.push((entry.0.clone(), s.clone()));
            },
            _ => {
                return None;
            },
        }
        proof {
            assert(model.skip(i as int).drop_first() =~= model.skip(i + 1));
            assert(out.deep_view() =~= pre.push((model[i as int].0, model[i as int].1->Str_0)));
            match spec_decode_link_items(model.skip(i + 1)) {
                Some(rest) => {
                    assert(pre.push((model[i as int].0, model[i as int].1->Str_0)) + rest =~= pre
                        + (seq![(model[i as int].0, model[i as int].1->Str_0)] + rest));
                },
                None => {},
            }
        }
        i += 1;
    }
    proof {
        assert(model.skip(fields@.len() as int) =~= Seq::<(Seq<char>, JsonV)>::empty());
        assert(out.deep_view() + Seq::<(Seq<char>, Seq<char>)>::empty() =~= out.deep_view());
    }
    Some(out)
}

/// Decode a full annotation resource.
pub fn decode_annotation(v: &JsonValue) -> (r: Option<Annotation>)
    ensures
        match r {
            Some(a) => spec_decode_annotation(v@) == Some(a@),
            None => spec_decode_annotation(v@) is None,
        },
{
    let fields = match v {
        JsonValue::Obj(fields) => fields,
        _ => { return None; },
    };
    proof {
        lemma_field_views_of_deep(*fields);
    }
    let id = match lookup(fields, &"id".to_owned()) {
        Some(JsonValue::Str(s)) => s.clone(),
        _ => { return None; },
    };
    let created = match lookup(fields, &"created".to_owned()) {
        Some(JsonValue::Str(s)) => s.clone(),
        _ => { return None; },
    };
    if parse_rfc3339(created.as_str()).is_none() {
        return None;
    }
    let updated = match lookup(fields, &"updated".to_owned()) {
        Some(JsonValue::Str(s)) => s.clone(),
        _ => { return None; },
    };
    if parse_rfc3339(updated.as_str()).is_none() {
        return None;
    }
    let user = match lookup(fields, &"user".to_owned()) {
        Some(JsonValue::Str(s)) => UserAccountID(s.clone()),
        _ => { return None; },
    };
    let uri = match lookup(fields, &"uri".to_owned()) {
        Some(JsonValue::Str(s)) => s.clone(),
        _ => { return None; },
    };
    let text = match lookup(fields, &"text".to_owned()) {
        Some(JsonValue::Str(s)) => s.clone(),
        _ => { return None; },
    };
    let tags = match lookup(fields, &"tags".to_owned()) {
        Some(x) => match decode_strings(x) {
            Some(ss) => ss,
            None => { return None; },
        },
        None => { return None; },
    };
    let group = match lookup(fields, &"group".to_owned()) {
        Some(JsonValue::Str(s)) => s.clone(),
        _ => { return None; },
    };
    let permissions = match lookup(fields, &"permissions".to_owned()) {
        Some(x) => match decode_permissions(x) {
            Some(p) => p,
            None => { return None; },
        },
        None => { return None; },
    };
    let target = match lookup(fields, &"target".to_owned()) {
        Some(JsonValue::Arr(items)) => {
            proof {
                crate::json::lemma_views_of_deep(*items);
            }
            match decode_target_items(items) {
                Some(ts) => ts,
                None => { return None; },
            }
        },
        _ => { return None; },
    };
    let links = match lookup(fields, &"links".to_owned()) {
        Some(x) => match decode_links(x) {
            Some(ls) => ls,
            None => { return None; },
        },
        None => { return None; },
    };
    let hidden = match lookup(fields, &"hidden".to_owned()) {
        Some(JsonValue::Bool(b)) => *b,
        _ => { return None; },
    };
    let flagged = match lookup(fields, &"flagged".to_owned()) {
        Some(JsonValue::Bool(b)) => *b,
        _ => { return None; },
    };
    let references = match lookup(fields, &"references".to_owned()) {
        None => Vec::new(),
        Some(x) => match decode_strings(x) {
            Some(ss) => ss,
            None => { return None; },
        },
    };
    let user_info = match lookup(fields, &"user_info".to_owned()) {
        None => None,
        Some(JsonValue::Null) => None,
        Some(x) => match decode_user_info(x) {
            Some(u) => Some(u),
            None => { return None; },
        },
    };
    let a = Annotation {
        id,
        created,
        updated,
        user,
        uri,
        text,
        tags,
        group,
        permissions,
        target,
        links,
        hidden,
        flagged,
        references,
        user_info,
    };
    proof {
        assert(annotation_fields_ok(fields.deep_view()));
        assert(spec_annotation_of(fields.deep_view()) =~= a@);
    }
    Some(a)
}

/// Decode a JSON array of annotations.
#[verifier::loop_isolation(false)]
pub fn decode_annotation_items(items: &Vec<JsonValue>) -> (r: Option<Vec<Annotation>>)
    ensures
        match r {
            Some(asv) => spec_decode_annotation_items(items.deep_view()) == Some(asv.deep_view()),
            None => spec_decode_annotation_items(items.deep_view()) is None,
        },
{
    let ghost model = items.deep_view();
    let mut out: Vec<Annotation> = Vec::new();
    let mut i: usize = 0;
    proof {
        assert(model.skip(0) =~= model);
        assert(out.deep_view() =~= Seq::<AnnotationV>::empty());
    }
    while i < items.len()
        invariant
            i <= items@.len(),
            out@.len() == i,
            match spec_decode_annotation_items(model.skip(i as int)) {
                Some(rest) => spec_decode_annotation_items(model) == Some(out.deep_view() + rest),
                None => spec_decode_annotation_items(model) is None,
            },
        decreases items@.len() - i,
    {
        let ghost pre = out.deep_view();
        match decode_annotation(&items[i]) {
            Some(a) => {
                out.push(a);
                proof {
                    assert(out.deep_view() =~= pre.push(a@));
                }
            },
            None => {
                return None;
            },
        }
        proof {
            assert(model.skip(i as int).drop_first() =~= model.skip(i + 1));
            match spec_decode_annotation_items(model.skip(i + 1)) {
                Some(rest) => {
                    assert(out.deep_view() + rest =~= pre + (seq![out.deep_view().last()]
                        + rest));
                },
                None => {},
            }
        }
        i += 1;
    }
    proof {
        assert(model.skip(items@.len() as int) =~= Seq::<JsonV>::empty());
        assert(out.deep_view() + Seq::<AnnotationV>::empty() =~= out.deep_view());
    }
    Some(out)
}

/// Decode a search response envelope, yielding its rows.
pub fn decode_search(v: &JsonValue) -> (r: Option<Vec<Annotation>>)
    ensures
        match r {
            Some(asv) => spec_decode_search(v@) == Some(asv.deep_view()),
            None => spec_decode_search(v@) is None,
        },
{
    let fields = match v {
        JsonValue::Obj(fields) => fields,
        _ => { return None; },
    };
    proof {
        lemma_field_views_of_deep(*fields);
    }
    let items = match lookup(fields, &"rows".to_owned()) {
        Some(JsonValue::Arr(items)) => items,
        _ => { return None; },
    };
    match lookup(fields, &"total".to_owned()) {
        Some(JsonValue::UInt(n)) => {
            if *n > usize::MAX as u64 {
                return None;
            }
        },
        _ => { return None; },
    }
    proof {
        crate::json::lemma_views_of_deep(*items);
    }
    decode_annotation_items(items)
}

/// Decode a deletion response envelope, yielding its deleted flag.
pub fn decode_deletion(v: &JsonValue) -> (r: Option<bool>)
    ensures
        match r {
            Some(b) => spec_decode_deletion(v@) == Some(b),
            None => spec_decode_deletion(v@) is None,
        },
{
    let fields = match v {
        JsonValue::Obj(fields) => fields,
        _ => { return None; },
    };
    proof {
        lemma_field_views_of_deep(*fields);
    }
    match lookup(fields, &"id".to_owned()) {
        Some(JsonValue::Str(_)) => {},
        _ => { return None; },
    }
    match lookup(fields, &"deleted".to_owned()) {
        Some(JsonValue::Bool(b)) => Some(*b),
        _ => None,
    }
}

/// Decode a structured service error envelope.
pub fn decode_api_error(v: &JsonValue) -> (r: Option<APIError>)
    ensures
        match r {
            Some(e) => spec_decode_api_error(v@) == Some(e@),
            None => spec_decode_api_error(v@) is None,
        },
{
    let fields = match v {
        JsonValue::Obj(fields) => fields,
        _ => { return None; },
    };
    proof {
        lemma_field_views_of_deep(*fields);
    }
    let status = match lookup(fields, &"status".to_owned()) {
        Some(JsonValue::Str(s)) => s.clone(),
        _ => { return None; },
    };
    let reason = match lookup(fields, &"reason".to_owned()) {
        Some(JsonValue::Str(s)) => s.clone(),
        _ => { return None; },
    };
    Some(APIError { status, reason })
}

} // verus!
