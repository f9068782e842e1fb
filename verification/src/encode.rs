//! Encoding of outgoing values into the JSON model: a field is included
//! in the outgoing representation exactly when its value differs from the
//! field's declared default.
use vstd::prelude::*;

use crate::annotations::{
    Dc, DcV, Document, DocumentV, HighWire, HighWireV, InputAnnotation, InputAnnotationV, Link,
    LinkV, Selector, SelectorV, Target, TargetV,
};
use crate::json::{
    clone_json, field_views_of, lemma_field_views_of, lemma_views_of, view_of, views_of, JsonV,
    JsonValue,
};

verus! {

/// A single field when `present` holds, nothing otherwise: the shape of
/// every default-omitted field.
pub open spec fn omit_default(present: bool, key: Seq<char>, v: JsonV) -> Seq<
    (Seq<char>, JsonV),
> {
    if present {
        seq![(key, v)]
    } else {
        Seq::empty()
    }
}

/// A JSON array of strings.
pub open spec fn spec_strings_json(ss: Seq<Seq<char>>) -> JsonV {
    JsonV::Arr(ss.map_values(|s: Seq<char>| JsonV::Str(s)))
}

/// The JSON encoding of a selector: an object carrying a `type`
/// discriminant equal to the variant's name, then the variant's fields;
/// a range selector's opaque bag follows its discriminant unchanged.
pub open spec fn spec_selector_json(s: SelectorV) -> JsonV {
    match s {
        SelectorV::TextQuoteSelector(q) => JsonV::Obj(
            seq![
                ("type"@, JsonV::Str("TextQuoteSelector"@)),
                ("exact"@, JsonV::Str(q.exact)),
                ("prefix"@, JsonV::Str(q.prefix)),
                ("suffix"@, JsonV::Str(q.suffix)),
            ],
        ),
        SelectorV::RangeSelector(m) => JsonV::Obj(
            seq![("type"@, JsonV::Str("RangeSelector"@))] + m,
        ),
        SelectorV::TextPositionSelector(p) => JsonV::Obj(
            seq![
                ("type"@, JsonV::Str("TextPositionSelector"@)),
                ("start"@, JsonV::UInt(p.start)),
                ("end"@, JsonV::UInt(p.end)),
            ],
        ),
    }
}

/// The JSON encodings of a sequence of selectors.
pub open spec fn spec_selectors_json(ss: Seq<SelectorV>) -> JsonV {
    JsonV::Arr(ss.map_values(|s: SelectorV| spec_selector_json(s)))
}

/// Whether a target equals its declared default (empty source, no
/// selectors), in which case it is omitted from payloads.
pub open spec fn target_is_default(t: TargetV) -> bool {
    t.source.len() == 0 && t.selector.len() == 0
}

/// The JSON encoding of a target, each default field omitted.
pub open spec fn spec_target_json(t: TargetV) -> JsonV {
    JsonV::Obj(
        omit_default(t.source.len() > 0, "source"@, JsonV::Str(t.source)) + omit_default(
            t.selector.len() > 0,
            "selector"@,
            spec_selectors_json(t.selector),
        ),
    )
}

/// The JSON encoding of a link: `href` is always present, the type is
/// serialized under the key `type` and omitted when empty.
pub open spec fn spec_link_json(l: LinkV) -> JsonV {
    JsonV::Obj(
        seq![("href"@, JsonV::Str(l.href))] + omit_default(
            l.link_type.len() > 0,
            "type"@,
            JsonV::Str(l.link_type),
        ),
    )
}

/// The JSON encoding of Dublin Core metadata, omitted when empty.
pub open spec fn spec_dc_json(d: DcV) -> JsonV {
    JsonV::Obj(
        omit_default(d.identifier.len() > 0, "identifier"@, spec_strings_json(d.identifier)),
    )
}

/// The JSON encoding of HighWire metadata, each default field omitted.
pub open spec fn spec_highwire_json(h: HighWireV) -> JsonV {
    JsonV::Obj(
        omit_default(h.doi.len() > 0, "doi"@, spec_strings_json(h.doi)) + omit_default(
            h.pdf_url.len() > 0,
            "pdf_url"@,
            spec_strings_json(h.pdf_url),
        ),
    )
}

/// The JSON encoding of document metadata, each default field omitted.
pub open spec fn spec_document_json(d: DocumentV) -> JsonV {
    JsonV::Obj(
        omit_default(d.title.len() > 0, "title"@, spec_strings_json(d.title)) + (match d.dc {
            Some(dc) => seq![("dc"@, spec_dc_json(dc))],
            None => Seq::empty(),
        }) + (match d.highwire {
            Some(h) => seq![("highwire"@, spec_highwire_json(h))],
            None => Seq::empty(),
        }) + omit_default(
            d.link.len() > 0,
            "link"@,
            JsonV::Arr(d.link.map_values(|l: LinkV| spec_link_json(l))),
        ),
    )
}

/// The JSON encoding of an annotation payload: every field left at its
/// declared default is absent, so an update preserves the server-side
/// value; unset tags differ from an empty tag list, which is sent as
/// `[]`.
pub open spec fn spec_input_annotation_json(a: InputAnnotationV) -> JsonV {
    JsonV::Obj(
        omit_default(a.uri.len() > 0, "uri"@, JsonV::Str(a.uri)) + omit_default(
            a.text.len() > 0,
            "text"@,
            JsonV::Str(a.text),
        ) + (match a.tags {
            Some(ts) => seq![("tags"@, spec_strings_json(ts))],
            None => Seq::empty(),
        }) + (match a.document {
            Some(d) => seq![("document"@, spec_document_json(d))],
            None => Seq::empty(),
        }) + omit_default(a.group.len() > 0, "group"@, JsonV::Str(a.group)) + omit_default(
            !target_is_default(a.target),
            "target"@,
            spec_target_json(a.target),
        ) + omit_default(a.references.len() > 0, "references"@, spec_strings_json(a.references)),
    )
}

/// A JSON array of the given strings.
#[verifier::loop_isolation(false)]
pub fn strings_json(ss: &Vec<String>) -> (r: JsonValue)
    ensures
        r@ == spec_strings_json(ss.deep_view()),
{
    let mut items: Vec<JsonValue> = Vec::new();
    let mut i: usize = 0;
    while i < ss.len()
        invariant
            i <= ss@.len(),
            items@.len() == i,
            forall|j: int| 0 <= j < i ==> view_of(#[trigger] items@[j]) == JsonV::Str(ss@[j]@),
        decreases ss@.len() - i,
    {
        items.push(JsonValue::Str(ss[i].clone()));
        i += 1;
    }
    proof {
        lemma_views_of(items@);
        assert(views_of(items@) =~= ss.deep_view().map_values(|s: Seq<char>| JsonV::Str(s)));
    }
    JsonValue::Arr(items)
}

/// The JSON encoding of one selector.
#[verifier::loop_isolation(false)]
pub fn selector_json(s: &Selector) -> (r: JsonValue)
    ensures
        r@ == spec_selector_json(s@),
{
    match s {
        Selector::TextQuoteSelector(q) => {
            let mut fields: Vec<(String, JsonValue)> = Vec::new();
            fields.push(("type".to_owned(), JsonValue::Str("TextQuoteSelector".to_owned())));
            fields.push(("exact".to_owned(), JsonValue::Str(q.exact.clone())));
            fields.push(("prefix".to_owned(), JsonValue::Str(q.prefix.clone())));
            fields.push(("suffix".to_owned(), JsonValue::Str(q.suffix.clone())));
            proof {
                lemma_field_views_of(fields@);
                assert(field_views_of(fields@) =~= seq![
                    ("type"@, JsonV::Str("TextQuoteSelector"@)),
                    ("exact"@, JsonV::Str(q.exact@)),
                    ("prefix"@, JsonV::Str(q.prefix@)),
                    ("suffix"@, JsonV::Str(q.suffix@)),
                ]);
            }
            JsonValue::Obj(fields)
        },
        Selector::RangeSelector(m) => {
            let mut fields: Vec<(String, JsonValue)> = Vec::new();
            fields.push(("type".to_owned(), JsonValue::Str("RangeSelector".to_owned())));
            let mut i: usize = 0;
            while i < m.len()
                invariant
                    i <= m@.len(),
                    fields@.len() == i + 1,
                    fields@[0].0@ == "type"@,
                    view_of(fields@[0].1) == JsonV::Str("RangeSelector"@),
                    forall|j: int| 1 <= j <= i ==> (#[trigger] fields@[j]).0@ == m@[j - 1].0@
                        && view_of(fields@[j].1) == view_of(m@[j - 1].1),
                decreases m@.len() - i,
            {
                let entry = &m[i];
                fields.push((entry.0.clone(), clone_json(&entry.1)));
                i += 1;
            }
            proof {
                lemma_field_views_of(fields@);
                assert(field_views_of(fields@) =~= seq![("type"@, JsonV::Str("RangeSelector"@))]
                    + m.deep_view());
            }
            JsonValue::Obj(fields)
        },
        Selector::TextPositionSelector(p) => {
            let mut fields: Vec<(String, JsonValue)> = Vec::new();
            fields.push(("type".to_owned(), JsonValue::Str("TextPositionSelector".to_owned())));
            fields.push(("start".to_owned(), JsonValue::UInt(p.start)));
            fields.push(("end".to_owned(), JsonValue::UInt(p.end)));
            proof {
                lemma_field_views_of(fields@);
                assert(field_views_of(fields@) =~= seq![
                    ("type"@, JsonV::Str("TextPositionSelector"@)),
                    ("start"@, JsonV::UInt(p.start)),
                    ("end"@, JsonV::UInt(p.end)),
                ]);
            }
            JsonValue::Obj(fields)
        },
    }
}

/// The JSON encodings of a sequence of selectors.
#[verifier::loop_isolation(false)]
pub fn selectors_json(ss: &Vec<Selector>) -> (r: JsonValue)
    ensures
        r@ == spec_selectors_json(ss.deep_view()),
{
    let mut items: Vec<JsonValue> = Vec::new();
    let mut i: usize = 0;
    while i < ss.len()
        invariant
            i <= ss@.len(),
            items@.len() == i,
            forall|j: int| 0 <= j < i ==> view_of(#[trigger] items@[j]) == spec_selector_json(
                ss@[j]@,
            ),
        decreases ss@.len() - i,
    {
        items.push(selector_json(&ss[i]));
        i += 1;
    }
    proof {
        lemma_views_of(items@);
        assert(views_of(items@) =~= ss.deep_view().map_values(
            |s: SelectorV| spec_selector_json(s),
        ));
    }
    JsonValue::Arr(items)
}

/// The JSON encoding of a target, each default field omitted.
pub fn target_json(t: &Target) -> (r: JsonValue)
    ensures
        r@ == spec_target_json(t@),
{
    let mut fields: Vec<(String, JsonValue)> = Vec::new();
    let ghost p0 = omit_default(t@.source.len() > 0, "source"@, JsonV::Str(t@.source));
    let ghost p1 = omit_default(
        t@.selector.len() > 0,
        "selector"@,
        spec_selectors_json(t@.selector),
    );
    if !t.source.as_str().is_empty() {
        fields.push(("source".to_owned(), JsonValue::Str(t.source.clone())));
    }
    proof {
        lemma_field_views_of(fields@);
        assert(field_views_of(fields@) =~= p0);
    }
    if t.selector.len() > 0 {
        let sel = selectors_json(&t.selector);
        fields.push(("selector".to_owned(), sel));
    }
    proof {
        lemma_field_views_of(fields@);
        assert(field_views_of(fields@) =~= p0 + p1);
    }
    JsonValue::Obj(fields)
}

/// The JSON encoding of a link.
pub fn link_json(l: &Link) -> (r: JsonValue)
    ensures
        r@ == spec_link_json(l@),
{
    let mut fields: Vec<(String, JsonValue)> = Vec::new();
    fields.push(("href".to_owned(), JsonValue::Str(l.href.clone())));
    if !l.link_type.as_str().is_empty() {
        fields.push(("type".to_owned(), JsonValue::Str(l.link_type.clone())));
    }
    proof {
        lemma_field_views_of(fields@);
        assert(field_views_of(fields@) =~= seq![("href"@, JsonV::Str(l.href@))] + omit_default(
            l@.link_type.len() > 0,
            "type"@,
            JsonV::Str(l@.link_type),
        ));
    }
    JsonValue::Obj(fields)
}

/// The JSON encoding of Dublin Core metadata.
pub fn dc_json(d: &Dc) -> (r: JsonValue)
    ensures
        r@ == spec_dc_json(d@),
{
    let mut fields: Vec<(String, JsonValue)> = Vec::new();
    if d.identifier.len() > 0 {
        let ids = strings_json(&d.identifier);
        fields.push(("identifier".to_owned(), ids));
    }
    proof {
        lemma_field_views_of(fields@);
        assert(field_views_of(fields@) =~= omit_default(
            d@.identifier.len() > 0,
            "identifier"@,
            spec_strings_json(d@.identifier),
        ));
    }
    JsonValue::Obj(fields)
}

/// The JSON encoding of HighWire metadata.
pub fn highwire_json(h: &HighWire) -> (r: JsonValue)
    ensures
        r@ == spec_highwire_json(h@),
{
    let mut fields: Vec<(String, JsonValue)> = Vec::new();
    let ghost p0 = omit_default(h@.doi.len() > 0, "doi"@, spec_strings_json(h@.doi));
    let ghost p1 = omit_default(h@.pdf_url.len() > 0, "pdf_url"@, spec_strings_json(h@.pdf_url));
    if h.doi.len() > 0 {
        let doi = strings_json(&h.doi);
        fields.push(("doi".to_owned(), doi));
    }
    proof {
        lemma_field_views_of(fields@);
        assert(field_views_of(fields@) =~= p0);
    }
    if h.pdf_url.len() > 0 {
        let urls = strings_json(&h.pdf_url);
        fields.push(("pdf_url".to_owned(), urls));
    }
    proof {
        lemma_field_views_of(fields@);
        assert(field_views_of(fields@) =~= p0 + p1);
    }
    JsonValue::Obj(fields)
}

/// The JSON encoding of document metadata, each default field omitted.
#[verifier::loop_isolation(false)]
pub fn document_json(d: &Document) -> (r: JsonValue)
    ensures
        r@ == spec_document_json(d@),
{
    let mut fields: Vec<(String, JsonValue)> = Vec::new();
    let ghost p0 = omit_default(d@.title.len() > 0, "title"@, spec_strings_json(d@.title));
    let ghost p1: Seq<(Seq<char>, JsonV)> = match d@.dc {
        Some(dc) => seq![("dc"@, spec_dc_json(dc))],
        None => Seq::empty(),
    };
    let ghost p2: Seq<(Seq<char>, JsonV)> = match d@.highwire {
        Some(h) => seq![("highwire"@, spec_highwire_json(h))],
        None => Seq::empty(),
    };
    let ghost p3 = omit_default(
        d@.link.len() > 0,
        "link"@,
        JsonV::Arr(d@.link.map_values(|l: LinkV| spec_link_json(l))),
    );
    if d.title.len() > 0 {
        let titles = strings_json(&d.title);
        fields.push(("title".to_owned(), titles));
    }
    proof {
        lemma_field_views_of(fields@);
        assert(field_views_of(fields@) =~= p0);
    }
    match &d.dc {
        Some(dc) => {
            let v = dc_json(dc);
            fields.push(("dc".to_owned(), v));
        },
        None => {},
    }
    proof {
        lemma_field_views_of(fields@);
        assert(field_views_of(fields@) =~= p0 + p1);
    }
    match &d.highwire {
        Some(h) => {
            let v = highwire_json(h);
            fields.push(("highwire".to_owned(), v));
        },
        None => {},
    }
    proof {
        lemma_field_views_of(fields@);
        assert(field_views_of(fields@) =~= p0 + p1 + p2);
    }
    if d.link.len() > 0 {
        let mut items: Vec<JsonValue> = Vec::new();
        let mut i: usize = 0;
        while i < d.link.len()
            invariant
                i <= d.link@.len(),
                items@.len() == i,
                forall|j: int| 0 <= j < i ==> view_of(#[trigger] items@[j]) == spec_link_json(
                    d.link@[j]@,
                ),
            decreases d.link@.len() - i,
        {
            items.push(link_json(&d.link[i]));
            i += 1;
        }
        proof {
            lemma_views_of(items@);
            assert(views_of(items@) =~= d@.link.map_values(|l: LinkV| spec_link_json(l)));
        }
        fields.push(("link".to_owned(), JsonValue::Arr(items)));
    }
    proof {
        lemma_field_views_of(fields@);
        assert(field_views_of(fields@) =~= p0 + p1 + p2 + p3);
    }
    JsonValue::Obj(fields)
}

/// The JSON encoding of an annotation payload, each default field
/// omitted.
#[verifier::rlimit(50)]
pub fn input_annotation_json(a: &InputAnnotation) -> (r: JsonValue)
    ensures
        r@ == spec_input_annotation_json(a@),
{
    let mut fields: Vec<(String, JsonValue)> = Vec::new();
    let ghost p0 = omit_default(a@.uri.len() > 0, "uri"@, JsonV::Str(a@.uri));
    let ghost p1 = omit_default(a@.text.len() > 0, "text"@, JsonV::Str(a@.text));
    let ghost p2: Seq<(Seq<char>, JsonV)> = match a@.tags {
        Some(ts) => seq![("tags"@, spec_strings_json(ts))],
        None => Seq::empty(),
    };
    let ghost p3: Seq<(Seq<char>, JsonV)> = match a@.document {
        Some(d) => seq![("document"@, spec_document_json(d))],
        None => Seq::empty(),
    };
    let ghost p4 = omit_default(a@.group.len() > 0, "group"@, JsonV::Str(a@.group));
    let ghost p5 = omit_default(
        !target_is_default(a@.target),
        "target"@,
        spec_target_json(a@.target),
    );
    let ghost p6 = omit_default(
        a@.references.len() > 0,
        "references"@,
        spec_strings_json(a@.references),
    );
    if !a.uri.as_str().is_empty() {
        fields.push(("uri".to_owned(), JsonValue::Str(a.uri.clone())));
    }
    proof {
        lemma_field_views_of(fields@);
        assert(field_views_of(fields@) =~= p0);
    }
    if !a.text.as_str().is_empty() {
        fields.push(("text".to_owned(), JsonValue::Str(a.text.clone())));
    }
    proof {
        lemma_field_views_of(fields@);
        assert(field_views_of(fields@) =~= p0 + p1);
    }
    match &a.tags {
        Some(ts) => {
            let v = strings_json(ts);
            fields.push(("tags".to_owned(), v));
        },
        None => {},
    }
    proof {
        lemma_field_views_of(fields@);
        assert(field_views_of(fields@) =~= p0 + p1 + p2);
    }
    match &a.document {
        Some(d) => {
            let v = document_json(d);
            fields.push(("document".to_owned(), v));
        },
        None => {},
    }
    proof {
        lemma_field_views_of(fields@);
        assert(field_views_of(fields@) =~= p0 + p1 + p2 + p3);
    }
    if !a.group.as_str().is_empty() {
        fields.push(("group".to_owned(), JsonValue::Str(a.group.clone())));
    }
    proof {
        lemma_field_views_of(fields@);
        assert(field_views_of(fields@) =~= p0 + p1 + p2 + p3 + p4);
    }
    if !(a.target.source.as_str().is_empty() && a.target.selector.len() == 0) {
        let v = target_json(&a.target);
        fields.push(("target".to_owned(), v));
    }
    proof {
        lemma_field_views_of(fields@);
        assert(field_views_of(fields@) =~= p0 + p1 + p2 + p3 + p4 + p5);
    }
    if a.references.len() > 0 {
        let v = strings_json(&a.references);
        fields.push(("references".to_owned(), v));
    }
    proof {
        lemma_field_views_of(fields@);
        assert(field_views_of(fields@) =~= p0 + p1 + p2 + p3 + p4 + p5 + p6);
    }
    JsonValue::Obj(fields)
}

/// An annotation payload carrying only a URI and a comment encodes to an
/// object holding exactly those two fields: tags, document, group,
/// target and references are absent.
pub proof fn lemma_minimal_input_encoding(a: InputAnnotationV)
    requires
        a.uri.len() > 0,
        a.text.len() > 0,
        a.tags is None,
        a.document is None,
        a.group.len() == 0,
        target_is_default(a.target),
        a.references.len() == 0,
    ensures
        spec_input_annotation_json(a) == JsonV::Obj(
            seq![("uri"@, JsonV::Str(a.uri)), ("text"@, JsonV::Str(a.text))],
        ),
{
    assert(omit_default(a.uri.len() > 0, "uri"@, JsonV::Str(a.uri)) + omit_default(
        a.text.len() > 0,
        "text"@,
        JsonV::Str(a.text),
    ) + Seq::empty() + Seq::empty() + omit_default(false, "group"@, JsonV::Str(a.group))
        + omit_default(false, "target"@, spec_target_json(a.target)) + omit_default(
        false,
        "references"@,
        spec_strings_json(a.references),
    ) =~= seq![("uri"@, JsonV::Str(a.uri)), ("text"@, JsonV::Str(a.text))]);
}

} // verus!
