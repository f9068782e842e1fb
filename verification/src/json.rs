//! A small JSON document model: the tree of values the service's wire
//! format uses, with a mathematical view for contracts, a verified writer
//! to JSON text, and a parser entrusted to serde_json.
use vstd::prelude::*;

verus! {

/// A JSON value as it appears on the wire for this service: the service's
/// payloads use null, booleans, unsigned integers, strings, arrays and
/// objects (kept as ordered key/value lists).
#[derive(Debug, PartialEq)]
pub enum JsonValue {
    Null,
    Bool(bool),
    UInt(u64),
    Str(String),
    Arr(Vec<JsonValue>),
    Obj(Vec<(String, JsonValue)>),
}

/// The mathematical model of a [`JsonValue`].
#[verifier::ext_equal]
pub enum JsonV {
    Null,
    Bool(bool),
    UInt(u64),
    Str(Seq<char>),
    Arr(Seq<JsonV>),
    Obj(Seq<(Seq<char>, JsonV)>),
}

/// The model of a JSON value: structural, with strings as `Seq<char>`.
pub open spec fn view_of(v: JsonValue) -> JsonV
    decreases v,
{
    match v {
        JsonValue::Null => JsonV::Null,
        JsonValue::Bool(b) => JsonV::Bool(b),
        JsonValue::UInt(n) => JsonV::UInt(n),
        JsonValue::Str(s) => JsonV::Str(s@),
        JsonValue::Arr(items) => {
            proof {
                assert(decreases_to!(v => items));
                assert(decreases_to!(items => items@));
            }
            JsonV::Arr(views_of(items@))
        },
        JsonValue::Obj(fields) => {
            proof {
                assert(decreases_to!(v => fields));
                assert(decreases_to!(fields => fields@));
            }
            JsonV::Obj(field_views_of(fields@))
        },
    }
}

/// The models of a sequence of JSON values, element by element.
pub open spec fn views_of(s: Seq<JsonValue>) -> Seq<JsonV>
    decreases s,
{
    if s.len() == 0 {
        Seq::empty()
    } else {
        proof {
            assert(decreases_to!(s => s[s.len() - 1]));
            assert(decreases_to!(s => s.subrange(0, s.len() - 1)));
        }
        views_of(s.drop_last()).push(view_of(s.last()))
    }
}

/// The models of an object's fields, element by element.
pub open spec fn field_views_of(s: Seq<(String, JsonValue)>) -> Seq<(Seq<char>, JsonV)>
    decreases s,
{
    if s.len() == 0 {
        Seq::empty()
    } else {
        proof {
            assert(decreases_to!(s => s[s.len() - 1]));
            assert(decreases_to!(s => s.subrange(0, s.len() - 1)));
        }
        field_views_of(s.drop_last()).push((s.last().0@, view_of(s.last().1)))
    }
}

impl View for JsonValue {
    type V = JsonV;

    open spec fn view(&self) -> JsonV {
        view_of(*self)
    }
}

impl DeepView for JsonValue {
    type V = JsonV;

    open spec fn deep_view(&self) -> JsonV {
        view_of(*self)
    }
}

/// `views_of` maps the sequence element by element.
pub proof fn lemma_views_of(s: Seq<JsonValue>)
    ensures
        views_of(s).len() == s.len(),
        forall|i: int| 0 <= i < s.len() ==> views_of(s)[i] == view_of(s[i]),
    decreases s.len(),
{
    if s.len() > 0 {
        lemma_views_of(s.drop_last());
    }
}

impl Clone for JsonValue {
    /// A deep copy with the same model.
    fn clone(&self) -> (r: JsonValue)
        ensures
            r@ == self@,
    {
        clone_json(self)
    }
}

/// A deep copy of a JSON value, equal to the original in the model.
#[verifier::loop_isolation(false)]
pub fn clone_json(v: &JsonValue) -> (r: JsonValue)
    ensures
        r@ == v@,
    decreases *v,
{
    match v {
        JsonValue::Null => JsonValue::Null,
        JsonValue::Bool(b) => JsonValue::Bool(*b),
        JsonValue::UInt(n) => JsonValue::UInt(*n),
        JsonValue::Str(s) => JsonValue::Str(s.clone()),
        JsonValue::Arr(items) => {
            let mut out: Vec<JsonValue> = Vec::new();
            let mut i: usize = 0;
            while i < items.len()
                invariant
                    i <= items.len(),
                    out@.len() == i,
                    forall|j: int| 0 <= j < i ==> view_of(#[trigger] out@[j]) == view_of(items@[j]),
                decreases items.len() - i,
            {
                proof {
                    assert(decreases_to!(*v => *items));
                    assert(decreases_to!(*items => items@));
                    assert(decreases_to!(items@ => items@[i as int]));
                }
                out.push(clone_json(&items[i]));
                i += 1;
            }
            proof {
                lemma_views_of(out@);
                lemma_views_of(items@);
                assert(views_of(out@) =~= views_of(items@));
            }
            JsonValue::Arr(out)
        },
        JsonValue::Obj(fields) => {
            let mut out: Vec<(String, JsonValue)> = Vec::new();
            let mut i: usize = 0;
            while i < fields.len()
                invariant
                    i <= fields.len(),
                    out@.len() == i,
                    forall|j: int| 0 <= j < i ==> (#[trigger] out@[j]).0@ == fields@[j].0@
                        && view_of(out@[j].1) == view_of(fields@[j].1),
                decreases fields.len() - i,
            {
                proof {
                    assert(decreases_to!(*v => *fields));
                    assert(decreases_to!(*fields => fields@));
                    assert(decreases_to!(fields@ => fields@[i as int]));
                    assert(decreases_to!(fields@[i as int] => fields@[i as int].1));
                }
                let entry = &fields[i];
                out.push((entry.0.clone(), clone_json(&entry.1)));
                i += 1;
            }
            proof {
                lemma_field_views_of(out@);
                lemma_field_views_of(fields@);
                assert(field_views_of(out@) =~= field_views_of(fields@));
            }
            JsonValue::Obj(out)
        },
    }
}

/// The value under `key` in an object's field list, the first occurrence
/// winning; `None` when the key is absent.
pub open spec fn spec_lookup(fields: Seq<(Seq<char>, JsonV)>, key: Seq<char>) -> Option<JsonV>
    decreases fields.len(),
{
    if fields.len() == 0 {
        None
    } else if fields[0].0 == key {
        Some(fields[0].1)
    } else {
        spec_lookup(fields.drop_first(), key)
    }
}

/// A key that first occurs at position `k` of a field list is looked up
/// to that entry's value.
pub proof fn lemma_lookup_at(fields: Seq<(Seq<char>, JsonV)>, key: Seq<char>, k: int)
    requires
        0 <= k < fields.len(),
        fields[k].0 == key,
        forall|j: int| 0 <= j < k ==> (#[trigger] fields[j]).0 != key,
    ensures
        spec_lookup(fields, key) == Some(fields[k].1),
    decreases k,
{
    if k > 0 {
        lemma_lookup_at(fields.drop_first(), key, k - 1);
    }
}

/// Whether `key` names a field of the object's field list.
pub open spec fn spec_has_key(fields: Seq<(Seq<char>, JsonV)>, key: Seq<char>) -> bool {
    spec_lookup(fields, key) is Some
}

/// Look a key up in an object's field list, first occurrence winning.
#[verifier::loop_isolation(false)]
pub fn lookup<'a>(fields: &'a Vec<(String, JsonValue)>, key: &String) -> (r: Option<
    &'a JsonValue,
>)
    ensures
        match r {
            Some(v) => spec_lookup(fields.deep_view(), key@) == Some(v@),
            None => spec_lookup(fields.deep_view(), key@) is None,
        },
{
    let ghost model = fields.deep_view();
    proof {
        assert(model.skip(0) =~= model);
    }
    let mut i: usize = 0;
    while i < fields.len()
        invariant
            i <= fields.len(),
            model == fields.deep_view(),
            model.len() == fields@.len(),
            forall|j: int| 0 <= j < fields@.len() ==> #[trigger] model[j]
                == (fields@[j].0@, view_of(fields@[j].1)),
            spec_lookup(model, key@) == spec_lookup(model.skip(i as int), key@),
            forall|j: int| 0 <= j < i ==> (#[trigger] model[j]).0 != key@,
        decreases fields.len() - i,
    {
        if fields[i].0.eq(key) {
            proof {
                assert(model.skip(i as int)[0] == model[i as int]);
            }
            return Some(&fields[i].1);
        }
        proof {
            assert(model.skip(i as int).drop_first() =~= model.skip(i + 1));
        }
        i += 1;
    }
    proof {
        assert(model.skip(fields@.len() as int).len() == 0);
    }
    None
}

/// `field_views_of` of a field vector's plain view is its deep view.
pub proof fn lemma_field_views_of_deep(fields: Vec<(String, JsonValue)>)
    ensures
        field_views_of(fields@) == fields.deep_view(),
{
    lemma_field_views_of(fields@);
    assert(field_views_of(fields@) =~= fields.deep_view());
}

/// `field_views_of` maps the sequence element by element.
pub proof fn lemma_field_views_of(s: Seq<(String, JsonValue)>)
    ensures
        field_views_of(s).len() == s.len(),
        forall|i: int| 0 <= i < s.len()
            ==> field_views_of(s)[i] == (s[i].0@, view_of(s[i].1)),
    decreases s.len(),
{
    if s.len() > 0 {
        lemma_field_views_of(s.drop_last());
    }
}

/// `views_of` of a value vector's plain view is its deep view.
pub proof fn lemma_views_of_deep(items: Vec<JsonValue>)
    ensures
        views_of(items@) == items.deep_view(),
{
    lemma_views_of(items@);
    assert(views_of(items@) =~= items.deep_view());
}

/// The decimal digit character for `d` (meaningful for `d < 10`).
pub open spec fn spec_digit(d: u64) -> char {
    ((48 + d) as u8) as char
}

/// The decimal rendering of `n`, most significant digit first.
pub open spec fn spec_udec(n: u64) -> Seq<char>
    decreases n,
{
    if n < 10 {
        seq![spec_digit(n)]
    } else {
        spec_udec(n / 10).push(spec_digit(n % 10))
    }
}

/// The uppercase hexadecimal digit character for `d` (meaningful for
/// `d < 16`).
pub open spec fn spec_hex_digit(d: u8) -> char {
    if d < 10 {
        ((48 + d) as u8) as char
    } else {
        ((55 + d) as u8) as char
    }
}

/// The JSON escaping of one character: quote and backslash get a
/// backslash, control characters become a `\u00XX` escape, and every
/// other character stands for itself.
pub open spec fn spec_escaped_char(c: char) -> Seq<char> {
    if c == '"' {
        seq!['\\', '"']
    } else if c == '\\' {
        seq!['\\', '\\']
    } else if (c as u32) < 32 {
        seq![
            '\\',
            'u',
            '0',
            '0',
            spec_hex_digit(((c as u32) / 16) as u8),
            spec_hex_digit(((c as u32) % 16) as u8),
        ]
    } else {
        seq![c]
    }
}

/// The JSON escaping of a string's characters.
pub open spec fn spec_escaped(s: Seq<char>) -> Seq<char>
    decreases s.len(),
{
    if s.len() == 0 {
        Seq::empty()
    } else {
        spec_escaped(s.drop_last()) + spec_escaped_char(s.last())
    }
}

/// The JSON text of a value: this library's canonical rendering, with
/// object fields in their stored order and no inserted whitespace.
pub open spec fn spec_json_text(v: JsonV) -> Seq<char>
    decreases v,
{
    match v {
        JsonV::Null => seq!['n', 'u', 'l', 'l'],
        JsonV::Bool(b) => if b {
            seq!['t', 'r', 'u', 'e']
        } else {
            seq!['f', 'a', 'l', 's', 'e']
        },
        JsonV::UInt(n) => spec_udec(n),
        JsonV::Str(s) => seq!['"'] + spec_escaped(s) + seq!['"'],
        JsonV::Arr(items) => {
            proof {
                assert(decreases_to!(v => items));
            }
            seq!['['] + spec_items_text(items) + seq![']']
        },
        JsonV::Obj(fields) => {
            proof {
                assert(decreases_to!(v => fields));
            }
            seq!['{'] + spec_fields_text(fields) + seq!['}']
        },
    }
}

/// The comma-separated JSON texts of an array's items.
pub open spec fn spec_items_text(items: Seq<JsonV>) -> Seq<char>
    decreases items,
{
    if items.len() == 0 {
        Seq::empty()
    } else if items.len() == 1 {
        proof {
            assert(decreases_to!(items => items[0]));
        }
        spec_json_text(items[0])
    } else {
        proof {
            assert(decreases_to!(items => items.subrange(0, items.len() - 1)));
            assert(decreases_to!(items => items[items.len() - 1]));
        }
        spec_items_text(items.drop_last()) + seq![','] + spec_json_text(items.last())
    }
}

/// One object field as JSON text: the quoted, escaped key, a colon, and
/// the value's text.
pub open spec fn spec_field_text(f: (Seq<char>, JsonV)) -> Seq<char>
    decreases f,
{
    proof {
        assert(decreases_to!(f => f.1));
    }
    seq!['"'] + spec_escaped(f.0) + seq!['"', ':'] + spec_json_text(f.1)
}

/// The comma-separated JSON texts of an object's fields.
pub open spec fn spec_fields_text(fields: Seq<(Seq<char>, JsonV)>) -> Seq<char>
    decreases fields,
{
    if fields.len() == 0 {
        Seq::empty()
    } else if fields.len() == 1 {
        proof {
            assert(decreases_to!(fields => fields[0]));
            assert(decreases_to!(fields[0] => fields[0].1));
        }
        spec_field_text(fields[0])
    } else {
        proof {
            assert(decreases_to!(fields => fields.subrange(0, fields.len() - 1)));
            assert(decreases_to!(fields => fields[fields.len() - 1]));
            assert(decreases_to!(fields[fields.len() - 1] => fields[fields.len() - 1].1));
        }
        spec_fields_text(fields.drop_last()) + seq![','] + spec_field_text(fields.last())
    }
}

/// The decimal digit character for `d`.
fn dec_digit(d: u64) -> (c: char)
    requires
        d < 10,
    ensures
        c == spec_digit(d),
{
    ((48 + d) as u8) as char
}

/// The uppercase hexadecimal digit character for `d`.
pub(crate) fn hex_digit(d: u8) -> (c: char)
    requires
        d < 16,
    ensures
        c == spec_hex_digit(d),
{
    if d < 10 {
        (48 + d) as char
    } else {
        (55 + d) as char
    }
}

/// Append the decimal rendering of `n`.
pub(crate) fn write_u64(n: u64, out: &mut Vec<char>)
    ensures
        final(out)@ == old(out)@ + spec_udec(n),
    decreases n,
{
    if n < 10 {
        out.push(dec_digit(n));
    } else {
        write_u64(n / 10, out);
        out.push(dec_digit(n % 10));
    }
}

/// Append the JSON escaping of the string's characters.
#[verifier::loop_isolation(false)]
fn write_escaped(s: &str, out: &mut Vec<char>)
    ensures
        final(out)@ == old(out)@ + spec_escaped(s@),
{
    let chars = str_chars(s);
    let ghost base = out@;
    let mut i: usize = 0;
    proof {
        assert(spec_escaped(s@.take(0)) =~= Seq::<char>::empty());
        assert(out@ =~= base + spec_escaped(s@.take(0)));
    }
    while i < chars.len()
        invariant
            i <= chars@.len(),
            out@ == base + spec_escaped(s@.take(i as int)),
        decreases chars@.len() - i,
    {
        let c = chars[i];
        let code = c as u32;
        if c == '"' {
            out.push('\\');
            out.push('"');
        } else if c == '\\' {
            out.push('\\');
            out.push('\\');
        } else if code < 32 {
            out.push('\\');
            out.push('u');
            out.push('0');
            out.push('0');
            out.push(hex_digit((code / 16) as u8));
            out.push(hex_digit((code % 16) as u8));
        } else {
            out.push(c);
        }
        proof {
            assert(s@.take(i + 1).drop_last() =~= s@.take(i as int));
            assert(s@.take(i + 1).last() == s@[i as int]);
            assert(out@ =~= base + spec_escaped(s@.take(i + 1)));
        }
        i += 1;
    }
    proof {
        assert(s@.take(s@.len() as int) =~= s@);
    }
}

/// Append the JSON text of `v`.
#[verifier::loop_isolation(false)]
pub fn write_json(v: &JsonValue, out: &mut Vec<char>)
    ensures
        final(out)@ == old(out)@ + spec_json_text(v@),
    decreases *v,
{
    match v {
        JsonValue::Null => {
            out.push('n');
            out.push('u');
            out.push('l');
            out.push('l');
            proof {
                assert(out@ =~= old(out)@ + spec_json_text(v@));
            }
        },
        JsonValue::Bool(b) => {
            if *b {
                out.push('t');
                out.push('r');
                out.push('u');
                out.push('e');
            } else {
                out.push('f');
                out.push('a');
                out.push('l');
                out.push('s');
                out.push('e');
            }
            proof {
                assert(out@ =~= old(out)@ + spec_json_text(v@));
            }
        },
        JsonValue::UInt(n) => {
            write_u64(*n, out);
        },
        JsonValue::Str(s) => {
            out.push('"');
            write_escaped(s.as_str(), out);
            out.push('"');
            proof {
                assert(out@ =~= old(out)@ + spec_json_text(v@));
            }
        },
        JsonValue::Arr(items) => {
            let ghost model = views_of(items@);
            proof {
                lemma_views_of(items@);
            }
            out.push('[');
            let ghost base = out@;
            let mut i: usize = 0;
            proof {
                assert(spec_items_text(model.take(0)) =~= Seq::<char>::empty());
                assert(out@ =~= base + spec_items_text(model.take(0)));
            }
            while i < items.len()
                invariant
                    i <= items@.len(),
                    out@ == base + spec_items_text(model.take(i as int)),
                decreases items@.len() - i,
            {
                if i > 0 {
                    out.push(',');
                }
                proof {
                    assert(decreases_to!(*v => *items));
                    assert(decreases_to!(*items => items@));
                    assert(decreases_to!(items@ => items@[i as int]));
                }
                write_json(&items[i], out);
                proof {
                    assert(model.take(i + 1).drop_last() =~= model.take(i as int));
                    assert(model.take(i + 1).last() == model[i as int]);
                    if i == 0 {
                        assert(out@ =~= base + spec_items_text(model.take(i + 1)));
                    } else {
                        assert(out@ =~= base + spec_items_text(model.take(i + 1)));
                    }
                }
                i += 1;
            }
            out.push(']');
            proof {
                assert(model.take(items@.len() as int) =~= model);
                assert(out@ =~= old(out)@ + spec_json_text(v@));
            }
        },
        JsonValue::Obj(fields) => {
            let ghost model = field_views_of(fields@);
            proof {
                lemma_field_views_of(fields@);
            }
            out.push('{');
            let ghost base = out@;
            let mut i: usize = 0;
            proof {
                assert(spec_fields_text(model.take(0)) =~= Seq::<char>::empty());
                assert(out@ =~= base + spec_fields_text(model.take(0)));
            }
            while i < fields.len()
                invariant
                    i <= fields@.len(),
                    out@ == base + spec_fields_text(model.take(i as int)),
                decreases fields@.len() - i,
            {
                if i > 0 {
                    out.push(',');
                }
                let ghost pre = out@;
                let entry = &fields[i];
                out.push('"');
                write_escaped(entry.0.as_str(), out);
                out.push('"');
                out.push(':');
                proof {
                    assert(decreases_to!(*v => *fields));
                    assert(decreases_to!(*fields => fields@));
                    assert(decreases_to!(fields@ => fields@[i as int]));
                    assert(decreases_to!(fields@[i as int] => fields@[i as int].1));
                }
                write_json(&entry.1, out);
                proof {
                    assert(model.take(i + 1).drop_last() =~= model.take(i as int));
                    assert(model.take(i + 1).last() == model[i as int]);
                    assert(out@ =~= pre + spec_field_text(model[i as int]));
                    assert(out@ =~= base + spec_fields_text(model.take(i + 1)));
                }
                i += 1;
            }
            out.push('}');
            proof {
                assert(model.take(fields@.len() as int) =~= model);
                assert(out@ =~= old(out)@ + spec_json_text(v@));
            }
        },
    }
}

/// The JSON text of `v` as a string.
pub fn json_to_string(v: &JsonValue) -> (r: String)
    ensures
        r@ == spec_json_text(v@),
{
    let mut out: Vec<char> = Vec::new();
    write_json(v, &mut out);
    proof {
        assert(out@ =~= spec_json_text(v@));
    }
    chars_to_string(out)
}

/// Relies on str::chars: the characters of a string slice, in order.
#[verifier::external_body]
pub(crate) fn str_chars(s: &str) -> (r: Vec<char>)
    ensures
        r@ == s@,
{
    s.chars().collect()
}

/// Relies on String's FromIterator<char>: collecting characters yields
/// the string of exactly those characters, in order.
#[verifier::external_body]
pub(crate) fn chars_to_string(v: Vec<char>) -> (r: String)
    ensures
        r@ == v@,
{
    v.into_iter().collect()
}

/// What parsing a JSON body yields: `Some` with the parsed tree when the
/// text is well-formed JSON whose numbers are unsigned integers that fit
/// in 64 bits, `None` otherwise. The result depends on the text alone.
pub uninterp spec fn json_parse(s: Seq<char>) -> Option<JsonV>;

#[verifier::external_type_specification]
#[verifier::external_body]
pub struct ExSerdeValue(serde_json::Value);

/// Relies on serde_json::from_str::<serde_json::Value>: parses a JSON
/// document or reports an error; the result is a function of the text
/// alone. A number that does not fit `u64`, which this library's model
/// cannot hold, is reported as a parse failure; object fields arrive in
/// serde_json's order (sorted by key).
#[verifier::external_body]
pub(crate) fn parse_json(body: &str) -> (r: Result<JsonValue, String>)
    ensures
        match r {
            Ok(v) => json_parse(body@) == Some(v@),
            Err(_) => json_parse(body@) is None,
        },
{
    match serde_json::from_str::<serde_json::Value>(body) {
        Ok(v) => match from_serde(&v) {
            Some(j) => Ok(j),
            None => Err("number out of range for this client".to_string()),
        },
        Err(e) => Err(e.to_string()),
    }
}

/// The conversion half of [`parse_json`]: a serde_json tree becomes this
/// library's [`JsonValue`], variant by variant; a number that does not
/// fit `u64` fails the conversion. Only [`parse_json`] calls this.
#[verifier::external_body]
fn from_serde(v: &serde_json::Value) -> Option<JsonValue> {
    match v {
        serde_json::Value::Null => Some(JsonValue::Null),
        serde_json::Value::Bool(b) => Some(JsonValue::Bool(*b)),
        serde_json::Value::Number(n) => n.as_u64().map(JsonValue::UInt),
        serde_json::Value::String(s) => Some(JsonValue::Str(s.clone())),
        serde_json::Value::Array(a) => {
            a.iter().map(from_serde).collect::<Option<Vec<_>>>().map(JsonValue::Arr)
        },
        serde_json::Value::Object(m) => {
            m.iter().map(|(k, x)| Some((k.clone(), from_serde(x)?))).collect::<Option<Vec<_>>>().map(JsonValue::Obj)
        },
    }
}

} // verus!
