//! Encoding of a search query into URL query-string form: every field
//! left at its documented default is omitted, every surviving field is
//! rendered as `key=value` with both sides percent-encoded.
use vstd::prelude::*;

use crate::annotations::{Order, SearchQuery, SearchQueryV, Sort};
use crate::json::{chars_to_string, hex_digit, spec_hex_digit, spec_udec, str_chars, write_u64};

verus! {

/// A single query pair when `present` holds, nothing otherwise: the
/// shape of every default-omitted query field.
pub open spec fn omit_pair(present: bool, key: Seq<char>, value: Seq<char>) -> Seq<
    (Seq<char>, Seq<char>),
> {
    if present {
        seq![(key, value)]
    } else {
        Seq::empty()
    }
}

/// The wire name of a sort field.
pub open spec fn spec_sort_name(s: Sort) -> Seq<char> {
    match s {
        Sort::Created => "created"@,
        Sort::Updated => "updated"@,
        Sort::Id => "id"@,
        Sort::Group => "group"@,
        Sort::User => "user"@,
    }
}

/// The wire name of a sort order.
pub open spec fn spec_order_name(o: Order) -> Seq<char> {
    match o {
        Order::Asc => "asc"@,
        Order::Desc => "desc"@,
    }
}

/// Strings joined by commas.
pub open spec fn spec_joined(ss: Seq<Seq<char>>) -> Seq<char>
    decreases ss.len(),
{
    if ss.len() == 0 {
        Seq::empty()
    } else if ss.len() == 1 {
        ss[0]
    } else {
        spec_joined(ss.drop_last()) + seq![','] + ss.last()
    }
}

/// The query value of a tag list: the tags between brackets, joined by
/// commas — the service's array encoding with the quotes of the JSON
/// scalars stripped.
pub open spec fn spec_tags_value(tags: Seq<Seq<char>>) -> Seq<char> {
    seq!['['] + spec_joined(tags) + seq![']']
}

/// The key/value pairs of a search query, in this library's canonical
/// order: the optional filters first, then the paging and sorting
/// parameters. Every field at its documented default is absent; numbers
/// are rendered in decimal without quotes, strings stand as they are.
pub open spec fn spec_search_pairs(q: SearchQueryV) -> Seq<(Seq<char>, Seq<char>)> {
    omit_pair(q.uri.len() > 0, "uri"@, q.uri) + omit_pair(
        q.uri_parts.len() > 0,
        "uri.parts"@,
        q.uri_parts,
    ) + omit_pair(q.wildcard_uri.len() > 0, "wildcard_uri"@, q.wildcard_uri) + omit_pair(
        q.user.len() > 0,
        "user"@,
        q.user,
    ) + omit_pair(q.group.len() > 0, "group"@, q.group) + omit_pair(
        q.tag.len() > 0,
        "tag"@,
        q.tag,
    ) + omit_pair(q.tags.len() > 0, "tags"@, spec_tags_value(q.tags)) + omit_pair(
        q.any.len() > 0,
        "any"@,
        q.any,
    ) + omit_pair(q.quote.len() > 0, "quote"@, q.quote) + omit_pair(
        q.references.len() > 0,
        "references"@,
        q.references,
    ) + omit_pair(q.text.len() > 0, "text"@, q.text) + omit_pair(
        q.search_after.len() > 0,
        "search_after"@,
        q.search_after,
    ) + omit_pair(q.sort != Sort::Updated, "sort"@, spec_sort_name(q.sort)) + omit_pair(
        q.order != Order::Desc,
        "order"@,
        spec_order_name(q.order),
    ) + omit_pair(q.offset != 0, "offset"@, spec_udec(q.offset as u64)) + omit_pair(
        q.limit != 20,
        "limit"@,
        spec_udec(q.limit as u64),
    )
}

/// The UTF-8 bytes of a character.
pub open spec fn spec_utf8(c: char) -> Seq<u8> {
    let n = c as u32;
    if n < 0x80 {
        seq![n as u8]
    } else if n < 0x800 {
        seq![(0xC0 + n / 0x40) as u8, (0x80 + n % 0x40) as u8]
    } else if n < 0x10000 {
        seq![
            (0xE0 + n / 0x1000) as u8,
            (0x80 + (n / 0x40) % 0x40) as u8,
            (0x80 + n % 0x40) as u8,
        ]
    } else {
        seq![
            (0xF0 + n / 0x40000) as u8,
            (0x80 + (n / 0x1000) % 0x40) as u8,
            (0x80 + (n / 0x40) % 0x40) as u8,
            (0x80 + n % 0x40) as u8,
        ]
    }
}

/// The percent escape of one byte, with uppercase hexadecimal digits.
pub open spec fn spec_pct(b: u8) -> Seq<char> {
    seq!['%', spec_hex_digit(b / 16), spec_hex_digit(b % 16)]
}

/// The percent escapes of a byte sequence.
pub open spec fn spec_pct_bytes(bs: Seq<u8>) -> Seq<char>
    decreases bs.len(),
{
    if bs.len() == 0 {
        Seq::empty()
    } else {
        spec_pct_bytes(bs.drop_last()) + spec_pct(bs.last())
    }
}

/// Whether a character stands for itself in form encoding: ASCII
/// letters, digits, and `*`, `-`, `.`, `_`.
pub open spec fn form_unreserved(c: char) -> bool {
    let n = c as u32;
    (97 <= n && n <= 122) || (65 <= n && n <= 90) || (48 <= n && n <= 57) || c == '*' || c == '-'
        || c == '.' || c == '_'
}

/// The form encoding of one character: unreserved characters stand for
/// themselves, a space becomes `+`, anything else becomes the percent
/// escapes of its UTF-8 bytes.
pub open spec fn spec_form_char(c: char) -> Seq<char> {
    if form_unreserved(c) {
        seq![c]
    } else if c == ' ' {
        seq!['+']
    } else {
        spec_pct_bytes(spec_utf8(c))
    }
}

/// The form encoding of a string's characters.
pub open spec fn spec_form_encoded(s: Seq<char>) -> Seq<char>
    decreases s.len(),
{
    if s.len() == 0 {
        Seq::empty()
    } else {
        spec_form_encoded(s.drop_last()) + spec_form_char(s.last())
    }
}

/// One query pair as text: the form-encoded key, `=`, the form-encoded
/// value.
pub open spec fn spec_pair_text(p: (Seq<char>, Seq<char>)) -> Seq<char> {
    spec_form_encoded(p.0) + seq!['='] + spec_form_encoded(p.1)
}

/// The full query string: the pairs' texts joined by `&`.
pub open spec fn spec_query_string(pairs: Seq<(Seq<char>, Seq<char>)>) -> Seq<char>
    decreases pairs.len(),
{
    if pairs.len() == 0 {
        Seq::empty()
    } else if pairs.len() == 1 {
        spec_pair_text(pairs[0])
    } else {
        spec_query_string(pairs.drop_last()) + seq!['&'] + spec_pair_text(pairs.last())
    }
}

/// Append the percent escape of one byte.
fn push_pct(b: u8, out: &mut Vec<char>)
    ensures
        final(out)@ == old(out)@ + spec_pct(b),
{
    out.push('%');
    out.push(hex_digit(b / 16));
    out.push(hex_digit(b % 16));
    proof {
        assert(out@ =~= old(out)@ + spec_pct(b));
    }
}

/// Append the form encoding of one character.
fn push_form_char(c: char, out: &mut Vec<char>)
    ensures
        final(out)@ == old(out)@ + spec_form_char(c),
{
    proof {
        reveal_with_fuel(spec_pct_bytes, 6);
    }
    let n = c as u32;
    let unreserved = (97 <= n && n <= 122) || (65 <= n && n <= 90) || (48 <= n && n <= 57) || c
        == '*' || c == '-' || c == '.' || c == '_';
    if unreserved {
        out.push(c);
        proof {
            assert(out@ =~= old(out)@ + spec_form_char(c));
        }
    } else if c == ' ' {
        out.push('+');
        proof {
            assert(out@ =~= old(out)@ + spec_form_char(c));
        }
    } else if n < 0x80 {
        push_pct(n as u8, out);
        proof {
            assert(spec_utf8(c).drop_last() =~= Seq::<u8>::empty());
            assert(out@ =~= old(out)@ + spec_form_char(c));
        }
    } else if n < 0x800 {
        push_pct((0xC0 + n / 0x40) as u8, out);
        push_pct((0x80 + n % 0x40) as u8, out);
        proof {
            let bs = spec_utf8(c);
            assert(bs.drop_last() =~= seq![(0xC0 + n / 0x40) as u8]);
            assert(bs.drop_last().drop_last() =~= Seq::<u8>::empty());
            assert(out@ =~= old(out)@ + spec_form_char(c));
        }
    } else if n < 0x10000 {
        push_pct((0xE0 + n / 0x1000) as u8, out);
        push_pct((0x80 + (n / 0x40) % 0x40) as u8, out);
        push_pct((0x80 + n % 0x40) as u8, out);
        proof {
            let bs = spec_utf8(c);
            assert(bs.drop_last() =~= seq![
                (0xE0 + n / 0x1000) as u8,
                (0x80 + (n / 0x40) % 0x40) as u8,
            ]);
            assert(bs.drop_last().drop_last() =~= seq![(0xE0 + n / 0x1000) as u8]);
            assert(bs.drop_last().drop_last().drop_last() =~= Seq::<u8>::empty());
            assert(out@ =~= old(out)@ + spec_form_char(c));
        }
    } else {
        push_pct((0xF0 + n / 0x40000) as u8, out);
        push_pct((0x80 + (n / 0x1000) % 0x40) as u8, out);
        push_pct((0x80 + (n / 0x40) % 0x40) as u8, out);
        push_pct((0x80 + n % 0x40) as u8, out);
        proof {
            let bs = spec_utf8(c);
            assert(bs.drop_last() =~= seq![
                (0xF0 + n / 0x40000) as u8,
                (0x80 + (n / 0x1000) % 0x40) as u8,
                (0x80 + (n / 0x40) % 0x40) as u8,
            ]);
            assert(bs.drop_last().drop_last() =~= seq![
                (0xF0 + n / 0x40000) as u8,
                (0x80 + (n / 0x1000) % 0x40) as u8,
            ]);
            assert(bs.drop_last().drop_last().drop_last() =~= seq![(0xF0 + n / 0x40000) as u8]);
            assert(bs.drop_last().drop_last().drop_last().drop_last() =~= Seq::<u8>::empty());
            assert(out@ =~= old(out)@ + spec_form_char(c));
        }
    }
}

/// Append the form encoding of a string.
#[verifier::loop_isolation(false)]
fn push_form_encoded(s: &str, out: &mut Vec<char>)
    ensures
        final(out)@ == old(out)@ + spec_form_encoded(s@),
{
    let chars = str_chars(s);
    let ghost base = out@;
    let mut i: usize = 0;
    proof {
        assert(spec_form_encoded(s@.take(0)) =~= Seq::<char>::empty());
        assert(out@ =~= base + spec_form_encoded(s@.take(0)));
    }
    while i < chars.len()
        invariant
            i <= chars@.len(),
            out@ == base + spec_form_encoded(s@.take(i as int)),
        decreases chars@.len() - i,
    {
        push_form_char(chars[i], out);
        proof {
            assert(s@.take(i + 1).drop_last() =~= s@.take(i as int));
            assert(s@.take(i + 1).last() == s@[i as int]);
            assert(out@ =~= base + spec_form_encoded(s@.take(i + 1)));
        }
        i += 1;
    }
    proof {
        assert(s@.take(s@.len() as int) =~= s@);
    }
}

/// The decimal rendering of `n` as a string.
pub fn u64_string(n: u64) -> (r: String)
    ensures
        r@ == spec_udec(n),
{
    let mut out: Vec<char> = Vec::new();
    write_u64(n, &mut out);
    proof {
        assert(out@ =~= spec_udec(n));
    }
    chars_to_string(out)
}

/// The wire name of a sort field.
pub fn sort_name(s: &Sort) -> (r: String)
    ensures
        r@ == spec_sort_name(*s),
{
    match s {
        Sort::Created => "created".to_owned(),
        Sort::Updated => "updated".to_owned(),
        Sort::Id => "id".to_owned(),
        Sort::Group => "group".to_owned(),
        Sort::User => "user".to_owned(),
    }
}

/// The wire name of a sort order.
pub fn order_name(o: &Order) -> (r: String)
    ensures
        r@ == spec_order_name(*o),
{
    match o {
        Order::Asc => "asc".to_owned(),
        Order::Desc => "desc".to_owned(),
    }
}

/// The query value of a tag list.
#[verifier::loop_isolation(false)]
pub fn tags_value(tags: &Vec<String>) -> (r: String)
    ensures
        r@ == spec_tags_value(tags.deep_view()),
{
    let ghost model = tags.deep_view();
    let mut out: Vec<char> = Vec::new();
    out.push('[');
    let mut i: usize = 0;
    proof {
        assert(spec_joined(model.take(0)) =~= Seq::<char>::empty());
        assert(out@ =~= seq!['['] + spec_joined(model.take(0)));
    }
    while i < tags.len()
        invariant
            i <= tags@.len(),
            out@ == seq!['['] + spec_joined(model.take(i as int)),
        decreases tags@.len() - i,
    {
        if i > 0 {
            out.push(',');
        }
        let chars = str_chars(tags[i].as_str());
        let ghost base = out@;
        let mut j: usize = 0;
        while j < chars.len()
            invariant
                j <= chars@.len(),
                out@ == base + chars@.take(j as int),
            decreases chars@.len() - j,
        {
            out.push(chars[j]);
            proof {
                assert(out@ =~= base + chars@.take(j + 1));
            }
            j += 1;
        }
        proof {
            assert(chars@.take(chars@.len() as int) =~= chars@);
            assert(model.take(i + 1).drop_last() =~= model.take(i as int));
            assert(model.take(i + 1).last() == model[i as int]);
            assert(out@ =~= seq!['['] + spec_joined(model.take(i + 1)));
        }
        i += 1;
    }
    out.push(']');
    proof {
        assert(model.take(tags@.len() as int) =~= model);
        assert(out@ =~= spec_tags_value(model));
    }
    chars_to_string(out)
}

/// Append one string-valued query pair, omitted when the value is at
/// its default (empty).
fn push_string_pair(pairs: &mut Vec<(String, String)>, key: &str, value: &String)
    ensures
        final(pairs).deep_view() == old(pairs).deep_view() + omit_pair(
            value@.len() > 0,
            key@,
            value@,
        ),
{
    let ghost snap = pairs.deep_view();
    if !value.as_str().is_empty() {
        pairs.push((key.to_owned(), value.clone()));
    }
    proof {
        assert(pairs.deep_view() =~= snap + omit_pair(value@.len() > 0, key@, value@));
    }
}

/// The key/value pairs of a search query, every default field omitted.
#[verifier::rlimit(100)]
#[verifier::spinoff_prover]
pub fn search_query_pairs(q: &SearchQuery) -> (r: Vec<(String, String)>)
    ensures
        r.deep_view() == spec_search_pairs(q@),
{
    let mut pairs: Vec<(String, String)> = Vec::new();
    proof {
        assert(pairs.deep_view() =~= Seq::<(Seq<char>, Seq<char>)>::empty());
    }
    push_string_pair(&mut pairs, "uri", &q.uri);
    push_string_pair(&mut pairs, "uri.parts", &q.uri_parts);
    push_string_pair(&mut pairs, "wildcard_uri", &q.wildcard_uri);
    push_string_pair(&mut pairs, "user", &q.user.0);
    push_string_pair(&mut pairs, "group", &q.group);
    push_string_pair(&mut pairs, "tag", &q.tag);
    let ghost snap_tags = pairs.deep_view();
    if q.tags.len() > 0 {
        let v = tags_value(&q.tags);
        pairs.push(("tags".to_owned(), v));
    }
    proof {
        assert(pairs.deep_view() =~= snap_tags + omit_pair(
            q@.tags.len() > 0,
            "tags"@,
            spec_tags_value(q@.tags),
        ));
    }
    push_string_pair(&mut pairs, "any", &q.any);
    push_string_pair(&mut pairs, "quote", &q.quote);
    push_string_pair(&mut pairs, "references", &q.references);
    push_string_pair(&mut pairs, "text", &q.text);
    push_string_pair(&mut pairs, "search_after", &q.search_after);
    let ghost snap_sort = pairs.deep_view();
    if !(q.sort == Sort::Updated) {
        let v = sort_name(&q.sort);
        pairs.push(("sort".to_owned(), v));
    }
    proof {
        assert(pairs.deep_view() =~= snap_sort + omit_pair(
            q@.sort != Sort::Updated,
            "sort"@,
            spec_sort_name(q@.sort),
        ));
    }
    let ghost snap_order = pairs.deep_view();
    if !(q.order == Order::Desc) {
        let v = order_name(&q.order);
        pairs.push(("order".to_owned(), v));
    }
    proof {
        assert(pairs.deep_view() =~= snap_order + omit_pair(
            q@.order != Order::Desc,
            "order"@,
            spec_order_name(q@.order),
        ));
    }
    let ghost snap_offset = pairs.deep_view();
    if q.offset != 0 {
        let v = u64_string(q.offset as u64);
        pairs.push(("offset".to_owned(), v));
    }
    proof {
        assert(pairs.deep_view() =~= snap_offset + omit_pair(
            q@.offset != 0,
            "offset"@,
            spec_udec(q@.offset as u64),
        ));
    }
    let ghost snap_limit = pairs.deep_view();
    if q.limit != 20 {
        let v = u64_string(q.limit as u64);
        pairs.push(("limit".to_owned(), v));
    }
    proof {
        assert(pairs.deep_view() =~= snap_limit + omit_pair(
            q@.limit != 20,
            "limit"@,
            spec_udec(q@.limit as u64),
        ));
        assert(Seq::<(Seq<char>, Seq<char>)>::empty() + omit_pair(
            q@.uri.len() > 0,
            "uri"@,
            q@.uri,
        ) =~= omit_pair(q@.uri.len() > 0, "uri"@, q@.uri));
    }
    pairs
}

/// The full query string of the given pairs.
#[verifier::loop_isolation(false)]
pub fn encode_query_string(pairs: &Vec<(String, String)>) -> (r: String)
    ensures
        r@ == spec_query_string(pairs.deep_view()),
{
    let ghost model = pairs.deep_view();
    let mut out: Vec<char> = Vec::new();
    let mut i: usize = 0;
    proof {
        assert(spec_query_string(model.take(0)) =~= Seq::<char>::empty());
        assert(out@ =~= spec_query_string(model.take(0)));
    }
    while i < pairs.len()
        invariant
            i <= pairs@.len(),
            out@ == spec_query_string(model.take(i as int)),
        decreases pairs@.len() - i,
    {
        if i > 0 {
            out.push('&');
        }
        let ghost pre = out@;
        let entry = &pairs[i];
        push_form_encoded(entry.0.as_str(), &mut out);
        out.push('=');
        push_form_encoded(entry.1.as_str(), &mut out);
        proof {
            assert(model.take(i + 1).drop_last() =~= model.take(i as int));
            assert(model.take(i + 1).last() == model[i as int]);
            assert(out@ =~= pre + spec_pair_text(model[i as int]));
            assert(out@ =~= spec_query_string(model.take(i + 1)));
        }
        i += 1;
    }
    proof {
        assert(model.take(pairs@.len() as int) =~= model);
    }
    chars_to_string(out)
}

/// The encoded query string of a search query.
pub fn search_query_string(q: &SearchQuery) -> (r: String)
    ensures
        r@ == spec_query_string(spec_search_pairs(q@)),
{
    let pairs = search_query_pairs(q);
    encode_query_string(&pairs)
}

/// The pairs of a query-pair list that carry the given key, in order.
pub open spec fn pairs_with_key(ps: Seq<(Seq<char>, Seq<char>)>, key: Seq<char>) -> Seq<
    (Seq<char>, Seq<char>),
>
    decreases ps.len(),
{
    if ps.len() == 0 {
        Seq::empty()
    } else if ps.last().0 == key {
        pairs_with_key(ps.drop_last(), key).push(ps.last())
    } else {
        pairs_with_key(ps.drop_last(), key)
    }
}

/// Keeping a key's pairs distributes over concatenation.
pub broadcast proof fn lemma_pairs_with_key_add(
    a: Seq<(Seq<char>, Seq<char>)>,
    b: Seq<(Seq<char>, Seq<char>)>,
    key: Seq<char>,
)
    ensures
        #[trigger] pairs_with_key(a + b, key) == pairs_with_key(a, key) + pairs_with_key(b, key),
    decreases b.len(),
{
    if b.len() == 0 {
        assert(a + b =~= a);
        assert(pairs_with_key(b, key) =~= Seq::<(Seq<char>, Seq<char>)>::empty());
        assert(pairs_with_key(a, key) + pairs_with_key(b, key) =~= pairs_with_key(a, key));
    } else {
        lemma_pairs_with_key_add(a, b.drop_last(), key);
        assert((a + b).drop_last() =~= a + b.drop_last());
        assert((a + b).last() == b.last());
        if b.last().0 == key {
            assert(pairs_with_key(a, key) + pairs_with_key(b, key) =~= (pairs_with_key(a, key)
                + pairs_with_key(b.drop_last(), key)).push(b.last()));
        }
    }
}

/// A single omitted-or-present pair keeps its key's pairs exactly when
/// it is present under that key.
pub broadcast proof fn lemma_pairs_with_key_omit(
    present: bool,
    k: Seq<char>,
    v: Seq<char>,
    key: Seq<char>,
)
    ensures
        #[trigger] pairs_with_key(omit_pair(present, k, v), key) == (if present && k == key {
            seq![(k, v)]
        } else {
            Seq::<(Seq<char>, Seq<char>)>::empty()
        }),
{
    reveal_with_fuel(pairs_with_key, 4);
    if present {
        assert(omit_pair(present, k, v).drop_last() =~= Seq::<(Seq<char>, Seq<char>)>::empty());
        if k == key {
            assert(pairs_with_key(omit_pair(present, k, v), key) =~= seq![(k, v)]);
        } else {
            assert(pairs_with_key(omit_pair(present, k, v), key) =~= Seq::<
                (Seq<char>, Seq<char>),
            >::empty());
        }
    }
}

/// Every field of a search query left at its documented default is
/// absent from the encoded pairs, and every non-default field is
/// present exactly once, under its wire key, with its exact value.
#[verifier::rlimit(100)]
#[verifier::spinoff_prover]
pub proof fn lemma_query_default_omission(q: SearchQueryV)
    ensures
        pairs_with_key(spec_search_pairs(q), "uri"@) == omit_pair(q.uri.len() > 0, "uri"@, q.uri),
        pairs_with_key(spec_search_pairs(q), "uri.parts"@) == omit_pair(
            q.uri_parts.len() > 0,
            "uri.parts"@,
            q.uri_parts,
        ),
        pairs_with_key(spec_search_pairs(q), "wildcard_uri"@) == omit_pair(
            q.wildcard_uri.len() > 0,
            "wildcard_uri"@,
            q.wildcard_uri,
        ),
        pairs_with_key(spec_search_pairs(q), "user"@) == omit_pair(
            q.user.len() > 0,
            "user"@,
            q.user,
        ),
        pairs_with_key(spec_search_pairs(q), "group"@) == omit_pair(
            q.group.len() > 0,
            "group"@,
            q.group,
        ),
        pairs_with_key(spec_search_pairs(q), "tag"@) == omit_pair(q.tag.len() > 0, "tag"@, q.tag),
        pairs_with_key(spec_search_pairs(q), "tags"@) == omit_pair(
            q.tags.len() > 0,
            "tags"@,
            spec_tags_value(q.tags),
        ),
        pairs_with_key(spec_search_pairs(q), "any"@) == omit_pair(q.any.len() > 0, "any"@, q.any),
        pairs_with_key(spec_search_pairs(q), "quote"@) == omit_pair(
            q.quote.len() > 0,
            "quote"@,
            q.quote,
        ),
        pairs_with_key(spec_search_pairs(q), "references"@) == omit_pair(
            q.references.len() > 0,
            "references"@,
            q.references,
        ),
        pairs_with_key(spec_search_pairs(q), "text"@) == omit_pair(
            q.text.len() > 0,
            "text"@,
            q.text,
        ),
        pairs_with_key(spec_search_pairs(q), "search_after"@) == omit_pair(
            q.search_after.len() > 0,
            "search_after"@,
            q.search_after,
        ),
        pairs_with_key(spec_search_pairs(q), "sort"@) == omit_pair(
            q.sort != Sort::Updated,
            "sort"@,
            spec_sort_name(q.sort),
        ),
        pairs_with_key(spec_search_pairs(q), "order"@) == omit_pair(
            q.order != Order::Desc,
            "order"@,
            spec_order_name(q.order),
        ),
        pairs_with_key(spec_search_pairs(q), "offset"@) == omit_pair(
            q.offset != 0,
            "offset"@,
            spec_udec(q.offset as u64),
        ),
        pairs_with_key(spec_search_pairs(q), "limit"@) == omit_pair(
            q.limit != 20,
            "limit"@,
            spec_udec(q.limit as u64),
        ),
{
    broadcast use lemma_pairs_with_key_add, lemma_pairs_with_key_omit;

    reveal_strlit("uri");
    reveal_strlit("uri.parts");
    reveal_strlit("wildcard_uri");
    reveal_strlit("user");
    reveal_strlit("group");
    reveal_strlit("tag");
    reveal_strlit("tags");
    reveal_strlit("any");
    reveal_strlit("quote");
    reveal_strlit("references");
    reveal_strlit("text");
    reveal_strlit("search_after");
    reveal_strlit("sort");
    reveal_strlit("order");
    reveal_strlit("offset");
    reveal_strlit("limit");
    assert(("uri"@).len() == 3);
    assert(("uri.parts"@).len() == 9);
    assert(("wildcard_uri"@).len() == 12);
    assert(("user"@).len() == 4);
    assert(("group"@).len() == 5);
    assert(("tag"@).len() == 3);
    assert(("tags"@).len() == 4);
    assert(("any"@).len() == 3);
    assert(("quote"@).len() == 5);
    assert(("references"@).len() == 10);
    assert(("text"@).len() == 4);
    assert(("search_after"@).len() == 12);
    assert(("sort"@).len() == 4);
    assert(("order"@).len() == 5);
    assert(("offset"@).len() == 6);
    assert(("limit"@).len() == 5);
    assert(("uri"@) != ("tag"@)) by {
        assert(("uri"@)[0] == 'u');
        assert(("tag"@)[0] == 't');
    }
    assert(("uri"@) != ("any"@)) by {
        assert(("uri"@)[0] == 'u');
        assert(("any"@)[0] == 'a');
    }
    assert(("tag"@) != ("any"@)) by {
        assert(("tag"@)[0] == 't');
        assert(("any"@)[0] == 'a');
    }
    assert(("user"@) != ("tags"@)) by {
        assert(("user"@)[0] == 'u');
        assert(("tags"@)[0] == 't');
    }
    assert(("user"@) != ("text"@)) by {
        assert(("user"@)[0] == 'u');
        assert(("text"@)[0] == 't');
    }
    assert(("user"@) != ("sort"@)) by {
        assert(("user"@)[0] == 'u');
        assert(("sort"@)[0] == 's');
    }
    assert(("tags"@) != ("text"@)) by {
        assert(("tags"@)[1] == 'a');
        assert(("text"@)[1] == 'e');
    }
    assert(("tags"@) != ("sort"@)) by {
        assert(("tags"@)[0] == 't');
        assert(("sort"@)[0] == 's');
    }
    assert(("text"@) != ("sort"@)) by {
        assert(("text"@)[0] == 't');
        assert(("sort"@)[0] == 's');
    }
    assert(("group"@) != ("quote"@)) by {
        assert(("group"@)[0] == 'g');
        assert(("quote"@)[0] == 'q');
    }
    assert(("group"@) != ("order"@)) by {
        assert(("group"@)[0] == 'g');
        assert(("order"@)[0] == 'o');
    }
    assert(("group"@) != ("limit"@)) by {
        assert(("group"@)[0] == 'g');
        assert(("limit"@)[0] == 'l');
    }
    assert(("quote"@) != ("order"@)) by {
        assert(("quote"@)[0] == 'q');
        assert(("order"@)[0] == 'o');
    }
    assert(("quote"@) != ("limit"@)) by {
        assert(("quote"@)[0] == 'q');
        assert(("limit"@)[0] == 'l');
    }
    assert(("order"@) != ("limit"@)) by {
        assert(("order"@)[0] == 'o');
        assert(("limit"@)[0] == 'l');
    }
    assert(("wildcard_uri"@) != ("search_after"@)) by {
        assert(("wildcard_uri"@)[0] == 'w');
        assert(("search_after"@)[0] == 's');
    }
}

} // verus!
