//! Validating builders: each accumulates field values through a fluent,
//! order-independent API (the last write per field wins), and `build`
//! resolves every unset field to its declared default — or reports a
//! builder error when a required field never materialized.
use vstd::prelude::*;

use crate::annotations::{
    Dc, DcV, Document, DocumentV, HighWire, HighWireV, InputAnnotation, InputAnnotationV, Link,
    LinkV, Order, SearchQuery, SearchQueryV, Selector, SelectorV, Sort, Target, TargetV,
};
use crate::errors::HypothesisError;
use crate::UserAccountID;

verus! {

/// The string an unset optional field resolves to.
pub open spec fn or_empty(o: Option<Seq<char>>) -> Seq<char> {
    match o {
        Some(s) => s,
        None => Seq::empty(),
    }
}

/// The string list an unset optional field resolves to.
pub open spec fn or_no_strings(o: Option<Seq<Seq<char>>>) -> Seq<Seq<char>> {
    match o {
        Some(s) => s,
        None => Seq::empty(),
    }
}

/// A builder for [`InputAnnotation`]: every field is optional.
#[derive(Debug, Clone, PartialEq)]
pub struct InputAnnotationBuilder {
    pub uri: Option<String>,
    pub text: Option<String>,
    pub tags: Option<Vec<String>>,
    pub document: Option<Document>,
    pub group: Option<String>,
    pub target: Option<Target>,
    pub references: Option<Vec<String>>,
}

/// The model of an [`InputAnnotationBuilder`].
#[verifier::ext_equal]
pub struct InputAnnotationBuilderV {
    pub uri: Option<Seq<char>>,
    pub text: Option<Seq<char>>,
    pub tags: Option<Seq<Seq<char>>>,
    pub document: Option<DocumentV>,
    pub group: Option<Seq<char>>,
    pub target: Option<TargetV>,
    pub references: Option<Seq<Seq<char>>>,
}

impl View for InputAnnotationBuilder {
    type V = InputAnnotationBuilderV;

    open spec fn view(&self) -> InputAnnotationBuilderV {
        InputAnnotationBuilderV {
            uri: self.uri.deep_view(),
            text: self.text.deep_view(),
            tags: self.tags.deep_view(),
            document: self.document.deep_view(),
            group: self.group.deep_view(),
            target: self.target.deep_view(),
            references: self.references.deep_view(),
        }
    }
}

impl Default for InputAnnotationBuilder {
    /// A builder with no field set.
    fn default() -> (r: InputAnnotationBuilder)
        ensures
            r@ == (InputAnnotationBuilderV {
                uri: None,
                text: None,
                tags: None,
                document: None,
                group: None,
                target: None,
                references: None,
            }),
    {
        InputAnnotationBuilder {
            uri: None,
            text: None,
            tags: None,
            document: None,
            group: None,
            target: None,
            references: None,
        }
    }
}

/// The annotation payload a builder's accumulated state resolves to:
/// unset strings become empty, unset tags stay unset (and are then
/// omitted from the payload), an unset target is the default target.
pub open spec fn built_input_annotation(b: InputAnnotationBuilderV) -> InputAnnotationV {
    InputAnnotationV {
        uri: or_empty(b.uri),
        text: or_empty(b.text),
        tags: b.tags,
        document: b.document,
        group: or_empty(b.group),
        target: match b.target {
            Some(t) => t,
            None => TargetV { source: Seq::empty(), selector: Seq::empty() },
        },
        references: or_no_strings(b.references),
    }
}

impl InputAnnotationBuilder {
    /// Set the URI the annotation is attached to.
    pub fn uri(self, uri: &str) -> (r: Self)
        ensures
            r@ == (InputAnnotationBuilderV { uri: Some(uri@), ..self@ }),
    {
        let r = Self { uri: Some(uri.to_owned()), ..self };
        proof {
            assert(r@ =~= (InputAnnotationBuilderV { uri: Some(uri@), ..self@ }));
        }
        r
    }

    /// Set the annotation text.
    pub fn text(self, text: &str) -> (r: Self)
        ensures
            r@ == (InputAnnotationBuilderV { text: Some(text@), ..self@ }),
    {
        let r = Self { text: Some(text.to_owned()), ..self };
        proof {
            assert(r@ =~= (InputAnnotationBuilderV { text: Some(text@), ..self@ }));
        }
        r
    }

    /// Set the tags.
    pub fn tags(self, tags: Vec<String>) -> (r: Self)
        ensures
            r@ == (InputAnnotationBuilderV { tags: Some(tags.deep_view()), ..self@ }),
    {
        let r = Self { tags: Some(tags), ..self };
        proof {
            assert(r@ =~= (InputAnnotationBuilderV { tags: r@.tags, ..self@ }));
        }
        r
    }

    /// Set the document metadata.
    pub fn document(self, document: Document) -> (r: Self)
        ensures
            r@ == (InputAnnotationBuilderV { document: Some(document@), ..self@ }),
    {
        let r = Self { document: Some(document), ..self };
        proof {
            assert(r@ =~= (InputAnnotationBuilderV { document: r@.document, ..self@ }));
        }
        r
    }

    /// Set the group identifier.
    pub fn group(self, group: &str) -> (r: Self)
        ensures
            r@ == (InputAnnotationBuilderV { group: Some(group@), ..self@ }),
    {
        let r = Self { group: Some(group.to_owned()), ..self };
        proof {
            assert(r@ =~= (InputAnnotationBuilderV { group: Some(group@), ..self@ }));
        }
        r
    }

    /// Set the target.
    pub fn target(self, target: Target) -> (r: Self)
        ensures
            r@ == (InputAnnotationBuilderV { target: Some(target@), ..self@ }),
    {
        let r = Self { target: Some(target), ..self };
        proof {
            assert(r@ =~= (InputAnnotationBuilderV { target: r@.target, ..self@ }));
        }
        r
    }

    /// Set the referenced annotation IDs.
    pub fn references(self, references: Vec<String>) -> (r: Self)
        ensures
            r@ == (InputAnnotationBuilderV { references: Some(references.deep_view()), ..self@ }),
    {
        let r = Self { references: Some(references), ..self };
        proof {
            assert(r@ =~= (InputAnnotationBuilderV { references: r@.references, ..self@ }));
        }
        r
    }

    /// Resolve the accumulated state to an annotation payload. Every
    /// field is optional, so this always succeeds.
    pub fn build(self) -> (r: Result<InputAnnotation, HypothesisError>)
        ensures
            r matches Ok(a) && a@ == built_input_annotation(self@),
    {
        let a = InputAnnotation {
            uri: match self.uri {
                Some(u) => u,
                None => String::new(),
            },
            text: match self.text {
                Some(t) => t,
                None => String::new(),
            },
            tags: self.tags,
            document: self.document,
            group: match self.group {
                Some(g) => g,
                None => String::new(),
            },
            target: match self.target {
                Some(t) => t,
                None => Target::default(),
            },
            references: match self.references {
                Some(rs) => rs,
                None => Vec::new(),
            },
        };
        proof {
            assert(a@ =~= built_input_annotation(self@));
        }
        Ok(a)
    }
}

/// A builder for [`Target`]: both fields are required.
#[derive(Debug, Clone, PartialEq)]
pub struct TargetBuilder {
    pub source: Option<String>,
    pub selector: Option<Vec<Selector>>,
}

/// The model of a [`TargetBuilder`].
#[verifier::ext_equal]
pub struct TargetBuilderV {
    pub source: Option<Seq<char>>,
    pub selector: Option<Seq<SelectorV>>,
}

impl View for TargetBuilder {
    type V = TargetBuilderV;

    open spec fn view(&self) -> TargetBuilderV {
        TargetBuilderV { source: self.source.deep_view(), selector: self.selector.deep_view() }
    }
}

impl Default for TargetBuilder {
    /// A builder with no field set.
    fn default() -> (r: TargetBuilder)
        ensures
            r@ == (TargetBuilderV { source: None, selector: None }),
    {
        TargetBuilder { source: None, selector: None }
    }
}

impl TargetBuilder {
    /// Set the target source URI.
    pub fn source(self, source: &str) -> (r: Self)
        ensures
            r@ == (TargetBuilderV { source: Some(source@), ..self@ }),
    {
        let r = Self { source: Some(source.to_owned()), ..self };
        proof {
            assert(r@ =~= (TargetBuilderV { source: Some(source@), ..self@ }));
        }
        r
    }

    /// Set the selectors.
    pub fn selector(self, selector: Vec<Selector>) -> (r: Self)
        ensures
            r@ == (TargetBuilderV { selector: Some(selector.deep_view()), ..self@ }),
    {
        let r = Self { selector: Some(selector), ..self };
        proof {
            assert(r@ =~= (TargetBuilderV { selector: r@.selector, ..self@ }));
        }
        r
    }

    /// Resolve the accumulated state to a target: succeeds exactly when
    /// both `source` and `selector` were set.
    pub fn build(self) -> (r: Result<Target, HypothesisError>)
        ensures
            match (self@.source, self@.selector) {
                (Some(src), Some(sel)) => r matches Ok(t) && t@ == (TargetV {
                    source: src,
                    selector: sel,
                }),
                (None, _) => r matches Err(HypothesisError::BuilderError(m)) && m@
                    == "`source` must be initialized"@,
                (Some(_), None) => r matches Err(HypothesisError::BuilderError(m)) && m@
                    == "`selector` must be initialized"@,
            },
    {
        let source = match self.source {
            Some(s) => s,
            None => {
                return Err(
                    HypothesisError::BuilderError("`source` must be initialized".to_owned()),
                );
            },
        };
        let selector = match self.selector {
            Some(s) => s,
            None => {
                return Err(
                    HypothesisError::BuilderError("`selector` must be initialized".to_owned()),
                );
            },
        };
        Ok(Target { source, selector })
    }
}

/// A builder for [`Document`]: `title` and `link` are required, the
/// metadata blocks are optional.
#[derive(Debug, Clone, PartialEq)]
pub struct DocumentBuilder {
    pub title: Option<Vec<String>>,
    pub dc: Option<Dc>,
    pub highwire: Option<HighWire>,
    pub link: Option<Vec<Link>>,
}

/// The model of a [`DocumentBuilder`].
#[verifier::ext_equal]
pub struct DocumentBuilderV {
    pub title: Option<Seq<Seq<char>>>,
    pub dc: Option<DcV>,
    pub highwire: Option<HighWireV>,
    pub link: Option<Seq<LinkV>>,
}

impl View for DocumentBuilder {
    type V = DocumentBuilderV;

    open spec fn view(&self) -> DocumentBuilderV {
        DocumentBuilderV {
            title: self.title.deep_view(),
            dc: self.dc.deep_view(),
            highwire: self.highwire.deep_view(),
            link: self.link.deep_view(),
        }
    }
}

impl Default for DocumentBuilder {
    /// A builder with no field set.
    fn default() -> (r: DocumentBuilder)
        ensures
            r@ == (DocumentBuilderV { title: None, dc: None, highwire: None, link: None }),
    {
        DocumentBuilder { title: None, dc: None, highwire: None, link: None }
    }
}

impl DocumentBuilder {
    /// Set the document titles.
    pub fn title(self, title: Vec<String>) -> (r: Self)
        ensures
            r@ == (DocumentBuilderV { title: Some(title.deep_view()), ..self@ }),
    {
        let r = Self { title: Some(title), ..self };
        proof {
            assert(r@ =~= (DocumentBuilderV { title: r@.title, ..self@ }));
        }
        r
    }

    /// Set the Dublin Core metadata.
    pub fn dc(self, dc: Dc) -> (r: Self)
        ensures
            r@ == (DocumentBuilderV { dc: Some(dc@), ..self@ }),
    {
        let r = Self { dc: Some(dc), ..self };
        proof {
            assert(r@ =~= (DocumentBuilderV { dc: r@.dc, ..self@ }));
        }
        r
    }

    /// Set the HighWire metadata.
    pub fn highwire(self, highwire: HighWire) -> (r: Self)
        ensures
            r@ == (DocumentBuilderV { highwire: Some(highwire@), ..self@ }),
    {
        let r = Self { highwire: Some(highwire), ..self };
        proof {
            assert(r@ =~= (DocumentBuilderV { highwire: r@.highwire, ..self@ }));
        }
        r
    }

    /// Set the document links.
    pub fn link(self, link: Vec<Link>) -> (r: Self)
        ensures
            r@ == (DocumentBuilderV { link: Some(link.deep_view()), ..self@ }),
    {
        let r = Self { link: Some(link), ..self };
        proof {
            assert(r@ =~= (DocumentBuilderV { link: r@.link, ..self@ }));
        }
        r
    }

    /// Resolve the accumulated state to document metadata: succeeds
    /// exactly when both `title` and `link` were set.
    pub fn build(self) -> (r: Result<Document, HypothesisError>)
        ensures
            match (self@.title, self@.link) {
                (Some(title), Some(link)) => r matches Ok(d) && d@ == (DocumentV {
                    title: title,
                    dc: self@.dc,
                    highwire: self@.highwire,
                    link: link,
                }),
                (None, _) => r matches Err(HypothesisError::BuilderError(m)) && m@
                    == "`title` must be initialized"@,
                (Some(_), None) => r matches Err(HypothesisError::BuilderError(m)) && m@
                    == "`link` must be initialized"@,
            },
    {
        let title = match self.title {
            Some(t) => t,
            None => {
                return Err(
                    HypothesisError::BuilderError("`title` must be initialized".to_owned()),
                );
            },
        };
        let link = match self.link {
            Some(l) => l,
            None => {
                return Err(HypothesisError::BuilderError("`link` must be initialized".to_owned()));
            },
        };
        let d = Document { title, dc: self.dc, highwire: self.highwire, link };
        proof {
            assert(d@ =~= (DocumentV {
                title: d@.title,
                dc: self@.dc,
                highwire: self@.highwire,
                link: d@.link,
            }));
        }
        Ok(d)
    }
}

/// A builder for [`SearchQuery`]: every field is optional and resolves
/// to its documented default.
#[derive(Debug, Clone, PartialEq)]
pub struct SearchQueryBuilder {
    pub limit: Option<u8>,
    pub sort: Option<Sort>,
    pub search_after: Option<String>,
    pub offset: Option<usize>,
    pub order: Option<Order>,
    pub uri: Option<String>,
    pub uri_parts: Option<String>,
    pub wildcard_uri: Option<String>,
    pub user: Option<UserAccountID>,
    pub group: Option<String>,
    pub tag: Option<String>,
    pub tags: Option<Vec<String>>,
    pub any: Option<String>,
    pub quote: Option<String>,
    pub references: Option<String>,
    pub text: Option<String>,
}

/// The model of a [`SearchQueryBuilder`].
#[verifier::ext_equal]
pub struct SearchQueryBuilderV {
    pub limit: Option<u8>,
    pub sort: Option<Sort>,
    pub search_after: Option<Seq<char>>,
    pub offset: Option<usize>,
    pub order: Option<Order>,
    pub uri: Option<Seq<char>>,
    pub uri_parts: Option<Seq<char>>,
    pub wildcard_uri: Option<Seq<char>>,
    pub user: Option<Seq<char>>,
    pub group: Option<Seq<char>>,
    pub tag: Option<Seq<char>>,
    pub tags: Option<Seq<Seq<char>>>,
    pub any: Option<Seq<char>>,
    pub quote: Option<Seq<char>>,
    pub references: Option<Seq<char>>,
    pub text: Option<Seq<char>>,
}

impl View for SearchQueryBuilder {
    type V = SearchQueryBuilderV;

    open spec fn view(&self) -> SearchQueryBuilderV {
        SearchQueryBuilderV {
            limit: self.limit.deep_view(),
            sort: self.sort.deep_view(),
            search_after: self.search_after.deep_view(),
            offset: self.offset.deep_view(),
            order: self.order.deep_view(),
            uri: self.uri.deep_view(),
            uri_parts: self.uri_parts.deep_view(),
            wildcard_uri: self.wildcard_uri.deep_view(),
            user: self.user.deep_view(),
            group: self.group.deep_view(),
            tag: self.tag.deep_view(),
            tags: self.tags.deep_view(),
            any: self.any.deep_view(),
            quote: self.quote.deep_view(),
            references: self.references.deep_view(),
            text: self.text.deep_view(),
        }
    }
}

impl Default for SearchQueryBuilder {
    /// A builder with no field set.
    fn default() -> (r: SearchQueryBuilder)
        ensures
            r@ == (SearchQueryBuilderV {
                limit: None,
                sort: None,
                search_after: None,
                offset: None,
                order: None,
                uri: None,
                uri_parts: None,
                wildcard_uri: None,
                user: None,
                group: None,
                tag: None,
                tags: None,
                any: None,
                quote: None,
                references: None,
                text: None,
            }),
    {
        SearchQueryBuilder {
            limit: None,
            sort: None,
            search_after: None,
            offset: None,
            order: None,
            uri: None,
            uri_parts: None,
            wildcard_uri: None,
            user: None,
            group: None,
            tag: None,
            tags: None,
            any: None,
            quote: None,
            references: None,
            text: None,
        }
    }
}

/// The search query a builder's accumulated state resolves to: every
/// unset field takes its documented default (limit 20, sort updated,
/// order desc, offset 0, empty strings and tags).
pub open spec fn built_search_query(b: SearchQueryBuilderV) -> SearchQueryV {
    SearchQueryV {
        limit: match b.limit {
            Some(l) => l,
            None => 20,
        },
        sort: match b.sort {
            Some(s) => s,
            None => Sort::Updated,
        },
        search_after: or_empty(b.search_after),
        offset: match b.offset {
            Some(o) => o,
            None => 0,
        },
        order: match b.order {
            Some(o) => o,
            None => Order::Desc,
        },
        uri: or_empty(b.uri),
        uri_parts: or_empty(b.uri_parts),
        wildcard_uri: or_empty(b.wildcard_uri),
        user: or_empty(b.user),
        group: or_empty(b.group),
        tag: or_empty(b.tag),
        tags: or_no_strings(b.tags),
        any: or_empty(b.any),
        quote: or_empty(b.quote),
        references: or_empty(b.references),
        text: or_empty(b.text),
    }
}

impl SearchQueryBuilder {
    /// Set the maximum number of results.
    pub fn limit(self, limit: u8) -> (r: Self)
        ensures
            r@ == (SearchQueryBuilderV { limit: Some(limit), ..self@ }),
    {
        let r = Self { limit: Some(limit), ..self };
        proof {
            assert(r@ =~= (SearchQueryBuilderV { limit: Some(limit), ..self@ }));
        }
        r
    }

    /// Set the sort field.
    pub fn sort(self, sort: Sort) -> (r: Self)
        ensures
            r@ == (SearchQueryBuilderV { sort: Some(sort), ..self@ }),
    {
        let r = Self { sort: Some(sort), ..self };
        proof {
            assert(r@ =~= (SearchQueryBuilderV { sort: Some(sort), ..self@ }));
        }
        r
    }

    /// Set the pagination cursor.
    pub fn search_after(self, search_after: &str) -> (r: Self)
        ensures
            r@ == (SearchQueryBuilderV { search_after: Some(search_after@), ..self@ }),
    {
        let r = Self { search_after: Some(search_after.to_owned()), ..self };
        proof {
            assert(r@ =~= (SearchQueryBuilderV { search_after: Some(search_after@), ..self@ }));
        }
        r
    }

    /// Set the number of results to skip.
    pub fn offset(self, offset: usize) -> (r: Self)
        ensures
            r@ == (SearchQueryBuilderV { offset: Some(offset), ..self@ }),
    {
        let r = Self { offset: Some(offset), ..self };
        proof {
            assert(r@ =~= (SearchQueryBuilderV { offset: Some(offset), ..self@ }));
        }
        r
    }

    /// Set the sort order.
    pub fn order(self, order: Order) -> (r: Self)
        ensures
            r@ == (SearchQueryBuilderV { order: Some(order), ..self@ }),
    {
        let r = Self { order: Some(order), ..self };
        proof {
            assert(r@ =~= (SearchQueryBuilderV { order: Some(order), ..self@ }));
        }
        r
    }

    /// Set the URI filter.
    pub fn uri(self, uri: &str) -> (r: Self)
        ensures
            r@ == (SearchQueryBuilderV { uri: Some(uri@), ..self@ }),
    {
        let r = Self { uri: Some(uri.to_owned()), ..self };
        proof {
            assert(r@ =~= (SearchQueryBuilderV { uri: Some(uri@), ..self@ }));
        }
        r
    }

    /// Set the URI keyword filter.
    pub fn uri_parts(self, uri_parts: &str) -> (r: Self)
        ensures
            r@ == (SearchQueryBuilderV { uri_parts: Some(uri_parts@), ..self@ }),
    {
        let r = Self { uri_parts: Some(uri_parts.to_owned()), ..self };
        proof {
            assert(r@ =~= (SearchQueryBuilderV { uri_parts: Some(uri_parts@), ..self@ }));
        }
        r
    }

    /// Set the wildcard URI filter.
    pub fn wildcard_uri(self, wildcard_uri: &str) -> (r: Self)
        ensures
            r@ == (SearchQueryBuilderV { wildcard_uri: Some(wildcard_uri@), ..self@ }),
    {
        let r = Self { wildcard_uri: Some(wildcard_uri.to_owned()), ..self };
        proof {
            assert(r@ =~= (SearchQueryBuilderV { wildcard_uri: Some(wildcard_uri@), ..self@ }));
        }
        r
    }

    /// Set the user filter.
    pub fn user(self, user: &UserAccountID) -> (r: Self)
        ensures
            r@ == (SearchQueryBuilderV { user: Some(user@), ..self@ }),
    {
        let r = Self { user: Some(UserAccountID(user.0.clone())), ..self };
        proof {
            assert(r@ =~= (SearchQueryBuilderV { user: Some(user@), ..self@ }));
        }
        r
    }

    /// Set the group filter.
    pub fn group(self, group: &str) -> (r: Self)
        ensures
            r@ == (SearchQueryBuilderV { group: Some(group@), ..self@ }),
    {
        let r = Self { group: Some(group.to_owned()), ..self };
        proof {
            assert(r@ =~= (SearchQueryBuilderV { group: Some(group@), ..self@ }));
        }
        r
    }

    /// Set the tag filter.
    pub fn tag(self, tag: &str) -> (r: Self)
        ensures
            r@ == (SearchQueryBuilderV { tag: Some(tag@), ..self@ }),
    {
        let r = Self { tag: Some(tag.to_owned()), ..self };
        proof {
            assert(r@ =~= (SearchQueryBuilderV { tag: Some(tag@), ..self@ }));
        }
        r
    }

    /// Set the multi-tag filter.
    pub fn tags(self, tags: Vec<String>) -> (r: Self)
        ensures
            r@ == (SearchQueryBuilderV { tags: Some(tags.deep_view()), ..self@ }),
    {
        let r = Self { tags: Some(tags), ..self };
        proof {
            assert(r@ =~= (SearchQueryBuilderV { tags: r@.tags, ..self@ }));
        }
        r
    }

    /// Set the any-field keyword filter.
    pub fn any(self, any: &str) -> (r: Self)
        ensures
            r@ == (SearchQueryBuilderV { any: Some(any@), ..self@ }),
    {
        let r = Self { any: Some(any.to_owned()), ..self };
        proof {
            assert(r@ =~= (SearchQueryBuilderV { any: Some(any@), ..self@ }));
        }
        r
    }

    /// Set the quoted-text filter.
    pub fn quote(self, quote: &str) -> (r: Self)
        ensures
            r@ == (SearchQueryBuilderV { quote: Some(quote@), ..self@ }),
    {
        let r = Self { quote: Some(quote.to_owned()), ..self };
        proof {
            assert(r@ =~= (SearchQueryBuilderV { quote: Some(quote@), ..self@ }));
        }
        r
    }

    /// Set the parent-annotation filter.
    pub fn references(self, references: &str) -> (r: Self)
        ensures
            r@ == (SearchQueryBuilderV { references: Some(references@), ..self@ }),
    {
        let r = Self { references: Some(references.to_owned()), ..self };
        proof {
            assert(r@ =~= (SearchQueryBuilderV { references: Some(references@), ..self@ }));
        }
        r
    }

    /// Set the body-text filter.
    pub fn text(self, text: &str) -> (r: Self)
        ensures
            r@ == (SearchQueryBuilderV { text: Some(text@), ..self@ }),
    {
        let r = Self { text: Some(text.to_owned()), ..self };
        proof {
            assert(r@ =~= (SearchQueryBuilderV { text: Some(text@), ..self@ }));
        }
        r
    }

    /// Resolve the accumulated state to a search query. Every field is
    /// optional, so this always succeeds.
    pub fn build(self) -> (r: Result<SearchQuery, HypothesisError>)
        ensures
            r matches Ok(q) && q@ == built_search_query(self@),
    {
        let q = SearchQuery {
            limit: match self.limit {
                Some(l) => l,
                None => 20,
            },
            sort: match self.sort {
                Some(s) => s,
                None => Sort::Updated,
            },
            search_after: match self.search_after {
                Some(s) => s,
                None => String::new(),
            },
            offset: match self.offset {
                Some(o) => o,
                None => 0,
            },
            order: match self.order {
                Some(o) => o,
                None => Order::Desc,
            },
            uri: match self.uri {
                Some(s) => s,
                None => String::new(),
            },
            uri_parts: match self.uri_parts {
                Some(s) => s,
                None => String::new(),
            },
            wildcard_uri: match self.wildcard_uri {
                Some(s) => s,
                None => String::new(),
            },
            user: match self.user {
                Some(u) => u,
                None => UserAccountID(String::new()),
            },
            group: match self.group {
                Some(s) => s,
                None => String::new(),
            },
            tag: match self.tag {
                Some(s) => s,
                None => String::new(),
            },
            tags: match self.tags {
                Some(t) => t,
                None => Vec::new(),
            },
            any: match self.any {
                Some(s) => s,
                None => String::new(),
            },
            quote: match self.quote {
                Some(s) => s,
                None => String::new(),
            },
            references: match self.references {
                Some(s) => s,
                None => String::new(),
            },
            text: match self.text {
                Some(s) => s,
                None => String::new(),
            },
        };
        proof {
            assert(q@ =~= built_search_query(self@));
        }
        Ok(q)
    }
}

/// An annotation built with only a URI and a comment set builds
/// successfully (the builder's contract) and encodes to an object
/// holding exactly those two fields: tags, document, group, target and
/// references are absent from the payload.
pub proof fn lemma_minimal_build_encoding(uri: Seq<char>, text: Seq<char>)
    requires
        uri.len() > 0,
        text.len() > 0,
    ensures
        crate::encode::spec_input_annotation_json(
            built_input_annotation(
                InputAnnotationBuilderV {
                    uri: Some(uri),
                    text: Some(text),
                    tags: None,
                    document: None,
                    group: None,
                    target: None,
                    references: None,
                },
            ),
        ) == crate::json::JsonV::Obj(
            seq![
                ("uri"@, crate::json::JsonV::Str(uri)),
                ("text"@, crate::json::JsonV::Str(text)),
            ],
        ),
{
    let b = InputAnnotationBuilderV {
        uri: Some(uri),
        text: Some(text),
        tags: None,
        document: None,
        group: None,
        target: None,
        references: None,
    };
    crate::encode::lemma_minimal_input_encoding(built_input_annotation(b));
}

} // verus!
