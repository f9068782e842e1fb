//! The annotation data model: annotations, targets, selectors, search
//! queries and their validating builders.
use vstd::prelude::*;

use crate::json::{JsonV, JsonValue};
use crate::UserAccountID;

verus! {

/// This selector describes a span of text by quoting it: `exact` is the
/// selected text itself, `prefix` and `suffix` disambiguate among repeated
/// occurrences of the same text.
#[derive(Debug, Clone, PartialEq)]
pub struct TextQuoteSelector {
    /// A copy of the text which is being selected, after normalization.
    pub exact: String,
    /// A snippet of text that occurs immediately before the selected text.
    pub prefix: String,
    /// The snippet of text that occurs immediately after the selected text.
    pub suffix: String,
}

/// The model of a [`TextQuoteSelector`].
#[verifier::ext_equal]
pub struct TextQuoteSelectorV {
    pub exact: Seq<char>,
    pub prefix: Seq<char>,
    pub suffix: Seq<char>,
}

impl View for TextQuoteSelector {
    type V = TextQuoteSelectorV;

    open spec fn view(&self) -> TextQuoteSelectorV {
        TextQuoteSelectorV { exact: self.exact@, prefix: self.prefix@, suffix: self.suffix@ }
    }
}

impl DeepView for TextQuoteSelector {
    type V = TextQuoteSelectorV;

    open spec fn deep_view(&self) -> TextQuoteSelectorV {
        self.view()
    }
}

/// This selector describes a span of text by character offsets: `start` is
/// the position of the first character of the span (the first character of
/// the document is position 0) and `end` is the position one past its last
/// character. A value with `start > end` is representable: construction
/// does not reject it, though such a span is semantically invalid.
#[derive(Debug, Clone, Copy, PartialEq, Eq, Structural)]
pub struct TextPositionSelector {
    /// The starting position of the segment of text, included in the span.
    pub start: u64,
    /// The end position of the segment of text, not included in the span.
    pub end: u64,
}

impl View for TextPositionSelector {
    type V = TextPositionSelector;

    open spec fn view(&self) -> TextPositionSelector {
        *self
    }
}

impl DeepView for TextPositionSelector {
    type V = TextPositionSelector;

    open spec fn deep_view(&self) -> TextPositionSelector {
        *self
    }
}

/// A description of which part of a document an annotation is anchored to.
/// Exactly one variant is active per value; on the wire each variant
/// carries a discriminant field equal to the variant's name.
#[derive(Debug, Clone, PartialEq)]
pub enum Selector {
    TextQuoteSelector(TextQuoteSelector),
    /// The service's range format is not further specified, so the value
    /// is kept as an opaque bag of fields and passed through unchanged.
    RangeSelector(Vec<(String, JsonValue)>),
    TextPositionSelector(TextPositionSelector),
}

/// The model of a [`Selector`].
#[verifier::ext_equal]
pub enum SelectorV {
    TextQuoteSelector(TextQuoteSelectorV),
    RangeSelector(Seq<(Seq<char>, JsonV)>),
    TextPositionSelector(TextPositionSelector),
}

impl View for Selector {
    type V = SelectorV;

    open spec fn view(&self) -> SelectorV {
        match self {
            Selector::TextQuoteSelector(q) => SelectorV::TextQuoteSelector(q@),
            Selector::RangeSelector(m) => SelectorV::RangeSelector(m.deep_view()),
            Selector::TextPositionSelector(p) => SelectorV::TextPositionSelector(*p),
        }
    }
}

impl DeepView for Selector {
    type V = SelectorV;

    open spec fn deep_view(&self) -> SelectorV {
        self.view()
    }
}

impl Selector {
    /// Build a quote selector from the selected text and its context.
    pub fn new_quote(exact: &str, prefix: &str, suffix: &str) -> (r: Selector)
        ensures
            r@ == SelectorV::TextQuoteSelector(
                TextQuoteSelectorV { exact: exact@, prefix: prefix@, suffix: suffix@ },
            ),
    {
        Selector::TextQuoteSelector(TextQuoteSelector {
            exact: exact.to_owned(),
            prefix: prefix.to_owned(),
            suffix: suffix.to_owned(),
        })
    }
}

/// The (source document, selectors) pair an annotation points at. An empty
/// `source` refers to the current document; an empty `selector` sequence
/// targets the whole document.
#[derive(Debug, Clone, PartialEq)]
pub struct Target {
    /// The target URI for the annotation; leave empty when creating.
    pub source: String,
    /// Selectors that refine this annotation's target.
    pub selector: Vec<Selector>,
}

/// The model of a [`Target`].
#[verifier::ext_equal]
pub struct TargetV {
    pub source: Seq<char>,
    pub selector: Seq<SelectorV>,
}

impl View for Target {
    type V = TargetV;

    open spec fn view(&self) -> TargetV {
        TargetV { source: self.source@, selector: self.selector.deep_view() }
    }
}

impl DeepView for Target {
    type V = TargetV;

    open spec fn deep_view(&self) -> TargetV {
        self.view()
    }
}

impl Default for Target {
    /// The default target: empty source, no selectors.
    fn default() -> (r: Target)
        ensures
            r@ == (TargetV { source: Seq::<char>::empty(), selector: Seq::<SelectorV>::empty() }),
    {
        let r = Target { source: String::new(), selector: Vec::new() };
        proof {
            assert(r@.selector =~= Seq::<SelectorV>::empty());
        }
        r
    }
}

/// Dublin Core metadata about the target document.
#[derive(Debug, Clone, PartialEq)]
pub struct Dc {
    pub identifier: Vec<String>,
}

/// The model of a [`Dc`].
#[verifier::ext_equal]
pub struct DcV {
    pub identifier: Seq<Seq<char>>,
}

impl View for Dc {
    type V = DcV;

    open spec fn view(&self) -> DcV {
        DcV { identifier: self.identifier.deep_view() }
    }
}

impl DeepView for Dc {
    type V = DcV;

    open spec fn deep_view(&self) -> DcV {
        self.view()
    }
}

/// HighWire press metadata about the target document.
#[derive(Debug, Clone, PartialEq)]
pub struct HighWire {
    pub doi: Vec<String>,
    pub pdf_url: Vec<String>,
}

/// The model of a [`HighWire`].
#[verifier::ext_equal]
pub struct HighWireV {
    pub doi: Seq<Seq<char>>,
    pub pdf_url: Seq<Seq<char>>,
}

impl View for HighWire {
    type V = HighWireV;

    open spec fn view(&self) -> HighWireV {
        HighWireV { doi: self.doi.deep_view(), pdf_url: self.pdf_url.deep_view() }
    }
}

impl DeepView for HighWire {
    type V = HighWireV;

    open spec fn deep_view(&self) -> HighWireV {
        self.view()
    }
}

/// A typed link in the document metadata.
#[derive(Debug, Clone, PartialEq)]
pub struct Link {
    pub href: String,
    /// Serialized under the key `type`.
    pub link_type: String,
}

/// The model of a [`Link`].
#[verifier::ext_equal]
pub struct LinkV {
    pub href: Seq<char>,
    pub link_type: Seq<char>,
}

impl View for Link {
    type V = LinkV;

    open spec fn view(&self) -> LinkV {
        LinkV { href: self.href@, link_type: self.link_type@ }
    }
}

impl DeepView for Link {
    type V = LinkV;

    open spec fn deep_view(&self) -> LinkV {
        self.view()
    }
}

/// Further metadata about the document an annotation is attached to.
#[derive(Debug, Clone, PartialEq)]
pub struct Document {
    pub title: Vec<String>,
    pub dc: Option<Dc>,
    pub highwire: Option<HighWire>,
    pub link: Vec<Link>,
}

/// The model of a [`Document`].
#[verifier::ext_equal]
pub struct DocumentV {
    pub title: Seq<Seq<char>>,
    pub dc: Option<DcV>,
    pub highwire: Option<HighWireV>,
    pub link: Seq<LinkV>,
}

impl View for Document {
    type V = DocumentV;

    open spec fn view(&self) -> DocumentV {
        DocumentV {
            title: self.title.deep_view(),
            dc: self.dc.deep_view(),
            highwire: self.highwire.deep_view(),
            link: self.link.deep_view(),
        }
    }
}

impl DeepView for Document {
    type V = DocumentV;

    open spec fn deep_view(&self) -> DocumentV {
        self.view()
    }
}

/// A client-constructed, write-only annotation: the payload of a create or
/// an update request. For an update, every field left at its default is
/// omitted from the payload, so the server-side value stays unchanged.
#[derive(Debug, Clone, PartialEq)]
pub struct InputAnnotation {
    /// URI that this annotation is attached to. For a create request the
    /// caller is expected to set it; this is not enforced structurally.
    pub uri: String,
    /// Annotation text / comment given by the user (not the selected text).
    pub text: String,
    /// Tags attached to the annotation. `None` ("unset") is omitted from
    /// the payload entirely; an empty list is sent as such.
    pub tags: Option<Vec<String>>,
    /// Further metadata about the target document.
    pub document: Option<Document>,
    /// The unique identifier for the annotation's group.
    pub group: String,
    /// Which part of the document the annotation targets; the default
    /// links the annotation to the whole page.
    pub target: Target,
    /// Annotation IDs this annotation references (e.g. is a reply to).
    pub references: Vec<String>,
}

/// The model of an [`InputAnnotation`].
#[verifier::ext_equal]
pub struct InputAnnotationV {
    pub uri: Seq<char>,
    pub text: Seq<char>,
    pub tags: Option<Seq<Seq<char>>>,
    pub document: Option<DocumentV>,
    pub group: Seq<char>,
    pub target: TargetV,
    pub references: Seq<Seq<char>>,
}

impl View for InputAnnotation {
    type V = InputAnnotationV;

    open spec fn view(&self) -> InputAnnotationV {
        InputAnnotationV {
            uri: self.uri@,
            text: self.text@,
            tags: self.tags.deep_view(),
            document: self.document.deep_view(),
            group: self.group@,
            target: self.target@,
            references: self.references.deep_view(),
        }
    }
}

impl DeepView for InputAnnotation {
    type V = InputAnnotationV;

    open spec fn deep_view(&self) -> InputAnnotationV {
        self.view()
    }
}

/// The four role-to-principal-list maps of an annotation.
#[derive(Debug, Clone, PartialEq)]
pub struct Permissions {
    pub read: Vec<String>,
    pub delete: Vec<String>,
    pub admin: Vec<String>,
    pub update: Vec<String>,
}

/// The model of a [`Permissions`].
#[verifier::ext_equal]
pub struct PermissionsV {
    pub read: Seq<Seq<char>>,
    pub delete: Seq<Seq<char>>,
    pub admin: Seq<Seq<char>>,
    pub update: Seq<Seq<char>>,
}

impl View for Permissions {
    type V = PermissionsV;

    open spec fn view(&self) -> PermissionsV {
        PermissionsV {
            read: self.read.deep_view(),
            delete: self.delete.deep_view(),
            admin: self.admin.deep_view(),
            update: self.update.deep_view(),
        }
    }
}

impl DeepView for Permissions {
    type V = PermissionsV;

    open spec fn deep_view(&self) -> PermissionsV {
        self.view()
    }
}

/// The annotation creator's display name.
#[derive(Debug, Clone, PartialEq)]
pub struct UserInfo {
    pub display_name: String,
}

/// The model of a [`UserInfo`].
#[verifier::ext_equal]
pub struct UserInfoV {
    pub display_name: Seq<char>,
}

impl View for UserInfo {
    type V = UserInfoV;

    open spec fn view(&self) -> UserInfoV {
        UserInfoV { display_name: self.display_name@ }
    }
}

impl DeepView for UserInfo {
    type V = UserInfoV;

    open spec fn deep_view(&self) -> UserInfoV {
        self.view()
    }
}

/// A server-assigned annotation resource. It is never partially mutated
/// client-side: every field is replaced wholesale on refresh.
#[derive(Debug, Clone, PartialEq)]
pub struct Annotation {
    /// Annotation ID.
    pub id: String,
    /// Date of creation, as an RFC 3339 timestamp.
    pub created: String,
    /// Date of last update, as an RFC 3339 timestamp.
    pub updated: String,
    /// User account ID in the format `acct:<username>@<authority>`.
    pub user: UserAccountID,
    /// URL of the document this annotation is attached to.
    pub uri: String,
    /// The text content of the annotation body.
    pub text: String,
    /// Tags attached to the annotation.
    pub tags: Vec<String>,
    /// The unique identifier for the annotation's group.
    pub group: String,
    pub permissions: Permissions,
    /// Which part of the document the annotation targets.
    pub target: Vec<Target>,
    /// Hypermedia links for this annotation, as (name, URL) pairs.
    pub links: Vec<(String, String)>,
    /// Whether this annotation is hidden from public view.
    pub hidden: bool,
    /// Whether this annotation has one or more flags for moderation.
    pub flagged: bool,
    /// Annotation IDs this annotation references (e.g. is a reply to).
    pub references: Vec<String>,
    pub user_info: Option<UserInfo>,
}

/// The model of an [`Annotation`].
#[verifier::ext_equal]
pub struct AnnotationV {
    pub id: Seq<char>,
    pub created: Seq<char>,
    pub updated: Seq<char>,
    pub user: Seq<char>,
    pub uri: Seq<char>,
    pub text: Seq<char>,
    pub tags: Seq<Seq<char>>,
    pub group: Seq<char>,
    pub permissions: PermissionsV,
    pub target: Seq<TargetV>,
    pub links: Seq<(Seq<char>, Seq<char>)>,
    pub hidden: bool,
    pub flagged: bool,
    pub references: Seq<Seq<char>>,
    pub user_info: Option<UserInfoV>,
}

impl View for Annotation {
    type V = AnnotationV;

    open spec fn view(&self) -> AnnotationV {
        AnnotationV {
            id: self.id@,
            created: self.created@,
            updated: self.updated@,
            user: self.user.0@,
            uri: self.uri@,
            text: self.text@,
            tags: self.tags.deep_view(),
            group: self.group@,
            permissions: self.permissions@,
            target: self.target.deep_view(),
            links: self.links.deep_view(),
            hidden: self.hidden,
            flagged: self.flagged,
            references: self.references.deep_view(),
            user_info: self.user_info.deep_view(),
        }
    }
}

impl DeepView for Annotation {
    type V = AnnotationV;

    open spec fn deep_view(&self) -> AnnotationV {
        self.view()
    }
}

/// The field by which search results are sorted.
#[derive(Debug, Clone, Copy, PartialEq, Eq, Structural)]
pub enum Sort {
    Created,
    Updated,
    Id,
    Group,
    User,
}

impl View for Sort {
    type V = Sort;

    open spec fn view(&self) -> Sort {
        *self
    }
}

impl DeepView for Sort {
    type V = Sort;

    open spec fn deep_view(&self) -> Sort {
        *self
    }
}

impl Default for Sort {
    /// The documented default sort field.
    fn default() -> (r: Sort)
        ensures
            r == Sort::Updated,
    {
        Sort::Updated
    }
}

/// The direction in which search results are sorted.
#[derive(Debug, Clone, Copy, PartialEq, Eq, Structural)]
pub enum Order {
    Asc,
    Desc,
}

impl View for Order {
    type V = Order;

    open spec fn view(&self) -> Order {
        *self
    }
}

impl DeepView for Order {
    type V = Order;

    open spec fn deep_view(&self) -> Order {
        *self
    }
}

impl Default for Order {
    /// The documented default sort order.
    fn default() -> (r: Order)
        ensures
            r == Order::Desc,
    {
        Order::Desc
    }
}

/// A client-constructed, immutable search request. Every optional filter
/// left at its default is omitted from the encoded query, so the server
/// applies its own default rather than an explicit empty-match filter.
#[derive(Debug, Clone, PartialEq)]
pub struct SearchQuery {
    /// The maximum number of annotations to return.
    /// Default: 20. Range: 0 to 200.
    pub limit: u8,
    /// The field by which annotations should be sorted. Default: updated.
    pub sort: Sort,
    /// A start point for a subset (page) of annotation search results,
    /// e.g. "2019-01-03T19:46:09.334Z". More efficient than `offset` for
    /// deep pagination.
    pub search_after: String,
    /// The number of initial annotations to skip in the result set.
    /// Default: 0. Range: at most 9800 is recommended.
    pub offset: usize,
    /// The order in which the results should be sorted. Default: desc.
    pub order: Order,
    /// Limit the results to annotations matching the specific URI or
    /// equivalent URIs.
    pub uri: String,
    /// Limit the results to annotations containing the given keyword
    /// (tokenized chunk) in the URI.
    pub uri_parts: String,
    /// Limit the results to annotations whose URIs match the wildcard
    /// pattern.
    pub wildcard_uri: String,
    /// Limit the results to annotations made by the specified user, in the
    /// format `acct:<username>@<authority>`.
    pub user: UserAccountID,
    /// Limit the results to annotations made in the specified group.
    pub group: String,
    /// Limit the results to annotations tagged with the specified value.
    pub tag: String,
    /// Similar to `tag` but allows a list of multiple tags.
    pub tags: Vec<String>,
    /// Limit the results to annotations containing the indicated keyword
    /// in any of the fields quote, tags, text, or url.
    pub any: String,
    /// Limit the results to annotations that contain this text inside the
    /// text that was annotated.
    pub quote: String,
    /// Returns annotations that are replies to this parent annotation ID.
    pub references: String,
    /// Limit the results to annotations that contain this text in their
    /// textual body.
    pub text: String,
}

/// The model of a [`SearchQuery`].
#[verifier::ext_equal]
pub struct SearchQueryV {
    pub limit: u8,
    pub sort: Sort,
    pub search_after: Seq<char>,
    pub offset: usize,
    pub order: Order,
    pub uri: Seq<char>,
    pub uri_parts: Seq<char>,
    pub wildcard_uri: Seq<char>,
    pub user: Seq<char>,
    pub group: Seq<char>,
    pub tag: Seq<char>,
    pub tags: Seq<Seq<char>>,
    pub any: Seq<char>,
    pub quote: Seq<char>,
    pub references: Seq<char>,
    pub text: Seq<char>,
}

impl View for SearchQuery {
    type V = SearchQueryV;

    open spec fn view(&self) -> SearchQueryV {
        SearchQueryV {
            limit: self.limit,
            sort: self.sort,
            search_after: self.search_after@,
            offset: self.offset,
            order: self.order,
            uri: self.uri@,
            uri_parts: self.uri_parts@,
            wildcard_uri: self.wildcard_uri@,
            user: self.user.0@,
            group: self.group@,
            tag: self.tag@,
            tags: self.tags.deep_view(),
            any: self.any@,
            quote: self.quote@,
            references: self.references@,
            text: self.text@,
        }
    }
}

/// The model of a [`SearchQuery`] with every field at its documented
/// default.
pub open spec fn default_search_query() -> SearchQueryV {
    SearchQueryV {
        limit: 20,
        sort: Sort::Updated,
        search_after: Seq::empty(),
        offset: 0,
        order: Order::Desc,
        uri: Seq::empty(),
        uri_parts: Seq::empty(),
        wildcard_uri: Seq::empty(),
        user: Seq::empty(),
        group: Seq::empty(),
        tag: Seq::empty(),
        tags: Seq::empty(),
        any: Seq::empty(),
        quote: Seq::empty(),
        references: Seq::empty(),
        text: Seq::empty(),
    }
}

impl Default for SearchQuery {
    /// A query with every field at its documented default.
    fn default() -> (r: SearchQuery)
        ensures
            r@ == default_search_query(),
    {
        let r = SearchQuery {
            limit: 20,
            sort: Sort::Updated,
            search_after: String::new(),
            offset: 0,
            order: Order::Desc,
            uri: String::new(),
            uri_parts: String::new(),
            wildcard_uri: String::new(),
            user: UserAccountID(String::new()),
            group: String::new(),
            tag: String::new(),
            tags: Vec::new(),
            any: String::new(),
            quote: String::new(),
            references: String::new(),
            text: String::new(),
        };
        proof {
            assert(r@.tags =~= Seq::<Seq<char>>::empty());
        }
        r
    }
}

} // verus!
