//! What the views ask of the directory server: reads, writes, and the answers to them.
use crate::attribute::{AttrMap, Attribute, EntryClass};
use crate::entry::{Entry, EntryView};
use vstd::prelude::*;

verus! {

/// Which entry a request is about.
#[derive(Debug)]
pub enum EntryId {
    /// An entry by its name, security principal name or identifier.
    Named(String),
    /// The entry with the settings of the domain.
    DomainInfo,
    /// The entry with the configuration of the system.
    SystemConfig,
}

/// Which entry a request is about, as a mathematical value.
pub enum EntryIdView {
    Named(Seq<char>),
    DomainInfo,
    SystemConfig,
}

impl View for EntryId {
    type V = EntryIdView;

    open spec fn view(&self) -> EntryIdView {
        match self {
            EntryId::Named(s) => EntryIdView::Named(s@),
            EntryId::DomainInfo => EntryIdView::DomainInfo,
            EntryId::SystemConfig => EntryIdView::SystemConfig,
        }
    }
}

/// Which entries a write may touch.
#[derive(Debug)]
pub enum EntryFilter {
    /// The entries of a class.
    Class(EntryClass),
    /// The entries of a class that have an identifier.
    ClassAndId(EntryClass, String),
    /// The OAuth2 client with a name.
    Oauth2Client(String),
}

/// Which entries a write may touch, as a mathematical value.
pub enum EntryFilterView {
    Class(EntryClass),
    ClassAndId(EntryClass, Seq<char>),
    Oauth2Client(Seq<char>),
}

impl View for EntryFilter {
    type V = EntryFilterView;

    open spec fn view(&self) -> EntryFilterView {
        match self {
            EntryFilter::Class(c) => EntryFilterView::Class(*c),
            EntryFilter::ClassAndId(c, id) => EntryFilterView::ClassAndId(*c, id@),
            EntryFilter::Oauth2Client(name) => EntryFilterView::Oauth2Client(name@),
        }
    }
}

/// The values of an attribute of a new entry.
#[derive(Debug)]
pub enum NewValue {
    /// One text.
    Text(String),
    /// The classes of the entry.
    Classes(Vec<EntryClass>),
}

/// The values of an attribute of a new entry, as a mathematical value.
pub enum NewValueView {
    Text(Seq<char>),
    Classes(Seq<EntryClass>),
}

impl DeepView for NewValue {
    type V = NewValueView;

    open spec fn deep_view(&self) -> NewValueView {
        match self {
            NewValue::Text(s) => NewValueView::Text(s@),
            NewValue::Classes(v) => NewValueView::Classes(v@),
        }
    }
}

/// A write that succeeds or fails as a whole.
#[derive(Debug)]
pub enum WriteRequest {
    /// Create an entry.
    Create(AttrMap<NewValue>),
    /// Delete the entries that match.
    Delete(EntryFilter),
    /// Replace the values of an attribute.
    SetAttribute { id: EntryId, attribute: Attribute, values: Vec<String>, filter: EntryFilter },
    /// Add values to an attribute.
    AppendAttribute {
        id: EntryId,
        attribute: Attribute,
        values: Vec<String>,
        filter: EntryFilter,
    },
    /// Remove values from an attribute.
    RemoveValues { id: EntryId, attribute: Attribute, values: Vec<String>, filter: EntryFilter },
    /// Remove all values of an attribute.
    PurgeAttribute { id: EntryId, attribute: Attribute, filter: EntryFilter },
    /// Add an SSH public key under a tag.
    CreateSshKey { id: EntryId, tag: String, key: String, filter: EntryFilter },
    /// Give a group POSIX attributes, with a chosen number or one that the server allocates.
    ExtendUnixGroup { id: EntryId, gidnumber: Option<u32> },
    /// Give the members of a group scopes of an OAuth2 client.
    UpdateScopeMap { group: String, scopes: Vec<String>, filter: EntryFilter },
    /// Take the scopes of an OAuth2 client from the members of a group.
    DeleteScopeMap { group: String, filter: EntryFilter },
}

/// A write, as a mathematical value.
pub enum WriteRequestView {
    Create(Map<Attribute, NewValueView>),
    Delete(EntryFilterView),
    SetAttribute {
        id: EntryIdView,
        attribute: Attribute,
        values: Seq<Seq<char>>,
        filter: EntryFilterView,
    },
    AppendAttribute {
        id: EntryIdView,
        attribute: Attribute,
        values: Seq<Seq<char>>,
        filter: EntryFilterView,
    },
    RemoveValues {
        id: EntryIdView,
        attribute: Attribute,
        values: Seq<Seq<char>>,
        filter: EntryFilterView,
    },
    PurgeAttribute { id: EntryIdView, attribute: Attribute, filter: EntryFilterView },
    CreateSshKey { id: EntryIdView, tag: Seq<char>, key: Seq<char>, filter: EntryFilterView },
    ExtendUnixGroup { id: EntryIdView, gidnumber: Option<u32> },
    UpdateScopeMap { group: Seq<char>, scopes: Seq<Seq<char>>, filter: EntryFilterView },
    DeleteScopeMap { group: Seq<char>, filter: EntryFilterView },
}

impl View for WriteRequest {
    type V = WriteRequestView;

    open spec fn view(&self) -> WriteRequestView {
        match self {
            WriteRequest::Create(attrs) => WriteRequestView::Create(attrs@),
            WriteRequest::Delete(filter) => WriteRequestView::Delete(filter@),
            WriteRequest::SetAttribute { id, attribute, values, filter } => {
                WriteRequestView::SetAttribute {
                    id: id@,
                    attribute: *attribute,
                    values: values.deep_view(),
                    filter: filter@,
                }
            },
            WriteRequest::AppendAttribute { id, attribute, values, filter } => {
                WriteRequestView::AppendAttribute {
                    id: id@,
                    attribute: *attribute,
                    values: values.deep_view(),
                    filter: filter@,
                }
            },
            WriteRequest::RemoveValues { id, attribute, values, filter } => {
                WriteRequestView::RemoveValues {
                    id: id@,
                    attribute: *attribute,
                    values: values.deep_view(),
                    filter: filter@,
                }
            },
            WriteRequest::PurgeAttribute { id, attribute, filter } => {
                WriteRequestView::PurgeAttribute {
                    id: id@,
                    attribute: *attribute,
                    filter: filter@,
                }
            },
            WriteRequest::CreateSshKey { id, tag, key, filter } => {
                WriteRequestView::CreateSshKey { id: id@, tag: tag@, key: key@, filter: filter@ }
            },
            WriteRequest::ExtendUnixGroup { id, gidnumber } => {
                WriteRequestView::ExtendUnixGroup { id: id@, gidnumber: *gidnumber }
            },
            WriteRequest::UpdateScopeMap { group, scopes, filter } => {
                WriteRequestView::UpdateScopeMap {
                    group: group@,
                    scopes: scopes.deep_view(),
                    filter: filter@,
                }
            },
            WriteRequest::DeleteScopeMap { group, filter } => {
                WriteRequestView::DeleteScopeMap { group: group@, filter: filter@ }
            },
        }
    }
}

/// New values for attributes of an entry: a text, or nothing to unset the attribute.
#[derive(Debug)]
pub struct EntryPut {
    pub id: u128,
    pub attrs: AttrMap<Option<String>>,
}

/// New values for attributes of an entry, as a mathematical value.
pub struct EntryPutView {
    pub id: u128,
    pub attrs: Map<Attribute, Option<Seq<char>>>,
}

impl View for EntryPut {
    type V = EntryPutView;

    open spec fn view(&self) -> EntryPutView {
        EntryPutView { id: self.id, attrs: self.attrs@ }
    }
}

/// What became of new values for the attributes of an entry.
#[derive(Debug)]
pub enum PutOutcome<E> {
    /// The values could not be put into a request.
    Unencodable,
    /// The server refused them.
    Refused(E),
    /// They were written.
    Written,
}

/// The order of search results.
#[derive(Clone, Copy, Debug, PartialEq, Eq, Structural)]
pub enum SortOrder {
    Ascending,
    Descending,
}

/// Which entries a search is for.
#[derive(Debug)]
pub enum SearchFilter {
    /// The entries of a class.
    ClassIs(EntryClass),
    /// The entries with an attribute that contains a text.
    Contains(Attribute, String),
    /// The entries that match both.
    And(Box<SearchFilter>, Box<SearchFilter>),
    /// The entries that match one of the two or both.
    Or(Box<SearchFilter>, Box<SearchFilter>),
}

/// Which entries a search is for, as a mathematical value.
pub enum SearchFilterView {
    ClassIs(EntryClass),
    Contains(Attribute, Seq<char>),
    And(Box<SearchFilterView>, Box<SearchFilterView>),
    Or(Box<SearchFilterView>, Box<SearchFilterView>),
}

impl SearchFilter {
    /// The filter as a mathematical value.
    pub open spec fn model(self) -> SearchFilterView
        decreases self,
    {
        match self {
            SearchFilter::ClassIs(c) => SearchFilterView::ClassIs(c),
            SearchFilter::Contains(a, s) => SearchFilterView::Contains(a, s@),
            SearchFilter::And(x, y) => {
                SearchFilterView::And(Box::new((*x).model()), Box::new((*y).model()))
            },
            SearchFilter::Or(x, y) => {
                SearchFilterView::Or(Box::new((*x).model()), Box::new((*y).model()))
            },
        }
    }
}

impl View for SearchFilter {
    type V = SearchFilterView;

    open spec fn view(&self) -> SearchFilterView {
        self.model()
    }
}

/// What a read returns of the entries that it finds.
#[derive(Debug)]
pub struct GetQuery {
    /// The attributes to return.
    pub attributes: Vec<Attribute>,
    /// Whether to say what the viewer may do with each entry.
    pub ext_access_check: bool,
    pub sort_by: Option<Attribute>,
    pub sort_order: Option<SortOrder>,
    /// The 1-based index of the first entry.
    pub start_index: Option<u64>,
    /// The largest number of entries.
    pub count: Option<u64>,
}

/// What a read returns, as a mathematical value.
#[verifier::ext_equal]
pub struct GetQueryView {
    pub attributes: Seq<Attribute>,
    pub ext_access_check: bool,
    pub sort_by: Option<Attribute>,
    pub sort_order: Option<SortOrder>,
    pub start_index: Option<u64>,
    pub count: Option<u64>,
}

impl View for GetQuery {
    type V = GetQueryView;

    open spec fn view(&self) -> GetQueryView {
        GetQueryView {
            attributes: self.attributes@,
            ext_access_check: self.ext_access_check,
            sort_by: self.sort_by,
            sort_order: self.sort_order,
            start_index: self.start_index,
            count: self.count,
        }
    }
}

/// A query for some attributes that neither sorts nor limits nor asks for access rights.
pub open spec fn plain_query(attributes: Seq<Attribute>) -> GetQueryView {
    GetQueryView {
        attributes,
        ext_access_check: false,
        sort_by: None,
        sort_order: None,
        start_index: None,
        count: None,
    }
}

/// A query for some attributes that neither sorts nor limits nor asks for access rights.
pub fn query_for(attributes: Vec<Attribute>) -> (r: GetQuery)
    ensures
        r@ == plain_query(attributes@),
{
    GetQuery {
        attributes,
        ext_access_check: false,
        sort_by: None,
        sort_order: None,
        start_index: None,
        count: None,
    }
}

/// A limit of a query, where zero is no limit.
pub open spec fn non_zero(n: u64) -> Option<u64> {
    if n == 0 {
        None
    } else {
        Some(n)
    }
}

/// A limit of a query, where zero is no limit.
pub fn limit(n: u64) -> (r: Option<u64>)
    ensures
        r == non_zero(n),
{
    if n == 0 {
        None
    } else {
        Some(n)
    }
}

/// A read of one entry of a class.
#[derive(Debug)]
pub struct EntryRead {
    pub id: EntryId,
    pub class: EntryClass,
    pub query: GetQuery,
}

/// A read of one entry, as a mathematical value.
pub struct EntryReadView {
    pub id: EntryIdView,
    pub class: EntryClass,
    pub query: GetQueryView,
}

impl View for EntryRead {
    type V = EntryReadView;

    open spec fn view(&self) -> EntryReadView {
        EntryReadView { id: self.id@, class: self.class, query: self.query@ }
    }
}

/// A search for entries.
#[derive(Debug)]
pub struct Search {
    pub filter: SearchFilter,
    pub query: GetQuery,
}

/// A search for entries, as a mathematical value.
pub struct SearchView {
    pub filter: SearchFilterView,
    pub query: GetQueryView,
}

impl View for Search {
    type V = SearchView;

    open spec fn view(&self) -> SearchView {
        SearchView { filter: self.filter@, query: self.query@ }
    }
}

/// The entries of a class, among them only those where one of two attributes contains the search
/// term if there is one.
pub open spec fn listing_filter(
    class: EntryClass,
    q: Seq<char>,
    first: Attribute,
    second: Attribute,
) -> SearchFilterView {
    if q.len() == 0 {
        SearchFilterView::ClassIs(class)
    } else {
        SearchFilterView::And(
            Box::new(SearchFilterView::ClassIs(class)),
            Box::new(
                SearchFilterView::Or(
                    Box::new(SearchFilterView::Contains(first, q)),
                    Box::new(SearchFilterView::Contains(second, q)),
                ),
            ),
        )
    }
}

/// The filter of a list of entries of a class: a substring search across two attributes when a
/// search term is present.
pub fn list_filter(class: EntryClass, q: &String, first: Attribute, second: Attribute) -> (r:
    SearchFilter)
    ensures
        r@ == listing_filter(class, q@, first, second),
{
    proof {
        reveal_with_fuel(SearchFilter::model, 4);
    }
    if q.as_str().is_empty() {
        SearchFilter::ClassIs(class)
    } else {
        let search = SearchFilter::Or(
            Box::new(SearchFilter::Contains(first, q.clone())),
            Box::new(SearchFilter::Contains(second, q.clone())),
        );
        SearchFilter::And(Box::new(SearchFilter::ClassIs(class)), Box::new(search))
    }
}

/// A list with one text.
pub fn one_text(s: String) -> (r: Vec<String>)
    ensures
        r.deep_view() == seq![s@],
{
    let mut v: Vec<String> = Vec::new();
    v.push(s);
    assert(v.deep_view() =~= seq![s@]);
    v
}

/// Replacing the values of an attribute of an entry of a class by one text.
pub open spec fn setting(
    id: EntryIdView,
    attribute: Attribute,
    value: Seq<char>,
    class: EntryClass,
) -> WriteRequestView {
    WriteRequestView::SetAttribute {
        id,
        attribute,
        values: seq![value],
        filter: EntryFilterView::Class(class),
    }
}

/// Adding one text to an attribute of an entry of a class.
pub open spec fn appending(
    id: EntryIdView,
    attribute: Attribute,
    value: Seq<char>,
    class: EntryClass,
) -> WriteRequestView {
    WriteRequestView::AppendAttribute {
        id,
        attribute,
        values: seq![value],
        filter: EntryFilterView::Class(class),
    }
}

/// Removing one text from an attribute of an entry of a class.
pub open spec fn removing(
    id: EntryIdView,
    attribute: Attribute,
    value: Seq<char>,
    class: EntryClass,
) -> WriteRequestView {
    WriteRequestView::RemoveValues {
        id,
        attribute,
        values: seq![value],
        filter: EntryFilterView::Class(class),
    }
}

/// Removing all values of an attribute of an entry of a class.
pub open spec fn purging(
    id: EntryIdView,
    attribute: Attribute,
    class: EntryClass,
) -> WriteRequestView {
    WriteRequestView::PurgeAttribute { id, attribute, filter: EntryFilterView::Class(class) }
}

/// Whether one write removes exactly the values that another one adds, from the same attribute of
/// the same entry.
pub open spec fn reverses(removal: WriteRequestView, addition: WriteRequestView) -> bool {
    match (removal, addition) {
        (
            WriteRequestView::RemoveValues { id: i, attribute: a, values: v, filter: f },
            WriteRequestView::AppendAttribute { id, attribute, values, filter },
        ) => i == id && a == attribute && v == values && f == filter,
        _ => false,
    }
}

/// Replaces the values of an attribute of an entry of a class by one text.
pub fn set_value(id: EntryId, attribute: Attribute, value: String, class: EntryClass) -> (r:
    WriteRequest)
    ensures
        r@ == setting(id@, attribute, value@, class),
{
    WriteRequest::SetAttribute {
        id,
        attribute,
        values: one_text(value),
        filter: EntryFilter::Class(class),
    }
}

/// Adds one text to an attribute of an entry of a class.
pub fn append_value(id: EntryId, attribute: Attribute, value: String, class: EntryClass) -> (r:
    WriteRequest)
    ensures
        r@ == appending(id@, attribute, value@, class),
{
    WriteRequest::AppendAttribute {
        id,
        attribute,
        values: one_text(value),
        filter: EntryFilter::Class(class),
    }
}

/// Removes one text from an attribute of an entry of a class.
pub fn remove_value(id: EntryId, attribute: Attribute, value: String, class: EntryClass) -> (r:
    WriteRequest)
    ensures
        r@ == removing(id@, attribute, value@, class),
{
    WriteRequest::RemoveValues {
        id,
        attribute,
        values: one_text(value),
        filter: EntryFilter::Class(class),
    }
}

/// Removes all values of an attribute of an entry of a class.
pub fn purge_values(id: EntryId, attribute: Attribute, class: EntryClass) -> (r: WriteRequest)
    ensures
        r@ == purging(id@, attribute, class),
{
    WriteRequest::PurgeAttribute { id, attribute, filter: EntryFilter::Class(class) }
}

/// A call to the server within a sequence of calls.
#[derive(Debug)]
pub enum ServerCall {
    Read(EntryRead),
    Write(WriteRequest),
}

/// A call to the server, as a mathematical value.
pub enum ServerCallView {
    Read(EntryReadView),
    Write(WriteRequestView),
}

impl View for ServerCall {
    type V = ServerCallView;

    open spec fn view(&self) -> ServerCallView {
        match self {
            ServerCall::Read(r) => ServerCallView::Read(r@),
            ServerCall::Write(w) => ServerCallView::Write(w@),
        }
    }
}

/// The answer of the server to a call.
#[derive(Debug)]
pub enum ServerAnswer<E> {
    Read(Result<Entry, E>),
    Written(Result<(), E>),
}

/// The answer of the server to a call, as a mathematical value.
pub enum ServerAnswerView<E> {
    Read(Result<EntryView, E>),
    Written(Result<(), E>),
}

impl<E> View for ServerAnswer<E> {
    type V = ServerAnswerView<E>;

    open spec fn view(&self) -> ServerAnswerView<E> {
        match self {
            ServerAnswer::Read(Ok(entry)) => ServerAnswerView::Read(Ok(entry@)),
            ServerAnswer::Read(Err(e)) => ServerAnswerView::Read(Err(*e)),
            ServerAnswer::Written(result) => ServerAnswerView::Written(*result),
        }
    }
}

/// The values of an attribute of an entry after a write, if it had given ones before.
pub open spec fn values_after(
    write: WriteRequestView,
    id: EntryIdView,
    attribute: Attribute,
    before: Set<Seq<char>>,
) -> Set<Seq<char>> {
    match write {
        WriteRequestView::SetAttribute { id: i, attribute: a, values, .. } => {
            if i == id && a == attribute {
                values.to_set()
            } else {
                before
            }
        },
        WriteRequestView::AppendAttribute { id: i, attribute: a, values, .. } => {
            if i == id && a == attribute {
                before.union(values.to_set())
            } else {
                before
            }
        },
        WriteRequestView::RemoveValues { id: i, attribute: a, values, .. } => {
            if i == id && a == attribute {
                before.difference(values.to_set())
            } else {
                before
            }
        },
        WriteRequestView::PurgeAttribute { id: i, attribute: a, .. } => {
            if i == id && a == attribute {
                Set::empty()
            } else {
                before
            }
        },
        _ => before,
    }
}

/// The values of an attribute of an entry after writes that are made one after the other.
pub open spec fn values_after_all(
    writes: Seq<WriteRequestView>,
    id: EntryIdView,
    attribute: Attribute,
    before: Set<Seq<char>>,
) -> Set<Seq<char>>
    decreases writes.len(),
{
    if writes.len() == 0 {
        before
    } else {
        values_after(
            writes.last(),
            id,
            attribute,
            values_after_all(writes.drop_last(), id, attribute, before),
        )
    }
}

/// The class that a write to an attribute is restricted to.
pub open spec fn restricted_to(write: WriteRequestView) -> Option<EntryClass> {
    let filter = match write {
        WriteRequestView::SetAttribute { filter, .. } => Some(filter),
        WriteRequestView::AppendAttribute { filter, .. } => Some(filter),
        WriteRequestView::RemoveValues { filter, .. } => Some(filter),
        WriteRequestView::PurgeAttribute { filter, .. } => Some(filter),
        _ => None,
    };
    match filter {
        Some(EntryFilterView::Class(class)) => Some(class),
        _ => None,
    }
}

proof fn lemma_set_of_one(value: Seq<char>)
    ensures
        seq![value].to_set() == set![value],
{
    let s = seq![value];
    assert forall|x: Seq<char>| s.to_set().contains(x) <==> set![value].contains(x) by {
        if x == value {
            assert(s[0] == x);
        }
    }
    assert(s.to_set() =~= set![value]);
}

/// Setting, adding, removing and clearing do so to the attribute of the entry, within the class,
/// and leave every other attribute and every other entry alone.
pub proof fn law_writes_change_one_attribute(
    id: EntryIdView,
    attribute: Attribute,
    value: Seq<char>,
    class: EntryClass,
    other: EntryIdView,
    another: Attribute,
    before: Set<Seq<char>>,
)
    ensures
        values_after(setting(id, attribute, value, class), id, attribute, before) == set![value],
        values_after(appending(id, attribute, value, class), id, attribute, before)
            == before.insert(value),
        values_after(removing(id, attribute, value, class), id, attribute, before)
            == before.remove(value),
        values_after(purging(id, attribute, class), id, attribute, before) == Set::<
            Seq<char>,
        >::empty(),
        other != id || another != attribute ==> values_after(
            setting(id, attribute, value, class),
            other,
            another,
            before,
        ) == before && values_after(
            appending(id, attribute, value, class),
            other,
            another,
            before,
        ) == before && values_after(
            removing(id, attribute, value, class),
            other,
            another,
            before,
        ) == before && values_after(purging(id, attribute, class), other, another, before)
            == before,
        restricted_to(setting(id, attribute, value, class)) == Some(class),
        restricted_to(appending(id, attribute, value, class)) == Some(class),
        restricted_to(removing(id, attribute, value, class)) == Some(class),
        restricted_to(purging(id, attribute, class)) == Some(class),
{
    lemma_set_of_one(value);
    assert(before.union(set![value]) =~= before.insert(value));
    assert(before.difference(set![value]) =~= before.remove(value));
}

/// A removal that reverses an addition brings the values back to what they were, if the added ones
/// were not among them.
pub proof fn law_reversing_restores_values(
    removal: WriteRequestView,
    addition: WriteRequestView,
    id: EntryIdView,
    attribute: Attribute,
    before: Set<Seq<char>>,
)
    requires
        reverses(removal, addition),
        addition->AppendAttribute_values.to_set().disjoint(before),
    ensures
        values_after(removal, id, attribute, values_after(addition, id, attribute, before))
            == before,
        restricted_to(removal) == restricted_to(addition),
{
    let added = addition->AppendAttribute_values.to_set();
    assert(before.union(added).difference(added) =~= before);
}

/// Whether a text contains another one.
pub open spec fn contains_text(text: Seq<char>, part: Seq<char>) -> bool {
    exists|i: int|
        0 <= i <= text.len() - part.len() && #[trigger] text.subrange(i, i + part.len()) == part
}

/// Whether a search finds an entry with these classes and texts.
pub open spec fn finds(
    filter: SearchFilterView,
    classes: Set<EntryClass>,
    texts: Map<Attribute, Seq<char>>,
) -> bool
    decreases filter,
{
    match filter {
        SearchFilterView::ClassIs(class) => classes.contains(class),
        SearchFilterView::Contains(attribute, part) => texts.dom().contains(attribute)
            && contains_text(texts[attribute], part),
        SearchFilterView::And(x, y) => finds(*x, classes, texts) && finds(*y, classes, texts),
        SearchFilterView::Or(x, y) => finds(*x, classes, texts) || finds(*y, classes, texts),
    }
}

/// A list without a search term finds every entry of its class, and one with a search term finds
/// those where the first or the second attribute contains it.
pub proof fn law_lists_find_what_contains_the_term(
    class: EntryClass,
    q: Seq<char>,
    first: Attribute,
    second: Attribute,
    classes: Set<EntryClass>,
    texts: Map<Attribute, Seq<char>>,
)
    ensures
        finds(listing_filter(class, q, first, second), classes, texts) <==> classes.contains(class)
            && (q.len() == 0 || texts.dom().contains(first) && contains_text(texts[first], q)
            || texts.dom().contains(second) && contains_text(texts[second], q)),
{
    reveal_with_fuel(finds, 4);
}

/// A plain query asks for the attributes and for nothing else; a limit is a number other than zero.
pub proof fn law_plain_queries(attributes: Seq<Attribute>, n: u64)
    ensures
        plain_query(attributes).attributes == attributes,
        !plain_query(attributes).ext_access_check,
        plain_query(attributes).sort_by is None,
        plain_query(attributes).sort_order is None,
        plain_query(attributes).start_index is None,
        plain_query(attributes).count is None,
        non_zero(n) is None <==> n == 0,
        non_zero(n) is Some ==> non_zero(n)->0 == n,
{
}

} // verus!
