//! The views of OAuth2 clients: the list, the page of a client, and the changes to it.
use crate::attribute::{AttrMap, Attribute, EntryClass};
use crate::entry::{
    attr_scope_maps, attr_string, attr_strings, Entry, EntryView, ScopeMap, ValueView,
};
use crate::ident::{oauth2_list_reload, oauth2_path, oauth2_view_reload};
use crate::reply::{
    form_page, form_shown, refusal, reload_after, reloading, require_token, FailureStyle, Location,
    LocationView, Mutation, MutationView, OperationError, Page, Reply, SuccessView,
};
use crate::request::{
    append_value, appending, finds, law_writes_change_one_attribute, plain_query, query_for,
    remove_value, removing, restricted_to, reverses, set_value, values_after, setting, EntryFilter,
    EntryFilterView, EntryId, EntryIdView, EntryRead, EntryReadView, GetQuery, GetQueryView,
    NewValue, NewValueView, Search, SearchFilter, SearchFilterView, SearchView, WriteRequest,
    WriteRequestView,
};
use crate::text::{
    law_scope_lists_are_joined, law_single_scope_name, same_text, scope_names, split_scopes, trim,
    trimmed,
};
use vstd::prelude::*;
use vstd::string::*;

verus! {

/// The attributes of an OAuth2 client that its page shows.
pub open spec fn oauth2_attribute_list() -> Seq<Attribute> {
    seq![
        Attribute::Class,
        Attribute::Name,
        Attribute::DisplayName,
        Attribute::Spn,
        Attribute::OAuth2RsOriginLanding,
        Attribute::OAuth2RsOrigin,
        Attribute::OAuth2RsScopeMap,
    ]
}

/// The search for the OAuth2 clients of the list.
pub open spec fn clients_search() -> SearchView {
    SearchView {
        filter: SearchFilterView::ClassIs(EntryClass::OAuth2ResourceServer),
        query: GetQueryView {
            sort_by: Some(Attribute::Name),
            ..plain_query(seq![Attribute::Name, Attribute::DisplayName])
        },
    }
}

/// What the list of OAuth2 clients searches for: the clients for a viewer with a token, whose
/// privileges are handed on, and nothing for a viewer without one, who gets an error page.
pub fn oauth2_list_reads<E>(token: Result<bool, E>) -> (r: Result<(bool, Search), Reply<E>>)
    ensures
        match token {
            Err(e) => r is Err && r->Err_0@ == refusal(FailureStyle::Page, e),
            Ok(can_rw) => r is Ok && r->Ok_0.0 == can_rw && r->Ok_0.1@ == clients_search(),
        },
{
    match require_token(token) {
        Ok(can_rw) => Ok((can_rw, oauth2_search())),
        Err(reply) => Err(reply),
    }
}

/// The search for the OAuth2 clients of the list.
pub fn oauth2_search() -> (r: Search)
    ensures
        r@ == clients_search(),
{
    let attributes: Vec<Attribute> = vec![Attribute::Name, Attribute::DisplayName];
    assert(attributes@ =~= seq![Attribute::Name, Attribute::DisplayName]);
    let query: GetQuery = query_for(attributes);
    Search {
        filter: SearchFilter::ClassIs(EntryClass::OAuth2ResourceServer),
        query: GetQuery { sort_by: Some(Attribute::Name), ..query },
    }
}

/// A row of the list of OAuth2 clients.
#[derive(Debug)]
pub struct Oauth2Row {
    pub name: String,
    pub displayname: String,
}

/// A row of the list of OAuth2 clients, as a mathematical value.
pub struct Oauth2RowView {
    pub name: Seq<char>,
    pub displayname: Seq<char>,
}

impl DeepView for Oauth2Row {
    type V = Oauth2RowView;

    open spec fn deep_view(&self) -> Oauth2RowView {
        Oauth2RowView { name: self.name@, displayname: self.displayname@ }
    }
}

/// The row of an entry.
pub open spec fn client_row(entry: EntryView) -> Oauth2RowView {
    Oauth2RowView {
        name: entry.text_or_empty(Attribute::Name),
        displayname: entry.text_or_empty(Attribute::DisplayName),
    }
}

/// The rows of entries, one for each.
pub open spec fn client_rows(entries: Seq<Entry>) -> Seq<Oauth2RowView> {
    entries.map_values(|e: Entry| client_row(e@))
}

fn rows_of(entries: &Vec<Entry>) -> (r: Vec<Oauth2Row>)
    ensures
        r.deep_view() == client_rows(entries@),
{
    let mut out: Vec<Oauth2Row> = Vec::new();
    let mut i: usize = 0;
    while i < entries.len()
        invariant
            i <= entries@.len(),
            out.deep_view() == client_rows(entries@).take(i as int),
        decreases entries@.len() - i,
    {
        let ghost before = out.deep_view();
        let row = Oauth2Row {
            name: attr_string(&entries[i], Attribute::Name),
            displayname: attr_string(&entries[i], Attribute::DisplayName),
        };
        assert(row.deep_view() == client_rows(entries@)[i as int]);
        out.push(row);
        i += 1;
        assert(out.deep_view() =~= before.push(row.deep_view()));
        assert(out.deep_view() =~= client_rows(entries@).take(i as int));
    }
    assert(client_rows(entries@).take(entries@.len() as int) =~= client_rows(entries@));
    out
}

/// The content of the list of OAuth2 clients.
#[derive(Debug)]
pub struct Oauth2ListPartial {
    pub clients: Vec<Oauth2Row>,
    /// Whether the viewer has unlocked their privileges.
    pub can_rw: bool,
}

/// The page of the list of OAuth2 clients. A missing token comes before an error of the search,
/// and both are answered with an error page.
pub fn view_oauth2_get<E>(
    is_htmx: bool,
    token: Result<bool, E>,
    found: Result<Vec<Entry>, E>,
) -> (r: Result<Page<Oauth2ListPartial>, Reply<E>>)
    ensures
        match (token, found) {
            (Err(e), _) => r is Err && r->Err_0@ == refusal(FailureStyle::Page, e),
            (Ok(_), Err(e)) => r is Err && r->Err_0@ == refusal(FailureStyle::Page, e),
            (Ok(can_rw), Ok(entries)) => {
                &&& r is Ok
                &&& r->Ok_0.push_url@ == LocationView::Path("/ui/admin/oauth2"@)
                &&& r->Ok_0.whole == !is_htmx
                &&& r->Ok_0.partial.clients.deep_view() == client_rows(entries@)
                &&& r->Ok_0.partial.can_rw == can_rw
            },
        },
{
    let can_rw: bool = match require_token(token) {
        Ok(can_rw) => can_rw,
        Err(reply) => {
            return Err(reply);
        },
    };
    match found {
        Ok(entries) => Ok(
            Page {
                push_url: Location::Path(oauth2_list_reload()),
                whole: !is_htmx,
                partial: Oauth2ListPartial { clients: rows_of(&entries), can_rw },
            },
        ),
        Err(e) => Err(Reply::ErrorPage(OperationError::Server(e))),
    }
}

/// The read of an OAuth2 client with all that its page shows.
pub open spec fn client_read(rs_name: Seq<char>) -> EntryReadView {
    EntryReadView {
        id: EntryIdView::Named(rs_name),
        class: EntryClass::OAuth2ResourceServer,
        query: plain_query(oauth2_attribute_list()),
    }
}

/// What the page of an OAuth2 client reads first: the client for a viewer with a token, whose
/// privileges are handed on, and nothing for a viewer without one, who gets an error page.
pub fn oauth2_detail_reads<E>(token: Result<bool, E>, rs_name: &str) -> (r: Result<
    (bool, EntryRead),
    Reply<E>,
>)
    ensures
        match token {
            Err(e) => r is Err && r->Err_0@ == refusal(FailureStyle::Page, e),
            Ok(can_rw) => r is Ok && r->Ok_0.0 == can_rw && r->Ok_0.1@ == client_read(rs_name@),
        },
{
    match require_token(token) {
        Ok(can_rw) => Ok((can_rw, oauth2_read(rs_name))),
        Err(reply) => Err(reply),
    }
}

/// The read of an OAuth2 client with all that its page shows.
pub fn oauth2_read(rs_name: &str) -> (r: EntryRead)
    ensures
        r@ == client_read(rs_name@),
{
    let attributes: Vec<Attribute> = vec![
        Attribute::Class,
        Attribute::Name,
        Attribute::DisplayName,
        Attribute::Spn,
        Attribute::OAuth2RsOriginLanding,
        Attribute::OAuth2RsOrigin,
        Attribute::OAuth2RsScopeMap,
    ];
    assert(attributes@ =~= oauth2_attribute_list());
    EntryRead {
        id: EntryId::Named(rs_name.to_string()),
        class: EntryClass::OAuth2ResourceServer,
        query: query_for(attributes),
    }
}

/// Whether an OAuth2 client is a public one, which has no secret: the name of the class of public
/// clients is among its classes.
pub open spec fn public_client(entry: EntryView, public_class: Seq<char>) -> bool {
    entry.texts(Attribute::Class).contains(public_class)
}

/// Whether an OAuth2 client is a public one, given the name of the class of public clients.
pub fn is_public(entry: &Entry, public_class: &str) -> (r: bool)
    ensures
        r == public_client(entry@, public_class@),
{
    let classes: Vec<String> = attr_strings(entry, Attribute::Class);
    let ghost texts = entry@.texts(Attribute::Class);
    let mut i: usize = 0;
    while i < classes.len()
        invariant
            i <= classes@.len(),
            texts == entry@.texts(Attribute::Class),
            classes.deep_view() == texts,
            forall|k: int| 0 <= k < i ==> #[trigger] texts[k] != public_class@,
        decreases classes@.len() - i,
    {
        assert(texts[i as int] == classes@[i as int]@);
        if same_text(classes[i].as_str(), public_class) {
            assert(texts.contains(public_class@));
            return true;
        }
        i += 1;
    }
    assert(texts.len() == classes@.len());
    false
}

/// Which secret to read for the page of an OAuth2 client: that of the client, unless the viewer has
/// no token, the client could not be read, or it is public.
pub fn secret_to_read<E>(
    token: &Result<bool, E>,
    read: &Result<Entry, E>,
    rs_name: &str,
    public_class: &str,
) -> (r: Option<EntryFilter>)
    ensures
        r is Some <==> *token is Ok && *read is Ok && !public_client(
            read->Ok_0@,
            public_class@,
        ),
        r is Some ==> r->0@ == EntryFilterView::Oauth2Client(rs_name@),
{
    match (token, read) {
        (Ok(_), Ok(entry)) => if is_public(entry, public_class) {
            None
        } else {
            Some(EntryFilter::Oauth2Client(rs_name.to_string()))
        },
        _ => None,
    }
}

/// The content of the page of an OAuth2 client.
#[derive(Debug)]
pub struct Oauth2DetailPartial {
    pub name: String,
    pub displayname: String,
    pub spn: String,
    pub landing: String,
    pub origins: Vec<String>,
    pub scope_maps: Vec<ScopeMap>,
    /// The secret that a confidential client shares with the server, if the viewer may read it.
    pub basic_secret: Option<String>,
    pub is_public: bool,
    /// Whether the viewer has unlocked their privileges.
    pub can_rw: bool,
}

/// Whether a page shows an OAuth2 client, with its secret unless the client is public or the secret
/// could not be read.
pub open spec fn client_shown<E>(
    partial: Oauth2DetailPartial,
    entry: EntryView,
    public_class: Seq<char>,
    secret: Result<Option<String>, E>,
    can_rw: bool,
) -> bool {
    &&& partial.name@ == entry.text_or_empty(Attribute::Name)
    &&& partial.displayname@ == entry.text_or_empty(Attribute::DisplayName)
    &&& partial.spn@ == entry.text_or_empty(Attribute::Spn)
    &&& partial.landing@ == entry.text_or_empty(Attribute::OAuth2RsOriginLanding)
    &&& partial.origins.deep_view() == entry.texts(Attribute::OAuth2RsOrigin)
    &&& partial.scope_maps.deep_view() == entry.scope_maps(Attribute::OAuth2RsScopeMap)
    &&& partial.basic_secret == (if public_client(entry, public_class) || secret is Err {
        None
    } else {
        secret->Ok_0
    })
    &&& partial.is_public == public_client(entry, public_class)
    &&& partial.can_rw == can_rw
}

/// The page of an OAuth2 client. A missing token comes before an error of the read, and both are
/// answered with an error page.
pub fn view_oauth2_detail_get<E>(
    rs_name: &str,
    is_htmx: bool,
    token: Result<bool, E>,
    read: Result<Entry, E>,
    public_class: &str,
    secret: Result<Option<String>, E>,
) -> (r: Result<Page<Oauth2DetailPartial>, Reply<E>>)
    ensures
        match (token, read) {
            (Err(e), _) => r is Err && r->Err_0@ == refusal(FailureStyle::Page, e),
            (Ok(_), Err(e)) => r is Err && r->Err_0@ == refusal(FailureStyle::Page, e),
            (Ok(can_rw), Ok(entry)) => {
                &&& r is Ok
                &&& r->Ok_0.push_url@ == LocationView::Path(oauth2_path(rs_name@))
                &&& r->Ok_0.whole == !is_htmx
                &&& client_shown(r->Ok_0.partial, entry@, public_class@, secret, can_rw)
            },
        },
{
    let can_rw: bool = match require_token(token) {
        Ok(can_rw) => can_rw,
        Err(reply) => {
            return Err(reply);
        },
    };
    let entry: Entry = match read {
        Ok(entry) => entry,
        Err(e) => {
            return Err(Reply::ErrorPage(OperationError::Server(e)));
        },
    };
    let is_public: bool = is_public(&entry, public_class);
    let basic_secret: Option<String> = if is_public {
        None
    } else {
        match secret {
            Ok(secret) => secret,
            Err(_) => None,
        }
    };
    let partial = Oauth2DetailPartial {
        name: attr_string(&entry, Attribute::Name),
        displayname: attr_string(&entry, Attribute::DisplayName),
        spn: attr_string(&entry, Attribute::Spn),
        landing: attr_string(&entry, Attribute::OAuth2RsOriginLanding),
        origins: attr_strings(&entry, Attribute::OAuth2RsOrigin),
        scope_maps: attr_scope_maps(&entry, Attribute::OAuth2RsScopeMap),
        basic_secret,
        is_public,
        can_rw,
    };
    Ok(Page { push_url: Location::Path(oauth2_view_reload(rs_name)), whole: !is_htmx, partial })
}

/// The page with the form for a new OAuth2 client. The token says whether the viewer has unlocked
/// their privileges.
pub fn view_oauth2_create_get<E>(is_htmx: bool, token: Result<bool, E>) -> (r: Result<
    Page<bool>,
    Reply<E>,
>)
    ensures
        form_shown("/ui/admin/oauth2/create"@, is_htmx, token, r),
{
    form_page("/ui/admin/oauth2/create", is_htmx, token)
}

/// The form for a new OAuth2 client.
#[derive(Clone, Debug)]
pub struct CreateOauth2Form {
    pub name: String,
    pub displayname: String,
    pub landing: String,
    /// "public" for a public client, otherwise a confidential one.
    pub rs_type: Option<String>,
}

/// The attributes of a new OAuth2 client; a blank landing page is left out.
pub open spec fn new_client(
    name: Seq<char>,
    displayname: Seq<char>,
    landing: Seq<char>,
    rs_type: Option<Seq<char>>,
) -> Map<Attribute, NewValueView> {
    let kind = if rs_type == Some("public"@) {
        EntryClass::OAuth2ResourceServerPublic
    } else {
        EntryClass::OAuth2ResourceServerBasic
    };
    let classes = seq![
        EntryClass::OAuth2ResourceServer,
        EntryClass::Account,
        EntryClass::Object,
        kind,
    ];
    let named = Map::<Attribute, NewValueView>::empty().insert(
        Attribute::Class,
        NewValueView::Classes(classes),
    ).insert(Attribute::Name, NewValueView::Text(name)).insert(
        Attribute::DisplayName,
        NewValueView::Text(displayname),
    );
    if trimmed(landing).len() > 0 {
        named.insert(Attribute::OAuth2RsOriginLanding, NewValueView::Text(landing))
    } else {
        named
    }
}

/// Creates an OAuth2 client, then goes to the list of clients.
pub fn create_oauth2(form: CreateOauth2Form) -> (r: Mutation)
    ensures
        r@ == client_creation(
            form.name@,
            form.displayname@,
            form.landing@,
            form.rs_type.deep_view(),
        ),
        r@ == reloading(
            WriteRequestView::Create(
                new_client(form.name@, form.displayname@, form.landing@, form.rs_type.deep_view()),
            ),
            "/ui/admin/oauth2"@,
        ),
{
    let public: bool = match &form.rs_type {
        Some(t) => same_text(t.as_str(), "public"),
        None => false,
    };
    let kind: EntryClass = if public {
        EntryClass::OAuth2ResourceServerPublic
    } else {
        EntryClass::OAuth2ResourceServerBasic
    };
    let classes: Vec<EntryClass> = vec![
        EntryClass::OAuth2ResourceServer,
        EntryClass::Account,
        EntryClass::Object,
        kind,
    ];
    assert(classes@ =~= seq![
        EntryClass::OAuth2ResourceServer,
        EntryClass::Account,
        EntryClass::Object,
        kind,
    ]);
    let mut attrs: AttrMap<NewValue> = AttrMap::new();
    attrs = attrs.with(Attribute::Class, NewValue::Classes(classes));
    attrs = attrs.with(Attribute::Name, NewValue::Text(form.name));
    attrs = attrs.with(Attribute::DisplayName, NewValue::Text(form.displayname));
    if !trim(form.landing.as_str()).as_str().is_empty() {
        attrs = attrs.with(Attribute::OAuth2RsOriginLanding, NewValue::Text(form.landing));
    }
    reload_after(WriteRequest::Create(attrs), oauth2_list_reload())
}

/// The form with a landing page.
#[derive(Clone, Debug)]
pub struct LandingForm {
    pub landing: String,
}

/// Sets the landing page of an OAuth2 client.
pub fn set_oauth2_landing(rs_name: &str, form: LandingForm) -> (r: Mutation)
    ensures
        r@ == landing_change(rs_name@, form.landing@),
        r@ == reloading(
            setting(
                EntryIdView::Named(rs_name@),
                Attribute::OAuth2RsOriginLanding,
                form.landing@,
                EntryClass::OAuth2ResourceServer,
            ),
            oauth2_path(rs_name@),
        ),
{
    reload_after(
        set_value(
            EntryId::Named(rs_name.to_string()),
            Attribute::OAuth2RsOriginLanding,
            form.landing,
            EntryClass::OAuth2ResourceServer,
        ),
        oauth2_view_reload(rs_name),
    )
}

/// The form with an origin to add or remove.
#[derive(Clone, Debug)]
pub struct OriginForm {
    pub origin: String,
}

/// Adding an origin to an OAuth2 client.
pub open spec fn origin_addition(rs_name: Seq<char>, origin: Seq<char>) -> MutationView {
    reloading(
        appending(
            EntryIdView::Named(rs_name),
            Attribute::OAuth2RsOrigin,
            origin,
            EntryClass::OAuth2ResourceServer,
        ),
        oauth2_path(rs_name),
    )
}

/// Removing an origin from an OAuth2 client.
pub open spec fn origin_removal(rs_name: Seq<char>, origin: Seq<char>) -> MutationView {
    reloading(
        removing(
            EntryIdView::Named(rs_name),
            Attribute::OAuth2RsOrigin,
            origin,
            EntryClass::OAuth2ResourceServer,
        ),
        oauth2_path(rs_name),
    )
}

/// Adds an origin to an OAuth2 client.
pub fn add_oauth2_origin(rs_name: &str, form: OriginForm) -> (r: Mutation)
    ensures
        r@ == origin_addition(rs_name@, form.origin@),
{
    reload_after(
        append_value(
            EntryId::Named(rs_name.to_string()),
            Attribute::OAuth2RsOrigin,
            form.origin,
            EntryClass::OAuth2ResourceServer,
        ),
        oauth2_view_reload(rs_name),
    )
}

/// Removes an origin from an OAuth2 client.
pub fn remove_oauth2_origin(rs_name: &str, form: OriginForm) -> (r: Mutation)
    ensures
        r@ == origin_removal(rs_name@, form.origin@),
{
    reload_after(
        remove_value(
            EntryId::Named(rs_name.to_string()),
            Attribute::OAuth2RsOrigin,
            form.origin,
            EntryClass::OAuth2ResourceServer,
        ),
        oauth2_view_reload(rs_name),
    )
}

/// Removing an origin asks the server to take away exactly what adding it asked the server to add.
pub proof fn law_origin_removal_reverses_addition(rs_name: Seq<char>, origin: Seq<char>)
    ensures
        reverses(
            origin_removal(rs_name, origin).request,
            origin_addition(rs_name, origin).request,
        ),
{
}

/// The form with a group and the scopes that its members get.
#[derive(Clone, Debug)]
pub struct ScopeMapForm {
    pub group: String,
    /// Space or comma separated scope names.
    pub scopes: Option<String>,
}

/// The scope names in a form; a form without scopes has none.
pub open spec fn posted_scopes(scopes: Option<Seq<char>>) -> Seq<Seq<char>> {
    match scopes {
        Some(s) => scope_names(s),
        None => scope_names(Seq::empty()),
    }
}

/// Gives the members of a group scopes of an OAuth2 client.
pub fn add_oauth2_scopemap(rs_name: &str, form: ScopeMapForm) -> (r: Mutation)
    ensures
        r@ == scope_map_update(rs_name@, form.group@, form.scopes.deep_view()),
        r@ == reloading(
            WriteRequestView::UpdateScopeMap {
                group: form.group@,
                scopes: posted_scopes(form.scopes.deep_view()),
                filter: EntryFilterView::Oauth2Client(rs_name@),
            },
            oauth2_path(rs_name@),
        ),
{
    let posted: String = match form.scopes {
        Some(s) => s,
        None => String::new(),
    };
    reload_after(
        WriteRequest::UpdateScopeMap {
            group: form.group,
            scopes: split_scopes(posted.as_str()),
            filter: EntryFilter::Oauth2Client(rs_name.to_string()),
        },
        oauth2_view_reload(rs_name),
    )
}

/// The form with a group.
#[derive(Clone, Debug)]
pub struct ScopeMapGroupForm {
    pub group: String,
}

/// Takes the scopes of an OAuth2 client from the members of a group.
pub fn remove_oauth2_scopemap(rs_name: &str, form: ScopeMapGroupForm) -> (r: Mutation)
    ensures
        r@ == scope_map_deletion(rs_name@, form.group@),
        r@ == reloading(
            WriteRequestView::DeleteScopeMap {
                group: form.group@,
                filter: EntryFilterView::Oauth2Client(rs_name@),
            },
            oauth2_path(rs_name@),
        ),
{
    reload_after(
        WriteRequest::DeleteScopeMap {
            group: form.group,
            filter: EntryFilter::Oauth2Client(rs_name.to_string()),
        },
        oauth2_view_reload(rs_name),
    )
}

/// Deletes an OAuth2 client, then goes to the list of clients.
pub fn delete_oauth2(rs_name: &str) -> (r: Mutation)
    ensures
        r@ == client_deletion(rs_name@),
        r@ == reloading(
            WriteRequestView::Delete(EntryFilterView::Oauth2Client(rs_name@)),
            "/ui/admin/oauth2"@,
        ),
{
    reload_after(
        WriteRequest::Delete(EntryFilter::Oauth2Client(rs_name.to_string())),
        oauth2_list_reload(),
    )
}

/// What is read of an OAuth2 client, each attribute once and nothing else; it is read by the name
/// under which it is asked for.
pub proof fn law_oauth2_attributes(a: Attribute, rs_name: Seq<char>)
    ensures
        oauth2_attribute_list().contains(a) <==> a == Attribute::Class || a == Attribute::Name || a
            == Attribute::DisplayName || a == Attribute::Spn || a
            == Attribute::OAuth2RsOriginLanding || a == Attribute::OAuth2RsOrigin || a
            == Attribute::OAuth2RsScopeMap,
        oauth2_attribute_list().no_duplicates(),
        client_read(rs_name).id is Named && client_read(rs_name).id->Named_0 == rs_name,
        client_read(rs_name).class == EntryClass::OAuth2ResourceServer,
        client_read(rs_name).query.attributes == oauth2_attribute_list(),
        !client_read(rs_name).query.ext_access_check && client_read(rs_name).query.count is None,
{
    let s = oauth2_attribute_list();
    assert(s[0] == Attribute::Class && s[1] == Attribute::Name && s[2] == Attribute::DisplayName
        && s[3] == Attribute::Spn && s[4] == Attribute::OAuth2RsOriginLanding && s[5]
        == Attribute::OAuth2RsOrigin && s[6] == Attribute::OAuth2RsScopeMap);
}

/// The list of OAuth2 clients finds every client and no other entry, with its names, by name and
/// without a limit.
pub proof fn law_client_list_finds_all_clients(
    classes: Set<EntryClass>,
    texts: Map<Attribute, Seq<char>>,
    a: Attribute,
)
    ensures
        finds(clients_search().filter, classes, texts) <==> classes.contains(
            EntryClass::OAuth2ResourceServer,
        ),
        clients_search().query.attributes.contains(a) <==> a == Attribute::Name || a
            == Attribute::DisplayName,
        clients_search().query.sort_by == Some(Attribute::Name),
        clients_search().query.sort_order is None,
        clients_search().query.start_index is None && clients_search().query.count is None,
{
    let s = clients_search().query.attributes;
    assert(s[0] == Attribute::Name && s[1] == Attribute::DisplayName);
}

/// The list of OAuth2 clients has one row for each entry, in order, with the name and the displayed
/// name of that entry.
pub proof fn law_client_rows(entries: Seq<Entry>, i: int)
    requires
        0 <= i < entries.len(),
    ensures
        client_rows(entries).len() == entries.len(),
        client_rows(entries)[i].name == entries[i]@.text_or_empty(Attribute::Name),
        client_rows(entries)[i].displayname == entries[i]@.text_or_empty(Attribute::DisplayName),
{
}

/// A client is public exactly if one of its classes is the class of public clients, whether it has
/// several classes or one.
pub proof fn law_public_clients(
    e: EntryView,
    classes: Seq<Seq<char>>,
    class: Seq<char>,
    public_class: Seq<char>,
)
    ensures
        public_client(
            EntryView { attrs: e.attrs.insert(Attribute::Class, ValueView::Texts(classes)), ..e },
            public_class,
        ) <==> exists|i: int| 0 <= i < classes.len() && #[trigger] classes[i] == public_class,
        public_client(
            EntryView { attrs: e.attrs.insert(Attribute::Class, ValueView::Text(class)), ..e },
            public_class,
        ) <==> class == public_class,
        !public_client(EntryView { attrs: e.attrs.remove(Attribute::Class), ..e }, public_class),
{
    assert(seq![class][0] == class);
}

/// The page of a client shows each of its attributes under its own heading, and a secret exactly if
/// the client is not public and its secret could be read.
pub proof fn law_client_page<E>(
    partial: Oauth2DetailPartial,
    entry: EntryView,
    public_class: Seq<char>,
    secret: Result<Option<String>, E>,
    can_rw: bool,
)
    requires
        client_shown(partial, entry, public_class, secret, can_rw),
    ensures
        partial.name@ == entry.text_or_empty(Attribute::Name),
        partial.displayname@ == entry.text_or_empty(Attribute::DisplayName),
        partial.spn@ == entry.text_or_empty(Attribute::Spn),
        partial.landing@ == entry.text_or_empty(Attribute::OAuth2RsOriginLanding),
        partial.origins.deep_view() == entry.texts(Attribute::OAuth2RsOrigin),
        partial.scope_maps.deep_view() == entry.scope_maps(Attribute::OAuth2RsScopeMap),
        partial.is_public <==> entry.texts(Attribute::Class).contains(public_class),
        partial.is_public ==> partial.basic_secret is None,
        secret is Err ==> partial.basic_secret is None,
        !partial.is_public && secret is Ok ==> partial.basic_secret == secret->Ok_0,
        partial.can_rw == can_rw,
{
}

/// A new client has both names, is a client and either public or confidential as the form says, and
/// has a landing page, as it was typed, exactly if the form has one that is not blank.
pub proof fn law_new_clients(
    name: Seq<char>,
    displayname: Seq<char>,
    landing: Seq<char>,
    rs_type: Option<Seq<char>>,
    class: EntryClass,
    a: Attribute,
)
    ensures
        ({
            let attrs = new_client(name, displayname, landing, rs_type);
            &&& attrs.dom().contains(Attribute::Name) && attrs[Attribute::Name]
                == NewValueView::Text(name)
            &&& attrs.dom().contains(Attribute::DisplayName) && attrs[Attribute::DisplayName]
                == NewValueView::Text(displayname)
            &&& attrs.dom().contains(Attribute::OAuth2RsOriginLanding) <==> trimmed(landing).len()
                > 0
            &&& attrs.dom().contains(Attribute::OAuth2RsOriginLanding)
                ==> attrs[Attribute::OAuth2RsOriginLanding] == NewValueView::Text(landing)
            &&& attrs.dom().contains(Attribute::Class) && attrs[Attribute::Class] is Classes
            &&& attrs[Attribute::Class]->Classes_0.contains(class) <==> class
                == EntryClass::OAuth2ResourceServer || class == EntryClass::Account || class
                == EntryClass::Object || class == EntryClass::OAuth2ResourceServerPublic && rs_type
                == Some("public"@) || class == EntryClass::OAuth2ResourceServerBasic && rs_type
                != Some("public"@)
            &&& attrs.dom().contains(a) ==> a == Attribute::Name || a == Attribute::DisplayName || a
                == Attribute::Class || a == Attribute::OAuth2RsOriginLanding
        }),
{
    let classes = new_client(name, displayname, landing, rs_type)[Attribute::Class]->Classes_0;
    assert(classes[0] == EntryClass::OAuth2ResourceServer && classes[1] == EntryClass::Account
        && classes[2] == EntryClass::Object);
    assert(classes[3] == EntryClass::OAuth2ResourceServerPublic || classes[3]
        == EntryClass::OAuth2ResourceServerBasic);
}

/// Adding and removing an origin changes this one origin of that client and nothing else, within
/// the class of clients, and ends at the page of the client with failures as notifications.
pub proof fn law_origin_changes(
    rs_name: Seq<char>,
    origin: Seq<char>,
    id: EntryIdView,
    attribute: Attribute,
    before: Set<Seq<char>>,
)
    ensures
        ({
            let own = EntryIdView::Named(rs_name);
            let add = origin_addition(rs_name, origin);
            let remove = origin_removal(rs_name, origin);
            let page = SuccessView::GoTo(LocationView::Path(oauth2_path(rs_name)));
            let held = Attribute::OAuth2RsOrigin;
            &&& values_after(add.request, own, held, before) == before.insert(origin)
            &&& values_after(remove.request, own, held, before) == before.remove(origin)
            &&& id != own || attribute != held ==> values_after(add.request, id, attribute, before)
                == before && values_after(remove.request, id, attribute, before) == before
            &&& restricted_to(add.request) == Some(EntryClass::OAuth2ResourceServer)
                && restricted_to(remove.request) == Some(EntryClass::OAuth2ResourceServer)
            &&& add.success == page && remove.success == page && add.failure is Toast
                && remove.failure is Toast
        }),
{
    law_writes_change_one_attribute(
        EntryIdView::Named(rs_name),
        Attribute::OAuth2RsOrigin,
        origin,
        EntryClass::OAuth2ResourceServer,
        id,
        attribute,
        before,
    );
}

/// The posted scopes are the names in the list, and a form without a list has none.
pub proof fn law_posted_scopes(a: Seq<char>, c: char, b: Seq<char>)
    requires
        c == ' ' || c == ',',
    ensures
        posted_scopes(Some(a + seq![c] + b)) == posted_scopes(Some(a)) + posted_scopes(Some(b)),
        (forall|i: int| 0 <= i < a.len() ==> #[trigger] a[i] != ' ' && a[i] != ',') ==> (
        trimmed(a).len() > 0 ==> posted_scopes(Some(a)) == seq![trimmed(a)]) && (trimmed(a).len()
            == 0 ==> posted_scopes(Some(a)).len() == 0),
        posted_scopes(None).len() == 0,
{
    law_scope_lists_are_joined(a, c, b);
    law_single_scope_name(Seq::empty());
    if forall|i: int| 0 <= i < a.len() ==> #[trigger] a[i] != ' ' && a[i] != ',' {
        law_single_scope_name(a);
    }
}

/// Creating an OAuth2 client.
pub open spec fn client_creation(
    name: Seq<char>,
    displayname: Seq<char>,
    landing: Seq<char>,
    rs_type: Option<Seq<char>>,
) -> MutationView {
    reloading(
        WriteRequestView::Create(new_client(name, displayname, landing, rs_type)),
        "/ui/admin/oauth2"@,
    )
}

/// Setting the landing page of an OAuth2 client.
pub open spec fn landing_change(rs_name: Seq<char>, landing: Seq<char>) -> MutationView {
    reloading(
        setting(
            EntryIdView::Named(rs_name),
            Attribute::OAuth2RsOriginLanding,
            landing,
            EntryClass::OAuth2ResourceServer,
        ),
        oauth2_path(rs_name),
    )
}

/// Giving the members of a group scopes of an OAuth2 client.
pub open spec fn scope_map_update(
    rs_name: Seq<char>,
    group: Seq<char>,
    scopes: Option<Seq<char>>,
) -> MutationView {
    reloading(
        WriteRequestView::UpdateScopeMap {
            group,
            scopes: posted_scopes(scopes),
            filter: EntryFilterView::Oauth2Client(rs_name),
        },
        oauth2_path(rs_name),
    )
}

/// Taking the scopes of an OAuth2 client from the members of a group.
pub open spec fn scope_map_deletion(rs_name: Seq<char>, group: Seq<char>) -> MutationView {
    reloading(
        WriteRequestView::DeleteScopeMap { group, filter: EntryFilterView::Oauth2Client(rs_name) },
        oauth2_path(rs_name),
    )
}

/// Deleting an OAuth2 client.
pub open spec fn client_deletion(rs_name: Seq<char>) -> MutationView {
    reloading(
        WriteRequestView::Delete(EntryFilterView::Oauth2Client(rs_name)),
        "/ui/admin/oauth2"@,
    )
}

/// The landing page of a client becomes what the form holds, as it was typed, and nothing else
/// changes; this ends at the page of the client.
pub proof fn law_landing_changes(
    rs_name: Seq<char>,
    landing: Seq<char>,
    id: EntryIdView,
    attribute: Attribute,
    before: Set<Seq<char>>,
)
    ensures
        ({
            let own = EntryIdView::Named(rs_name);
            let change = landing_change(rs_name, landing);
            let held = Attribute::OAuth2RsOriginLanding;
            &&& values_after(change.request, own, held, before) == set![landing]
            &&& id != own || attribute != held ==> values_after(
                change.request,
                id,
                attribute,
                before,
            ) == before
            &&& restricted_to(change.request) == Some(EntryClass::OAuth2ResourceServer)
            &&& change.success == SuccessView::GoTo(LocationView::Path(oauth2_path(rs_name)))
            &&& change.failure is Toast
        }),
{
    law_writes_change_one_attribute(
        EntryIdView::Named(rs_name),
        Attribute::OAuth2RsOriginLanding,
        landing,
        EntryClass::OAuth2ResourceServer,
        id,
        attribute,
        before,
    );
}

/// A scope map is given to and taken from the group of the form, on the client, with the scopes of
/// the form, and both end at the page of the client.
pub proof fn law_scope_map_changes(rs_name: Seq<char>, group: Seq<char>, scopes: Option<Seq<char>>)
    ensures
        ({
            let update = scope_map_update(rs_name, group, scopes);
            let delete = scope_map_deletion(rs_name, group);
            let page = SuccessView::GoTo(LocationView::Path(oauth2_path(rs_name)));
            &&& update.request is UpdateScopeMap
            &&& update.request->UpdateScopeMap_group == group
            &&& update.request->UpdateScopeMap_scopes == posted_scopes(scopes)
            &&& update.request->UpdateScopeMap_filter == EntryFilterView::Oauth2Client(rs_name)
            &&& delete.request is DeleteScopeMap
            &&& delete.request->DeleteScopeMap_group == group
            &&& delete.request->DeleteScopeMap_filter == update.request->UpdateScopeMap_filter
            &&& update.success == page && delete.success == page && update.failure is Toast
                && delete.failure is Toast
        }),
{
}

/// Clients are created with what the form says and deleted by name, and different clients are
/// deleted by different requests; both end at the list of clients.
pub proof fn law_clients_come_and_go(
    rs_name: Seq<char>,
    other: Seq<char>,
    displayname: Seq<char>,
    landing: Seq<char>,
    rs_type: Option<Seq<char>>,
)
    ensures
        ({
            let create = client_creation(rs_name, displayname, landing, rs_type);
            let delete = client_deletion(rs_name);
            &&& create.request is Create
            &&& create.request->Create_0 == new_client(rs_name, displayname, landing, rs_type)
            &&& delete.request is Delete
            &&& delete.request->Delete_0 == EntryFilterView::Oauth2Client(rs_name)
            &&& delete.request == client_deletion(other).request ==> rs_name == other
            &&& create.success == delete.success
            &&& delete.success == SuccessView::GoTo(LocationView::Path("/ui/admin/oauth2"@))
            &&& create.failure is Toast && delete.failure is Toast
        }),
{
}

} // verus!
