//! The views of persons: the list, the page of a person, and the changes to it.
use crate::attribute::{AttrMap, Attribute, EntryClass};
use crate::entry::{text_of, Access, Entry};
use crate::groups::list_order;
use crate::ident::{
    law_uuid_text_is_injective, person_path, person_view_reload, uuid_text, uuid_to_string,
};
use crate::link::{
    all_query_safe, is_url, plain_origin, plain_path, relocated, token_fits, token_link,
    token_query,
};
use crate::listing::{
    collect_infos, info_from_read, list_page, listed, read_info, record_infos, ListPartial, Record,
};
use crate::moment::{
    datetime_local_to_rfc3339, dt_to_input, epoch_text, input_text, law_prefill_posts_its_minute,
    local_timestamp, representable, rfc3339_text, timestamp, timestamp_candidate, UtcFields,
};
use crate::pagination::{normalised, ListParamsView, Pagination, PaginationView};
use crate::reply::{
    form_page, form_shown, refusal, reload_after, reloading, require_token, FailureStyle, Location,
    LocationView, Mutation, MutationView, OperationError, Page, Plan, PlanView, Reply, ReplyView,
    Success, SuccessView, Urls,
};
use crate::request::{
    append_value, appending, contains_text, finds, law_lists_find_what_contains_the_term,
    law_writes_change_one_attribute, limit, list_filter, listing_filter, non_zero, one_text,
    plain_query, purge_values, purging, query_for, remove_value, removing, restricted_to, reverses,
    setting, values_after, EntryFilter, EntryFilterView, EntryId, EntryIdView, EntryPut,
    EntryPutView, EntryRead, EntryReadView, GetQuery, GetQueryView, NewValue, NewValueView,
    PutOutcome, Search, SearchFilter, SearchFilterView, SearchView, SortOrder, WriteRequest,
    WriteRequestView,
};
use crate::text::{same_optional_text, same_text, trimmed};
use vstd::prelude::*;
use vstd::string::*;

verus! {

/// The attributes of a person that the views show.
pub open spec fn person_attribute_list() -> Seq<Attribute> {
    seq![
        Attribute::Uuid,
        Attribute::Description,
        Attribute::LegalName,
        Attribute::Name,
        Attribute::DisplayName,
        Attribute::Spn,
        Attribute::Mail,
        Attribute::Class,
        Attribute::EntryManagedBy,
        Attribute::DirectMemberOf,
        Attribute::AccountExpire,
        Attribute::AccountValidFrom,
        Attribute::SshPublicKey,
    ]
}

/// The attributes of a person that the views show.
pub fn person_attributes() -> (r: Vec<Attribute>)
    ensures
        r@ == person_attribute_list(),
{
    let r: Vec<Attribute> = vec![
        Attribute::Uuid,
        Attribute::Description,
        Attribute::LegalName,
        Attribute::Name,
        Attribute::DisplayName,
        Attribute::Spn,
        Attribute::Mail,
        Attribute::Class,
        Attribute::EntryManagedBy,
        Attribute::DirectMemberOf,
        Attribute::AccountExpire,
        Attribute::AccountValidFrom,
        Attribute::SshPublicKey,
    ];
    assert(r@ =~= person_attribute_list());
    r
}

/// A person: what the views compute with, and the rest of what they show. Points in time are
/// nanoseconds since the Unix epoch.
#[derive(Debug)]
pub struct Person<T> {
    pub legalname: Option<String>,
    pub description: Option<String>,
    /// The groups that the person is a member of.
    pub groups: Vec<u128>,
    pub account_valid_from: Option<i128>,
    pub account_expire: Option<i128>,
    pub card: T,
}

/// The identifier of a person in requests.
pub open spec fn person_id(person: u128) -> EntryIdView {
    EntryIdView::Named(uuid_text(person))
}

fn person_entry(person: u128) -> (r: EntryId)
    ensures
        r@ == person_id(person),
{
    EntryId::Named(uuid_to_string(person))
}

/// The read of a person with all that its page shows.
pub fn person_read(person: u128) -> (r: EntryRead)
    ensures
        r@ == person_entry_read(person),
        r@ == (EntryReadView {
            id: person_id(person),
            class: EntryClass::Person,
            query: GetQueryView {
                ext_access_check: true,
                ..plain_query(person_attribute_list())
            },
        }),
{
    let query: GetQuery = query_for(person_attributes());
    EntryRead {
        id: person_entry(person),
        class: EntryClass::Person,
        query: GetQuery { ext_access_check: true, ..query },
    }
}

/// The person that a read found and what the viewer may do with it; an answer that lacks one of
/// them is an error.
pub fn get_person_info<T, E>(read: Result<Record<T>, E>) -> (r: Result<
    (T, Access),
    OperationError<E>,
>)
    ensures
        r == read_info(read),
{
    info_from_read(read)
}

/// The status of an account for its viewer.
#[derive(Clone, Copy, Debug, PartialEq, Eq, Structural)]
pub enum AccountStatus {
    NotYetValid,
    Disabled,
    Active,
}

/// The status of an account at a point in time: not valid before its first moment, disabled from
/// its expiry on, and active otherwise.
pub open spec fn status_at(
    now: i128,
    valid_from: Option<i128>,
    expire: Option<i128>,
) -> AccountStatus {
    if valid_from is Some && now < valid_from->0 {
        AccountStatus::NotYetValid
    } else if expire is Some && now >= expire->0 {
        AccountStatus::Disabled
    } else {
        AccountStatus::Active
    }
}

impl AccountStatus {
    /// The words for a status.
    pub open spec fn words(self) -> Seq<char> {
        match self {
            AccountStatus::NotYetValid => "Not yet valid"@,
            AccountStatus::Disabled => "Disabled"@,
            AccountStatus::Active => "Active"@,
        }
    }

    /// The style class of a status.
    pub open spec fn style(self) -> Seq<char> {
        match self {
            AccountStatus::NotYetValid => "text-bg-warning"@,
            AccountStatus::Disabled => "text-bg-danger"@,
            AccountStatus::Active => "text-bg-success"@,
        }
    }

    /// The words for a status.
    pub fn label(self) -> (r: &'static str)
        ensures
            r@ == self.words(),
    {
        match self {
            AccountStatus::NotYetValid => "Not yet valid",
            AccountStatus::Disabled => "Disabled",
            AccountStatus::Active => "Active",
        }
    }

    /// The style class of a status.
    pub fn class(self) -> (r: &'static str)
        ensures
            r@ == self.style(),
    {
        match self {
            AccountStatus::NotYetValid => "text-bg-warning",
            AccountStatus::Disabled => "text-bg-danger",
            AccountStatus::Active => "text-bg-success",
        }
    }
}

/// The status of an account, derived from the window in which it is valid.
pub fn account_status(now: i128, valid_from: Option<i128>, expire: Option<i128>) -> (r:
    AccountStatus)
    ensures
        r == status_at(now, valid_from, expire),
{
    if let Some(first) = valid_from {
        if now < first {
            return AccountStatus::NotYetValid;
        }
    }
    if let Some(last) = expire {
        if now >= last {
            return AccountStatus::Disabled;
        }
    }
    AccountStatus::Active
}

/// Whether a form input is the value of a point in time, or empty without one.
pub open spec fn prefilled(moment: Option<i128>, input: Option<String>) -> bool {
    match moment {
        Some(nanos) => input is Some && forall|f: UtcFields| #[trigger]
            f.valid() && f.unix_nanos() == nanos ==> input->0@ == input_text(f),
        None => input is None,
    }
}

/// Whether an optional point in time has calendar fields.
pub open spec fn has_fields(moment: Option<i128>) -> bool {
    moment is Some ==> representable(moment->0 as int)
}

fn input_of(moment: Option<i128>) -> (r: Option<String>)
    requires
        has_fields(moment),
    ensures
        prefilled(moment, r),
{
    match moment {
        Some(nanos) => Some(dt_to_input(nanos)),
        None => None,
    }
}

/// The names of the groups that are not among those joined already.
pub open spec fn addable(all: Seq<(u128, Seq<char>)>, joined: Seq<u128>) -> Seq<Seq<char>>
    decreases all.len(),
{
    if all.len() == 0 {
        Seq::empty()
    } else {
        let before = addable(all.drop_last(), joined);
        if joined.contains(all.last().0) {
            before
        } else {
            before.push(all.last().1)
        }
    }
}

fn is_among(groups: &Vec<u128>, group: u128) -> (r: bool)
    ensures
        r == groups@.contains(group),
{
    let mut i: usize = 0;
    while i < groups.len()
        invariant
            i <= groups@.len(),
            forall|k: int| 0 <= k < i ==> #[trigger] groups@[k] != group,
        decreases groups@.len() - i,
    {
        if groups[i] == group {
            return true;
        }
        i += 1;
    }
    false
}

/// The names of the groups that a person can still be added to.
pub fn addable_groups(all: Vec<(u128, String)>, joined: &Vec<u128>) -> (r: Vec<String>)
    ensures
        r.deep_view() == addable(all.deep_view(), joined@),
{
    let ghost pairs = all.deep_view();
    let ghost given = all@;
    let mut out: Vec<String> = Vec::new();
    proof {
        assert(pairs.take(0) =~= Seq::<(u128, Seq<char>)>::empty());
        assert(out.deep_view() =~= Seq::<Seq<char>>::empty());
    }
    for group in it: all
        invariant
            it.seq() == given,
            pairs == all.deep_view(),
            given == all@,
            out.deep_view() == addable(pairs.take(it.index() as int), joined@),
    {
        let ghost before = out.deep_view();
        proof {
            assert(pairs.take(it.index() + 1).drop_last() =~= pairs.take(it.index() as int));
            assert(pairs[it.index() as int] == (group.0, group.1@));
        }
        if !is_among(joined, group.0) {
            out.push(group.1);
            assert(out.deep_view() =~= before.push(group.1@));
        }
    }
    assert(pairs.take(pairs.len() as int) =~= pairs);
    out
}

/// The search for the groups that a person can be added to: all of them, by name.
pub fn group_choices_search() -> (r: Search)
    ensures
        r@ == group_choices(),
        r@ == (SearchView {
            filter: SearchFilterView::ClassIs(EntryClass::Group),
            query: GetQueryView {
                sort_by: Some(Attribute::Name),
                ..plain_query(seq![Attribute::Name])
            },
        }),
{
    let attributes: Vec<Attribute> = vec![Attribute::Name];
    assert(attributes@ =~= seq![Attribute::Name]);
    let query: GetQuery = query_for(attributes);
    Search {
        filter: SearchFilter::ClassIs(EntryClass::Group),
        query: GetQuery { sort_by: Some(Attribute::Name), ..query },
    }
}

/// The identifiers and names of the entries that have a name.
pub open spec fn named_entries(entries: Seq<Entry>) -> Seq<(u128, Seq<char>)>
    decreases entries.len(),
{
    if entries.len() == 0 {
        Seq::empty()
    } else {
        let before = named_entries(entries.drop_last());
        match entries.last()@.text(Attribute::Name) {
            Some(name) => before.push((entries.last().id, name)),
            None => before,
        }
    }
}

/// The groups that the viewer can see, with their names; none if the search failed.
pub fn list_all_groups<E>(found: Result<Vec<Entry>, E>) -> (r: Vec<(u128, String)>)
    ensures
        r.deep_view() == (match found {
            Ok(entries) => named_entries(entries@),
            Err(_) => Seq::empty(),
        }),
{
    let mut out: Vec<(u128, String)> = Vec::new();
    assert(out.deep_view() =~= Seq::<(u128, Seq<char>)>::empty());
    let entries: Vec<Entry> = match found {
        Ok(entries) => entries,
        Err(_) => {
            return out;
        },
    };
    let mut i: usize = 0;
    assert(entries@.take(0) =~= Seq::<Entry>::empty());
    while i < entries.len()
        invariant
            i <= entries@.len(),
            out.deep_view() == named_entries(entries@.take(i as int)),
        decreases entries@.len() - i,
    {
        let ghost before = out.deep_view();
        assert(entries@.take(i + 1).drop_last() =~= entries@.take(i as int));
        match text_of(&entries[i], Attribute::Name) {
            Some(name) => {
                out.push((entries[i].id, name));
                assert(out.deep_view() =~= before.push((entries@[i as int].id, name@)));
            },
            None => {},
        }
        i += 1;
    }
    assert(entries@.take(entries@.len() as int) =~= entries@);
    out
}

/// The content of the page of a person.
#[derive(Debug)]
pub struct PersonPartial<T> {
    pub person: Person<T>,
    pub access: Access,
    /// Whether the viewer has unlocked their privileges.
    pub can_rw: bool,
    pub account_status: &'static str,
    pub account_status_class: &'static str,
    /// The values that prefill the form for the window in which the account is valid, in UTC.
    pub expire_input: Option<String>,
    pub valid_from_input: Option<String>,
    pub can_edit_validity: bool,
    pub can_edit_ssh: bool,
    /// The names of the groups that the person is not a member of.
    pub addable_groups: Vec<String>,
}

/// Whether a page shows a person as it is at a point in time, to a viewer with some rights.
pub open spec fn person_shown<T>(
    partial: PersonPartial<T>,
    info: (Person<T>, Access),
    can_rw: bool,
    now: i128,
    all_groups: Seq<(u128, Seq<char>)>,
) -> bool {
    let status = status_at(now, info.0.account_valid_from, info.0.account_expire);
    &&& partial.person == info.0
    &&& partial.access == info.1
    &&& partial.can_rw == can_rw
    &&& partial.account_status@ == status.words()
    &&& partial.account_status_class@ == status.style()
    &&& prefilled(info.0.account_expire, partial.expire_input)
    &&& prefilled(info.0.account_valid_from, partial.valid_from_input)
    &&& partial.can_edit_validity == (can_rw && info.1.can_modify(Attribute::AccountExpire))
    &&& partial.can_edit_ssh == (can_rw && info.1.can_modify(Attribute::SshPublicKey))
    &&& partial.addable_groups.deep_view() == addable(all_groups, info.0.groups@)
}

/// The page of a person: an error of its read comes before a missing token. The token says whether
/// the viewer has unlocked their privileges.
pub fn view_person_view_get<T, E>(
    person: u128,
    is_htmx: bool,
    info: Result<(Person<T>, Access), OperationError<E>>,
    token: Result<bool, E>,
    now: i128,
    all_groups: Vec<(u128, String)>,
) -> (r: Result<Page<PersonPartial<T>>, Reply<E>>)
    requires
        info is Ok && token is Ok ==> has_fields(info->Ok_0.0.account_expire) && has_fields(
            info->Ok_0.0.account_valid_from,
        ),
    ensures
        match (info, token) {
            (Err(e), _) => r is Err && r->Err_0@ == ReplyView::WebError(e),
            (Ok(_), Err(e)) => r is Err && r->Err_0@ == refusal(FailureStyle::Page, e),
            (Ok(found), Ok(can_rw)) => {
                &&& r is Ok
                &&& r->Ok_0.push_url@ == LocationView::Path(person_path(person))
                &&& r->Ok_0.whole == !is_htmx
                &&& person_shown(r->Ok_0.partial, found, can_rw, now, all_groups.deep_view())
            },
        },
{
    let (found, access) = match info {
        Ok(found) => found,
        Err(e) => {
            return Err(Reply::WebError(e));
        },
    };
    let can_rw: bool = match require_token(token) {
        Ok(can_rw) => can_rw,
        Err(reply) => {
            return Err(reply);
        },
    };
    let status: AccountStatus = account_status(
        now,
        found.account_valid_from,
        found.account_expire,
    );
    let expire_input: Option<String> = input_of(found.account_expire);
    let valid_from_input: Option<String> = input_of(found.account_valid_from);
    let can_edit_validity: bool = can_rw && access.check(Attribute::AccountExpire);
    let can_edit_ssh: bool = can_rw && access.check(Attribute::SshPublicKey);
    let addable: Vec<String> = addable_groups(all_groups, &found.groups);
    Ok(
        Page {
            push_url: Location::Path(person_view_reload(person)),
            whole: !is_htmx,
            partial: PersonPartial {
                person: found,
                access,
                can_rw,
                account_status: status.label(),
                account_status_class: status.class(),
                expire_input,
                valid_from_input,
                can_edit_validity,
                can_edit_ssh,
                addable_groups: addable,
            },
        },
    )
}

/// The attribute that a list of persons is sorted by.
pub open spec fn person_sort_attribute(sort: Seq<char>) -> Attribute {
    if sort == "displayname"@ {
        Attribute::DisplayName
    } else if sort == "spn"@ {
        Attribute::Spn
    } else {
        Attribute::Name
    }
}

/// The search for the persons of a page of the list.
pub fn persons_search(pager: &Pagination) -> (r: Search)
    requires
        pager.page >= 1,
        pager@.start_index() <= u64::MAX,
    ensures
        r@ == person_list_search(pager@),
        r@ == (SearchView {
            filter: listing_filter(
                EntryClass::Person,
                pager@.q,
                Attribute::Name,
                Attribute::DisplayName,
            ),
            query: GetQueryView {
                attributes: person_attribute_list(),
                ext_access_check: true,
                sort_by: Some(person_sort_attribute(pager@.sort)),
                sort_order: Some(list_order(pager@.order)),
                start_index: non_zero(pager@.start_index() as u64),
                count: non_zero(pager.per_page),
            },
        }),
{
    let sort_attr: Attribute = if same_text(pager.sort.as_str(), "displayname") {
        Attribute::DisplayName
    } else if same_text(pager.sort.as_str(), "spn") {
        Attribute::Spn
    } else {
        Attribute::Name
    };
    let sort_order: SortOrder = if same_text(pager.order.as_str(), "desc") {
        SortOrder::Descending
    } else {
        SortOrder::Ascending
    };
    Search {
        filter: list_filter(
            EntryClass::Person,
            &pager.q,
            Attribute::Name,
            Attribute::DisplayName,
        ),
        query: GetQuery {
            attributes: person_attributes(),
            ext_access_check: true,
            sort_by: Some(sort_attr),
            sort_order: Some(sort_order),
            start_index: limit(pager.start_index()),
            count: limit(pager.per_page),
        },
    }
}

/// The answer to a search: the entries of the page, and how many there are on all pages.
#[derive(Debug)]
pub struct Found<T> {
    pub records: Vec<Record<T>>,
    pub total_results: u64,
}

/// The rows of a page of the list of persons, and the number of rows of all pages as the server
/// counts them. An error of the search is passed on.
pub fn get_persons_info<T, E>(found: Result<Found<T>, E>) -> (r: Result<
    (Vec<(T, Access)>, u64),
    OperationError<E>,
>)
    ensures
        match found {
            Ok(base) => {
                &&& r is Ok
                &&& r->Ok_0.0@ == record_infos(base.records@)
                &&& r->Ok_0.1 == base.total_results
            },
            Err(e) => r == Err::<(Vec<(T, Access)>, u64), OperationError<E>>(
                OperationError::Server(e),
            ),
        },
{
    match found {
        Ok(base) => Ok((collect_infos(base.records), base.total_results)),
        Err(e) => Err(OperationError::Server(e)),
    }
}

/// The page of the list of persons: an error of the search comes before a missing token.
pub fn view_persons_get<T, E>(
    is_htmx: bool,
    info: Result<(Vec<(T, Access)>, u64), OperationError<E>>,
    pager: Pagination,
    token: Result<(), E>,
) -> (r: Result<Page<ListPartial<T, ()>>, Reply<E>>)
    ensures
        listed("/ui/admin/persons"@, is_htmx, info, pager@, token, r),
{
    list_page("/ui/admin/persons", is_htmx, info, pager, token)
}

/// The page with the form for a new person. The token says whether the viewer has unlocked their
/// privileges.
pub fn view_person_create_get<E>(is_htmx: bool, token: Result<bool, E>) -> (r: Result<
    Page<bool>,
    Reply<E>,
>)
    ensures
        form_shown("/ui/admin/persons/create"@, is_htmx, token, r),
{
    form_page("/ui/admin/persons/create", is_htmx, token)
}

/// The form for a new person.
#[derive(Clone, Debug)]
pub struct CreatePersonForm {
    pub name: String,
    pub displayname: String,
    pub mail: Option<String>,
}

/// The attributes of a new person; a blank mail address is left out.
pub open spec fn new_person(
    name: Seq<char>,
    displayname: Seq<char>,
    mail: Option<Seq<char>>,
) -> Map<Attribute, NewValueView> {
    let named = Map::<Attribute, NewValueView>::empty().insert(
        Attribute::Name,
        NewValueView::Text(name),
    ).insert(Attribute::DisplayName, NewValueView::Text(displayname));
    let reachable = match mail {
        Some(m) => if m.len() > 0 {
            named.insert(Attribute::Mail, NewValueView::Text(m))
        } else {
            named
        },
        None => named,
    };
    reachable.insert(
        Attribute::Class,
        NewValueView::Classes(seq![EntryClass::Person, EntryClass::Account, EntryClass::Object]),
    )
}

/// A change that ends at the list of persons.
pub open spec fn back_to_persons(request: WriteRequestView) -> MutationView {
    MutationView {
        request,
        success: SuccessView::GoTo(LocationView::Page(Urls::Admin)),
        failure: FailureStyle::Toast,
    }
}

/// Creates a person, then goes to the list of persons.
pub fn create_person(form: CreatePersonForm) -> (r: Mutation)
    ensures
        r@ == person_creation(form.name@, form.displayname@, form.mail.deep_view()),
        r@ == back_to_persons(
            WriteRequestView::Create(
                new_person(form.name@, form.displayname@, form.mail.deep_view()),
            ),
        ),
{
    let mut attrs: AttrMap<NewValue> = AttrMap::new();
    attrs = attrs.with(Attribute::Name, NewValue::Text(form.name));
    attrs = attrs.with(Attribute::DisplayName, NewValue::Text(form.displayname));
    if let Some(mail) = form.mail {
        if !mail.as_str().is_empty() {
            attrs = attrs.with(Attribute::Mail, NewValue::Text(mail));
        }
    }
    let classes: Vec<EntryClass> = vec![
        EntryClass::Person,
        EntryClass::Account,
        EntryClass::Object,
    ];
    assert(classes@ =~= seq![EntryClass::Person, EntryClass::Account, EntryClass::Object]);
    attrs = attrs.with(Attribute::Class, NewValue::Classes(classes));
    Mutation {
        request: WriteRequest::Create(attrs),
        success: Success::GoTo(Location::Page(Urls::Admin)),
        failure: FailureStyle::Toast,
    }
}

/// Deletes a person, then goes to the list of persons.
pub fn delete_person(person: u128) -> (r: Mutation)
    ensures
        r@ == person_deletion(person),
        r@ == back_to_persons(
            WriteRequestView::Delete(
                EntryFilterView::ClassAndId(EntryClass::Person, uuid_text(person)),
            ),
        ),
{
    Mutation {
        request: WriteRequest::Delete(
            EntryFilter::ClassAndId(EntryClass::Person, uuid_to_string(person)),
        ),
        success: Success::GoTo(Location::Page(Urls::Admin)),
        failure: FailureStyle::Toast,
    }
}

/// The form for the attributes of a person.
#[derive(Clone, Debug)]
pub struct SavePersonForm {
    pub account_name: String,
    pub displayname: String,
    pub legalname: Option<String>,
    pub description: Option<String>,
}

/// The attributes to write when a person is saved: the names, and the legal name and the
/// description if they differ from the current ones, where an absent one unsets the attribute.
pub open spec fn saved_person(
    name: Seq<char>,
    displayname: Seq<char>,
    legalname: Option<Seq<char>>,
    description: Option<Seq<char>>,
    current_legalname: Option<Seq<char>>,
    current_description: Option<Seq<char>>,
) -> Map<Attribute, Option<Seq<char>>> {
    let named = Map::<Attribute, Option<Seq<char>>>::empty().insert(
        Attribute::Name,
        Some(name),
    ).insert(Attribute::DisplayName, Some(displayname));
    let legal = if current_legalname != legalname {
        named.insert(Attribute::LegalName, legalname)
    } else {
        named
    };
    if current_description != description {
        legal.insert(Attribute::Description, description)
    } else {
        legal
    }
}

/// Saves the attributes of a person, given the person as it is; without it, the error is the
/// answer.
pub fn edit_person<T, E>(
    person: u128,
    form: SavePersonForm,
    info: Result<(Person<T>, Access), OperationError<E>>,
) -> (r: Result<EntryPut, Reply<E>>)
    ensures
        match info {
            Ok(found) => r is Ok && r->Ok_0@ == (EntryPutView {
                id: person,
                attrs: saved_person(
                    form.account_name@,
                    form.displayname@,
                    form.legalname.deep_view(),
                    form.description.deep_view(),
                    found.0.legalname.deep_view(),
                    found.0.description.deep_view(),
                ),
            }),
            Err(e) => r is Err && r->Err_0@ == ReplyView::WebError(e),
        },
{
    match info {
        Ok(found) => {
            let mut attrs: AttrMap<Option<String>> = AttrMap::new();
            attrs = attrs.with(Attribute::Name, Some(form.account_name));
            attrs = attrs.with(Attribute::DisplayName, Some(form.displayname));
            if !same_optional_text(&found.0.legalname, &form.legalname) {
                attrs = attrs.with(Attribute::LegalName, form.legalname);
            }
            if !same_optional_text(&found.0.description, &form.description) {
                attrs = attrs.with(Attribute::Description, form.description);
            }
            Ok(EntryPut { id: person, attrs })
        },
        Err(e) => Err(Reply::WebError(e)),
    }
}

/// The answer once the attributes of a person were submitted.
pub fn edit_person_reply<E>(outcome: PutOutcome<E>) -> (r: Reply<E>)
    ensures
        r@ == (match outcome {
            PutOutcome::Unencodable => ReplyView::ErrorPage(OperationError::<E>::Backend),
            PutOutcome::Refused(e) => ReplyView::ErrorToast(OperationError::Server(e)),
            PutOutcome::Written => ReplyView::Done(SuccessView::SavedToast),
        }),
{
    match outcome {
        PutOutcome::Unencodable => Reply::ErrorPage(OperationError::Backend),
        PutOutcome::Refused(e) => Reply::ErrorToast(OperationError::Server(e)),
        PutOutcome::Written => Reply::Done(Success::SavedToast),
    }
}

/// Saving a person never touches attributes other than the names and the description, touches the
/// legal name and the description only to change them, and changes them to what the form holds, so
/// that a form without a value clears them.
pub proof fn law_person_save_touches_changes_only(
    name: Seq<char>,
    displayname: Seq<char>,
    legalname: Option<Seq<char>>,
    description: Option<Seq<char>>,
    current_legalname: Option<Seq<char>>,
    current_description: Option<Seq<char>>,
)
    ensures
        ({
            let attrs = saved_person(
                name,
                displayname,
                legalname,
                description,
                current_legalname,
                current_description,
            );
            &&& attrs.dom().subset_of(
                set![
                    Attribute::Name,
                    Attribute::DisplayName,
                    Attribute::LegalName,
                    Attribute::Description,
                ],
            )
            &&& attrs.dom().contains(Attribute::LegalName) <==> legalname != current_legalname
            &&& attrs.dom().contains(Attribute::Description) <==> description
                != current_description
            &&& attrs.dom().contains(Attribute::LegalName) ==> attrs[Attribute::LegalName]
                == legalname
            &&& attrs.dom().contains(Attribute::Description) ==> attrs[Attribute::Description]
                == description
        }),
{
}

/// The form with a mail address to add or remove.
#[derive(Clone, Debug)]
pub struct MailForm {
    pub mail: String,
}

/// Adding a mail address to a person.
pub open spec fn person_mail_addition(person: u128, mail: Seq<char>) -> MutationView {
    reloading(
        appending(person_id(person), Attribute::Mail, mail, EntryClass::Person),
        person_path(person),
    )
}

/// Removing a mail address from a person.
pub open spec fn person_mail_removal(person: u128, mail: Seq<char>) -> MutationView {
    reloading(
        removing(person_id(person), Attribute::Mail, mail, EntryClass::Person),
        person_path(person),
    )
}

/// Adds a mail address to a person.
pub fn add_person_mail(person: u128, form: MailForm) -> (r: Mutation)
    ensures
        r@ == person_mail_addition(person, form.mail@),
{
    reload_after(
        append_value(person_entry(person), Attribute::Mail, form.mail, EntryClass::Person),
        person_view_reload(person),
    )
}

/// Removes a mail address from a person.
pub fn remove_person_mail(person: u128, form: MailForm) -> (r: Mutation)
    ensures
        r@ == person_mail_removal(person, form.mail@),
{
    reload_after(
        remove_value(person_entry(person), Attribute::Mail, form.mail, EntryClass::Person),
        person_view_reload(person),
    )
}

/// The form with a group: its name, security principal name or identifier.
#[derive(Clone, Debug)]
pub struct GroupRefForm {
    pub group: String,
}

/// Adding a person to a group, which holds its members.
pub open spec fn membership_addition(person: u128, group: Seq<char>) -> MutationView {
    reloading(
        appending(
            EntryIdView::Named(group),
            Attribute::Member,
            uuid_text(person),
            EntryClass::Group,
        ),
        person_path(person),
    )
}

/// Removing a person from a group.
pub open spec fn membership_removal(person: u128, group: Seq<char>) -> MutationView {
    reloading(
        removing(
            EntryIdView::Named(group),
            Attribute::Member,
            uuid_text(person),
            EntryClass::Group,
        ),
        person_path(person),
    )
}

/// Adds a person to a group.
pub fn add_person_group(person: u128, form: GroupRefForm) -> (r: Mutation)
    ensures
        r@ == membership_addition(person, form.group@),
{
    reload_after(
        append_value(
            EntryId::Named(form.group),
            Attribute::Member,
            uuid_to_string(person),
            EntryClass::Group,
        ),
        person_view_reload(person),
    )
}

/// Removes a person from a group.
pub fn remove_person_group(person: u128, form: GroupRefForm) -> (r: Mutation)
    ensures
        r@ == membership_removal(person, form.group@),
{
    reload_after(
        remove_value(
            EntryId::Named(form.group),
            Attribute::Member,
            uuid_to_string(person),
            EntryClass::Group,
        ),
        person_view_reload(person),
    )
}

/// Removing a mail address or leaving a group asks the server to take away exactly what adding it
/// asked the server to add.
pub proof fn law_person_removals_reverse_additions(person: u128, value: Seq<char>)
    ensures
        reverses(
            person_mail_removal(person, value).request,
            person_mail_addition(person, value).request,
        ),
        reverses(
            membership_removal(person, value).request,
            membership_addition(person, value).request,
        ),
{
}

/// Setting an attribute of a person.
pub open spec fn person_setting(
    person: u128,
    attribute: Attribute,
    value: Seq<char>,
) -> MutationView {
    reloading(
        setting(person_id(person), attribute, value, EntryClass::Person),
        person_path(person),
    )
}

/// Clearing an attribute of a person.
pub open spec fn person_purge(person: u128, attribute: Attribute) -> MutationView {
    reloading(purging(person_id(person), attribute, EntryClass::Person), person_path(person))
}

/// Replaces the values of an attribute of a person.
pub fn set_person_attr(person: u128, attribute: Attribute, values: Vec<String>) -> (r: Mutation)
    ensures
        r@ == reloading(
            WriteRequestView::SetAttribute {
                id: person_id(person),
                attribute,
                values: values.deep_view(),
                filter: EntryFilterView::Class(EntryClass::Person),
            },
            person_path(person),
        ),
{
    reload_after(
        WriteRequest::SetAttribute {
            id: person_entry(person),
            attribute,
            values,
            filter: EntryFilter::Class(EntryClass::Person),
        },
        person_view_reload(person),
    )
}

/// Removes all values of an attribute of a person.
pub fn purge_person_attr(person: u128, attribute: Attribute) -> (r: Mutation)
    ensures
        r@ == person_purge(person, attribute),
{
    reload_after(
        purge_values(person_entry(person), attribute, EntryClass::Person),
        person_view_reload(person),
    )
}

/// The form with a date and time.
#[derive(Clone, Debug)]
pub struct DateTimeForm {
    pub datetime: String,
}

/// Setting an end of the window in which an account is valid: without a timestamp nothing changes
/// and the page is loaded again.
pub open spec fn validity_plan(
    person: u128,
    attribute: Attribute,
    timestamp: Option<Seq<char>>,
) -> PlanView {
    match timestamp {
        Some(t) => PlanView::Submit(person_setting(person, attribute, t)),
        None => PlanView::Finish(SuccessView::GoTo(LocationView::Path(person_path(person)))),
    }
}

/// Sets an end of the window in which an account is valid, if there is a timestamp.
pub fn plan_validity(person: u128, attribute: Attribute, timestamp: Option<String>) -> (r: Plan)
    ensures
        r@ == validity_plan(person, attribute, timestamp.deep_view()),
{
    match timestamp {
        Some(t) => Plan::Submit(set_person_attr(person, attribute, one_text(t))),
        None => Plan::Finish(Success::GoTo(Location::Path(person_view_reload(person)))),
    }
}

/// Sets when an account expires; a value that cannot be read changes nothing.
pub fn set_account_expire(person: u128, form: DateTimeForm) -> (r: Plan)
    ensures
        r@ == validity_plan(person, Attribute::AccountExpire, local_timestamp(form.datetime@)),
        forall|f: UtcFields|
            f.valid() && f.year >= 0 && trimmed(form.datetime@) == #[trigger] input_text(f) ==> r@
                == validity_plan(
                person,
                Attribute::AccountExpire,
                Some(rfc3339_text(f.minute_start())),
            ),
        forall|f: UtcFields|
            f.valid() && f.year >= 0 && trimmed(form.datetime@) + seq!['Z']
                == #[trigger] rfc3339_text(f) ==> r@ == validity_plan(
                person,
                Attribute::AccountExpire,
                Some(rfc3339_text(f)),
            ),
{
    plan_validity(
        person,
        Attribute::AccountExpire,
        datetime_local_to_rfc3339(form.datetime.as_str()),
    )
}

/// Sets from when on an account is valid; a value that cannot be read changes nothing.
pub fn set_account_valid_from(person: u128, form: DateTimeForm) -> (r: Plan)
    ensures
        r@ == validity_plan(person, Attribute::AccountValidFrom, local_timestamp(form.datetime@)),
        forall|f: UtcFields|
            f.valid() && f.year >= 0 && trimmed(form.datetime@) == #[trigger] input_text(f) ==> r@
                == validity_plan(
                person,
                Attribute::AccountValidFrom,
                Some(rfc3339_text(f.minute_start())),
            ),
        forall|f: UtcFields|
            f.valid() && f.year >= 0 && trimmed(form.datetime@) + seq!['Z']
                == #[trigger] rfc3339_text(f) ==> r@ == validity_plan(
                person,
                Attribute::AccountValidFrom,
                Some(rfc3339_text(f)),
            ),
{
    plan_validity(
        person,
        Attribute::AccountValidFrom,
        datetime_local_to_rfc3339(form.datetime.as_str()),
    )
}

/// Disables an account at once by letting it expire now.
pub fn disable_account(person: u128, now: i128) -> (r: Mutation)
    ensures
        forall|f: UtcFields| #[trigger]
            f.valid() && f.unix_nanos() == now ==> r@ == person_setting(
                person,
                Attribute::AccountExpire,
                if f.year >= 0 {
                    rfc3339_text(f)
                } else {
                    epoch_text()
                },
            ),
        !representable(now as int) ==> r@ == person_setting(
            person,
            Attribute::AccountExpire,
            epoch_text(),
        ),
{
    set_person_attr(person, Attribute::AccountExpire, one_text(timestamp(now)))
}

/// Enables an expired account by clearing its expiry.
pub fn enable_account(person: u128) -> (r: Mutation)
    ensures
        r@ == person_purge(person, Attribute::AccountExpire),
{
    purge_person_attr(person, Attribute::AccountExpire)
}

/// Clears from when on an account is valid.
pub fn clear_account_valid_from(person: u128) -> (r: Mutation)
    ensures
        r@ == person_purge(person, Attribute::AccountValidFrom),
{
    purge_person_attr(person, Attribute::AccountValidFrom)
}

/// Clears the lock that failed logins put on an account.
pub fn clear_account_lockout(person: u128) -> (r: Mutation)
    ensures
        r@ == person_purge(person, Attribute::AccountSoftlockExpire),
{
    purge_person_attr(person, Attribute::AccountSoftlockExpire)
}

/// An account that expires at some moment is disabled from that moment on, an account without an
/// expiry is never disabled, and one with neither end of its window is always active.
pub proof fn law_expiry_decides_status(now: i128, moment: i128, valid_from: Option<i128>)
    ensures
        now >= moment && (valid_from is Some ==> valid_from->0 <= now) ==> status_at(
            now,
            valid_from,
            Some(moment),
        ) == AccountStatus::Disabled,
        now < moment ==> status_at(now, valid_from, Some(moment)) != AccountStatus::Disabled,
        status_at(now, valid_from, None) != AccountStatus::Disabled,
        status_at(now, None, None) == AccountStatus::Active,
{
}

/// A request for a token with which a user can reset credentials.
#[derive(Debug)]
pub struct ResetIntent {
    pub id: EntryId,
    /// For how many seconds the token is valid; the server decides without it.
    pub ttl: Option<u64>,
}

/// The request for a token with which a person can reset credentials.
pub fn reset_intent(person: u128) -> (r: ResetIntent)
    ensures
        r.id@ == person_id(person),
        r.ttl is None,
{
    ResetIntent { id: person_entry(person), ttl: None }
}

/// The answer to the request for a link: the link, or an error of the server as a notification.
pub fn reset_link_reply<E>(link: Result<String, E>) -> (r: Reply<E>)
    ensures
        r@ == (match link {
            Ok(link) => ReplyView::ResetLink(link@),
            Err(e) => refusal(FailureStyle::Toast, e),
        }),
{
    match link {
        Ok(link) => Reply::ResetLink(link),
        Err(e) => Reply::ErrorToast(OperationError::Server(e)),
    }
}

/// The link with which a person resets credentials, made of the origin of the site, the path of the
/// page and the token that the server answered with; an error of the server is shown as a
/// notification. There is no answer exactly if the origin is not a URL. A plain origin, a plain
/// path and a token that needs no encoding make up the link as they are, and a link to a site
/// without a fragment in its origin ends with such a token.
pub fn generate_reset_link<E>(origin: &str, path: &str, answer: Result<String, E>) -> (r: Option<
    Reply<E>,
>)
    requires
        answer is Ok ==> token_fits(origin@, path@, answer->Ok_0@),
    ensures
        match answer {
            Ok(token) => {
                &&& r is Some <==> is_url(origin@)
                &&& r is Some ==> r->0@ == ReplyView::<E>::ResetLink(
                    relocated(origin@, path@, token_query(token@)),
                )
                &&& plain_origin(origin@) && plain_path(path@) && all_query_safe(token@) ==> r
                    is Some && r->0@ == ReplyView::<E>::ResetLink(
                    origin@ + path@ + seq!['?'] + token_query(token@),
                )
                &&& r is Some && !origin@.contains('#') && all_query_safe(token@) ==> (seq!['?']
                    + token_query(token@)).is_suffix_of(r->0@->ResetLink_0)
            },
            Err(e) => r is Some && r->0@ == refusal(FailureStyle::Toast, e),
        },
{
    match answer {
        Ok(token) => match token_link(origin, path, token.as_str()) {
            Some(link) => Some(reset_link_reply(Ok(link))),
            None => None,
        },
        Err(e) => Some(reset_link_reply(Err(e))),
    }
}

/// The form with an SSH public key and its tag.
#[derive(Clone, Debug)]
pub struct AddSshKeyForm {
    pub tag: String,
    pub key: String,
}

/// The form with the tag of an SSH public key.
#[derive(Clone, Debug)]
pub struct SshKeyTagForm {
    pub tag: String,
}

/// Adds an SSH public key to a person.
pub fn add_person_ssh_key(person: u128, form: AddSshKeyForm) -> (r: Mutation)
    ensures
        r@ == ssh_key_addition(person, form.tag@, form.key@),
        r@ == reloading(
            WriteRequestView::CreateSshKey {
                id: person_id(person),
                tag: form.tag@,
                key: form.key@,
                filter: EntryFilterView::Class(EntryClass::Account),
            },
            person_path(person),
        ),
{
    reload_after(
        WriteRequest::CreateSshKey {
            id: person_entry(person),
            tag: form.tag,
            key: form.key,
            filter: EntryFilter::Class(EntryClass::Account),
        },
        person_view_reload(person),
    )
}

/// Removes an SSH public key from a person by its tag.
pub fn remove_person_ssh_key(person: u128, form: SshKeyTagForm) -> (r: Mutation)
    ensures
        r@ == ssh_key_removal(person, form.tag@),
        r@ == reloading(
            removing(
                person_id(person),
                Attribute::SshPublicKey,
                form.tag@,
                EntryClass::Account,
            ),
            person_path(person),
        ),
{
    reload_after(
        remove_value(
            person_entry(person),
            Attribute::SshPublicKey,
            form.tag,
            EntryClass::Account,
        ),
        person_view_reload(person),
    )
}

/// The groups offered to a person are groups that the viewer can see and that the person is not a
/// member of, and every such group is offered.
pub proof fn law_offered_groups(all: Seq<(u128, Seq<char>)>, joined: Seq<u128>, name: Seq<char>)
    ensures
        addable(all, joined).contains(name) <==> exists|i: int|
            0 <= i < all.len() && (#[trigger] all[i]).1 == name && !joined.contains(all[i].0),
    decreases all.len(),
{
    if all.len() > 0 {
        let rest = all.drop_last();
        let before = addable(rest, joined);
        law_offered_groups(rest, joined, name);
        let now = addable(all, joined);
        if now.contains(name) {
            let k = choose|k: int| 0 <= k < now.len() && now[k] == name;
            if k < before.len() {
                assert(before[k] == name);
                let i = choose|i: int|
                    0 <= i < rest.len() && (#[trigger] rest[i]).1 == name && !joined.contains(
                        rest[i].0,
                    );
                assert(all[i] == rest[i]);
            } else {
                assert(all[all.len() - 1].1 == name);
            }
        }
        if exists|i: int|
            0 <= i < all.len() && (#[trigger] all[i]).1 == name && !joined.contains(all[i].0) {
            let i = choose|i: int|
                0 <= i < all.len() && (#[trigger] all[i]).1 == name && !joined.contains(all[i].0);
            if i < rest.len() {
                assert(rest[i] == all[i]);
                assert(before.contains(name));
                let k = choose|k: int| 0 <= k < before.len() && before[k] == name;
                assert(now[k] == name);
            } else {
                assert(now[now.len() - 1] == name);
            }
        }
    }
}

/// An account is not yet valid exactly before its first moment, whatever its expiry; it is disabled
/// exactly from its expiry on if it has become valid, and active otherwise.
pub proof fn law_status_follows_from_the_window(
    now: i128,
    valid_from: Option<i128>,
    expire: Option<i128>,
)
    ensures
        status_at(now, valid_from, expire) is NotYetValid <==> valid_from is Some && now
            < valid_from->0,
        status_at(now, valid_from, expire) is Disabled <==> expire is Some && now >= expire->0 && (
        valid_from is None || now >= valid_from->0),
        status_at(now, valid_from, expire) is Active <==> (valid_from is None || now
            >= valid_from->0) && (expire is None || now < expire->0),
{
}

/// As time goes on an account goes from not yet valid to active to disabled and never back.
pub proof fn law_status_only_moves_forward(
    now: i128,
    later: i128,
    valid_from: Option<i128>,
    expire: Option<i128>,
)
    requires
        now <= later,
    ensures
        status_at(later, valid_from, expire) is NotYetValid ==> status_at(now, valid_from, expire)
            is NotYetValid,
        status_at(now, valid_from, expire) is Disabled ==> status_at(later, valid_from, expire)
            is Disabled,
{
}

/// Every status has its own words and its own style.
pub proof fn law_status_is_told_apart(status: AccountStatus)
    ensures
        status.words() == "Not yet valid"@ <==> status is NotYetValid,
        status.words() == "Disabled"@ <==> status is Disabled,
        status.words() == "Active"@ <==> status is Active,
        status.style() == "text-bg-warning"@ <==> status is NotYetValid,
        status.style() == "text-bg-danger"@ <==> status is Disabled,
        status.style() == "text-bg-success"@ <==> status is Active,
{
    reveal_strlit("Not yet valid");
    reveal_strlit("Disabled");
    reveal_strlit("Active");
    reveal_strlit("text-bg-warning");
    reveal_strlit("text-bg-danger");
    reveal_strlit("text-bg-success");
    assert("Not yet valid"@.len() == 13 && "Disabled"@.len() == 8 && "Active"@.len() == 6);
    assert("text-bg-warning"@.len() == 15 && "text-bg-danger"@.len() == 14);
    assert("text-bg-success"@.len() == 15 && "text-bg-success"@[8] != "text-bg-warning"@[8]);
}

/// A field of the form for the window of an account is filled exactly if that end of the window is
/// set, and posting it back unchanged stands for the minute of that end.
pub proof fn law_prefilled_fields_post_their_end(
    moment: Option<i128>,
    input: Option<String>,
    f: UtcFields,
)
    requires
        prefilled(moment, input),
        moment is Some ==> f.valid() && f.year >= 0 && f.unix_nanos() == moment->0,
    ensures
        input is Some <==> moment is Some,
        moment is Some ==> timestamp_candidate(input->0@) == Some(rfc3339_text(f.minute_start())),
        moment is Some ==> 0 <= moment->0 - f.minute_start().unix_nanos() < 60_000_000_000,
{
    if moment is Some {
        law_prefill_posts_its_minute(f);
    }
}

/// The page of a person shows the status of their account, lets the viewer edit only what they have
/// the right to and only with unlocked privileges, fills each field from its own end of the window,
/// and offers exactly the visible groups that the person is not in.
pub proof fn law_person_page<T>(
    partial: PersonPartial<T>,
    info: (Person<T>, Access),
    can_rw: bool,
    now: i128,
    all_groups: Seq<(u128, Seq<char>)>,
    f: UtcFields,
    name: Seq<char>,
)
    requires
        person_shown(partial, info, can_rw, now, all_groups),
        f.valid(),
    ensures
        partial.person == info.0 && partial.access == info.1 && partial.can_rw == can_rw,
        partial.account_status@ == status_at(
            now,
            info.0.account_valid_from,
            info.0.account_expire,
        ).words(),
        partial.account_status_class@ == status_at(
            now,
            info.0.account_valid_from,
            info.0.account_expire,
        ).style(),
        partial.can_edit_validity <==> can_rw && info.1.modify_present@.contains(
            Attribute::AccountExpire,
        ),
        partial.can_edit_ssh <==> can_rw && info.1.modify_present@.contains(
            Attribute::SshPublicKey,
        ),
        partial.expire_input is Some <==> info.0.account_expire is Some,
        partial.valid_from_input is Some <==> info.0.account_valid_from is Some,
        info.0.account_expire is Some && f.unix_nanos() == info.0.account_expire->0
            ==> partial.expire_input->0@ == input_text(f),
        info.0.account_valid_from is Some && f.unix_nanos() == info.0.account_valid_from->0
            ==> partial.valid_from_input->0@ == input_text(f),
        partial.addable_groups.deep_view().contains(name) <==> exists|i: int|
            0 <= i < all_groups.len() && (#[trigger] all_groups[i]).1 == name
                && !info.0.groups@.contains(all_groups[i].0),
{
    law_offered_groups(all_groups, info.0.groups@, name);
}

/// Groups are offered in the order in which they are found: those of a list and another one are
/// those of the first and then those of the second, and one group is offered by its name exactly if
/// it is not joined.
pub proof fn law_offered_groups_stay_in_order(
    a: Seq<(u128, Seq<char>)>,
    b: Seq<(u128, Seq<char>)>,
    group: (u128, Seq<char>),
    joined: Seq<u128>,
)
    ensures
        addable(a + b, joined) == addable(a, joined) + addable(b, joined),
        joined.contains(group.0) ==> addable(seq![group], joined) == Seq::<Seq<char>>::empty(),
        !joined.contains(group.0) ==> addable(seq![group], joined) == seq![group.1],
    decreases b.len(),
{
    reveal_with_fuel(addable, 2);
    assert(seq![group].drop_last() =~= Seq::<(u128, Seq<char>)>::empty());
    assert(Seq::<Seq<char>>::empty().push(group.1) =~= seq![group.1]);
    if b.len() > 0 {
        law_offered_groups_stay_in_order(a, b.drop_last(), group, joined);
        assert((a + b).drop_last() =~= a + b.drop_last());
        assert(addable(a + b, joined) =~= addable(a, joined) + addable(b, joined));
    } else {
        assert(a + b =~= a);
        assert(addable(a + b, joined) =~= addable(a, joined) + addable(b, joined));
    }
}

/// Every visible group that has a name is among the choices, once, in the order of the search: the
/// choices of entries one after the other are those of the first and then those of the others.
pub proof fn law_group_choices(a: Seq<Entry>, b: Seq<Entry>, entry: Entry)
    ensures
        named_entries(a + b) == named_entries(a) + named_entries(b),
        entry@.text(Attribute::Name) is Some ==> named_entries(seq![entry]) == seq![
            (entry.id, entry@.text(Attribute::Name)->0),
        ],
        entry@.text(Attribute::Name) is None ==> named_entries(seq![entry]) == Seq::<
            (u128, Seq<char>),
        >::empty(),
    decreases b.len(),
{
    reveal_with_fuel(named_entries, 2);
    assert(seq![entry].drop_last() =~= Seq::<Entry>::empty());
    if entry@.text(Attribute::Name) is Some {
        assert(named_entries(seq![entry]) =~= seq![
            (entry.id, entry@.text(Attribute::Name)->0),
        ]);
    }
    if b.len() > 0 {
        law_group_choices(a, b.drop_last(), entry);
        assert((a + b).drop_last() =~= a + b.drop_last());
        assert(named_entries(a + b) =~= named_entries(a) + named_entries(b));
    } else {
        assert(a + b =~= a);
        assert(named_entries(a + b) =~= named_entries(a) + named_entries(b));
    }
}

/// If every visible group has a name, there are as many choices as groups.
pub proof fn law_no_group_is_left_out(entries: Seq<Entry>)
    requires
        forall|i: int| 0 <= i < entries.len() ==> (#[trigger] entries[i])@.text(Attribute::Name)
            is Some,
    ensures
        named_entries(entries).len() == entries.len(),
        forall|i: int|
            0 <= i < entries.len() ==> #[trigger] named_entries(entries)[i] == (
                entries[i].id,
                entries[i]@.text(Attribute::Name)->0,
            ),
    decreases entries.len(),
{
    if entries.len() > 0 {
        let rest = entries.drop_last();
        assert forall|i: int| 0 <= i < rest.len() implies (#[trigger] rest[i])@.text(
            Attribute::Name,
        ) is Some by {
            assert(rest[i] == entries[i]);
        }
        law_no_group_is_left_out(rest);
        assert(entries.last() == entries[entries.len() - 1]);
        assert forall|i: int| 0 <= i < entries.len() implies #[trigger] named_entries(entries)[i]
            == (entries[i].id, entries[i]@.text(Attribute::Name)->0) by {
            if i < rest.len() {
                assert(named_entries(entries)[i] == named_entries(rest)[i]);
                assert(rest[i] == entries[i]);
            }
        }
    }
}

/// The columns of the list of persons: by displayed name and by security principal name under those
/// columns, by name under any other, and by name if the browser asks for none.
pub proof fn law_person_columns(sort: Seq<char>, params: ListParamsView)
    ensures
        sort == "displayname"@ <==> person_sort_attribute(sort) == Attribute::DisplayName,
        sort == "spn"@ <==> person_sort_attribute(sort) == Attribute::Spn,
        sort != "displayname"@ && sort != "spn"@ <==> person_sort_attribute(sort)
            == Attribute::Name,
        person_sort_attribute("name"@) == Attribute::Name,
        params.sort is None ==> person_sort_attribute(normalised(params, "name"@).sort)
            == Attribute::Name,
        params.sort is Some && params.sort->0.len() == 0 ==> person_sort_attribute(
            normalised(params, "name"@).sort,
        ) == Attribute::Name,
{
    reveal_strlit("displayname");
    reveal_strlit("spn");
    reveal_strlit("name");
    assert("displayname"@.len() == 11 && "spn"@.len() == 3 && "name"@.len() == 4);
}

/// What is read of a person, each attribute once and nothing else. All that is saved is read.
pub proof fn law_person_attributes(a: Attribute)
    ensures
        person_attribute_list().contains(a) <==> a == Attribute::Uuid || a == Attribute::Description
            || a == Attribute::LegalName || a == Attribute::Name || a == Attribute::DisplayName
            || a == Attribute::Spn || a == Attribute::Mail || a == Attribute::Class || a
            == Attribute::EntryManagedBy || a == Attribute::DirectMemberOf || a
            == Attribute::AccountExpire || a == Attribute::AccountValidFrom || a
            == Attribute::SshPublicKey,
        person_attribute_list().no_duplicates(),
{
    let s = person_attribute_list();
    assert(s[0] == Attribute::Uuid && s[1] == Attribute::Description && s[2]
        == Attribute::LegalName && s[3] == Attribute::Name && s[4] == Attribute::DisplayName
        && s[5] == Attribute::Spn && s[6] == Attribute::Mail && s[7] == Attribute::Class && s[8]
        == Attribute::EntryManagedBy && s[9] == Attribute::DirectMemberOf && s[10]
        == Attribute::AccountExpire && s[11] == Attribute::AccountValidFrom && s[12]
        == Attribute::SshPublicKey);
}

/// A new person has both names and the classes of a person, a mail address exactly if the form has
/// one that is not empty, and nothing else.
pub proof fn law_new_persons(
    name: Seq<char>,
    displayname: Seq<char>,
    mail: Option<Seq<char>>,
    a: Attribute,
)
    ensures
        ({
            let attrs = new_person(name, displayname, mail);
            &&& attrs.dom().contains(Attribute::Name) && attrs[Attribute::Name]
                == NewValueView::Text(name)
            &&& attrs.dom().contains(Attribute::DisplayName) && attrs[Attribute::DisplayName]
                == NewValueView::Text(displayname)
            &&& attrs.dom().contains(Attribute::Class) && attrs[Attribute::Class]
                == NewValueView::Classes(
                seq![EntryClass::Person, EntryClass::Account, EntryClass::Object],
            )
            &&& attrs.dom().contains(Attribute::Mail) <==> mail is Some && mail->0.len() > 0
            &&& attrs.dom().contains(Attribute::Mail) ==> attrs[Attribute::Mail]
                == NewValueView::Text(mail->0)
            &&& attrs.dom().contains(a) ==> a == Attribute::Name || a == Attribute::DisplayName || a
                == Attribute::Class || a == Attribute::Mail
        }),
{
}

/// Saving a person always writes both names of the form, and what it writes makes the person what
/// the form says.
pub proof fn law_saved_person_is_as_in_the_form(
    name: Seq<char>,
    displayname: Seq<char>,
    legalname: Option<Seq<char>>,
    description: Option<Seq<char>>,
    current_legalname: Option<Seq<char>>,
    current_description: Option<Seq<char>>,
)
    ensures
        ({
            let attrs = saved_person(
                name,
                displayname,
                legalname,
                description,
                current_legalname,
                current_description,
            );
            &&& attrs.dom().contains(Attribute::Name) && attrs[Attribute::Name] == Some(name)
            &&& attrs.dom().contains(Attribute::DisplayName) && attrs[Attribute::DisplayName]
                == Some(displayname)
            &&& legalname == (if attrs.dom().contains(Attribute::LegalName) {
                attrs[Attribute::LegalName]
            } else {
                current_legalname
            })
            &&& description == (if attrs.dom().contains(Attribute::Description) {
                attrs[Attribute::Description]
            } else {
                current_description
            })
        }),
{
}

/// Mail addresses and attributes of a person are changed on that person and nowhere else, within
/// the class of persons, and every such change ends at the page of the person with failures as
/// notifications.
pub proof fn law_person_changes(
    person: u128,
    a: Attribute,
    value: Seq<char>,
    id: EntryIdView,
    attribute: Attribute,
    before: Set<Seq<char>>,
)
    ensures
        ({
            let own = EntryIdView::Named(uuid_text(person));
            let add = person_mail_addition(person, value);
            let remove = person_mail_removal(person, value);
            let set = person_setting(person, a, value);
            let clear = person_purge(person, a);
            let page = SuccessView::GoTo(LocationView::Path(person_path(person)));
            &&& values_after(add.request, own, Attribute::Mail, before) == before.insert(value)
            &&& values_after(remove.request, own, Attribute::Mail, before) == before.remove(value)
            &&& values_after(set.request, own, a, before) == set![value]
            &&& values_after(clear.request, own, a, before) == Set::<Seq<char>>::empty()
            &&& id != own || attribute != Attribute::Mail ==> values_after(
                add.request,
                id,
                attribute,
                before,
            ) == before && values_after(remove.request, id, attribute, before) == before
            &&& id != own || attribute != a ==> values_after(set.request, id, attribute, before)
                == before && values_after(clear.request, id, attribute, before) == before
            &&& restricted_to(add.request) == Some(EntryClass::Person) && restricted_to(
                remove.request,
            ) == Some(EntryClass::Person) && restricted_to(set.request) == Some(EntryClass::Person)
                && restricted_to(clear.request) == Some(EntryClass::Person)
            &&& add.success == page && remove.success == page && set.success == page
                && clear.success == page
            &&& add.failure is Toast && remove.failure is Toast && set.failure is Toast
                && clear.failure is Toast
        }),
{
    let own = EntryIdView::Named(uuid_text(person));
    law_writes_change_one_attribute(
        own,
        Attribute::Mail,
        value,
        EntryClass::Person,
        id,
        attribute,
        before,
    );
    law_writes_change_one_attribute(own, a, value, EntryClass::Person, id, attribute, before);
}

/// Joining and leaving a group changes the members of that group by this person and nothing else,
/// within the class of groups, and ends at the page of the person.
pub proof fn law_membership_changes(
    person: u128,
    group: Seq<char>,
    id: EntryIdView,
    attribute: Attribute,
    before: Set<Seq<char>>,
)
    ensures
        ({
            let held = EntryIdView::Named(group);
            let join = membership_addition(person, group);
            let leave = membership_removal(person, group);
            let page = SuccessView::GoTo(LocationView::Path(person_path(person)));
            &&& values_after(join.request, held, Attribute::Member, before) == before.insert(
                uuid_text(person),
            )
            &&& values_after(leave.request, held, Attribute::Member, before) == before.remove(
                uuid_text(person),
            )
            &&& id != held || attribute != Attribute::Member ==> values_after(
                join.request,
                id,
                attribute,
                before,
            ) == before && values_after(leave.request, id, attribute, before) == before
            &&& restricted_to(join.request) == Some(EntryClass::Group) && restricted_to(
                leave.request,
            ) == Some(EntryClass::Group)
            &&& join.success == page && leave.success == page && join.failure is Toast
                && leave.failure is Toast
        }),
{
    law_writes_change_one_attribute(
        EntryIdView::Named(group),
        Attribute::Member,
        uuid_text(person),
        EntryClass::Group,
        id,
        attribute,
        before,
    );
}

/// An end of the window of an account is written exactly if there is a timestamp, to that attribute
/// of that person and no other; either way the page of the person is shown.
pub proof fn law_validity_changes(
    person: u128,
    end: Attribute,
    timestamp: Option<Seq<char>>,
    id: EntryIdView,
    attribute: Attribute,
    before: Set<Seq<char>>,
)
    ensures
        ({
            let plan = validity_plan(person, end, timestamp);
            let own = EntryIdView::Named(uuid_text(person));
            let page = SuccessView::GoTo(LocationView::Path(person_path(person)));
            &&& plan is Submit <==> timestamp is Some
            &&& plan is Submit ==> values_after(plan->Submit_0.request, own, end, before) == set![
                timestamp->0,
            ]
            &&& plan is Submit && (id != own || attribute != end) ==> values_after(
                plan->Submit_0.request,
                id,
                attribute,
                before,
            ) == before
            &&& plan is Submit ==> restricted_to(plan->Submit_0.request) == Some(EntryClass::Person)
                && plan->Submit_0.success == page && plan->Submit_0.failure is Toast
            &&& plan is Finish ==> plan->Finish_0 == page
        }),
{
    if timestamp is Some {
        law_person_changes(person, end, timestamp->0, id, attribute, before);
    }
}

/// A change that ends at the list of persons makes its write, goes to the list, and shows failures
/// as notifications. A person is named in requests by their identifier.
pub proof fn law_changes_back_to_persons(request: WriteRequestView, person: u128)
    ensures
        back_to_persons(request).request == request,
        back_to_persons(request).success is GoTo,
        back_to_persons(request).success->GoTo_0 == LocationView::Page(Urls::Admin),
        back_to_persons(request).failure is Toast,
        person_id(person) is Named && person_id(person)->Named_0 == uuid_text(person),
{
}

/// The read of a person with all that its page shows.
pub open spec fn person_entry_read(person: u128) -> EntryReadView {
    EntryReadView {
        id: person_id(person),
        class: EntryClass::Person,
        query: GetQueryView { ext_access_check: true, ..plain_query(person_attribute_list()) },
    }
}

/// The search for the persons of a page of the list.
pub open spec fn person_list_search(p: PaginationView) -> SearchView {
    SearchView {
        filter: listing_filter(EntryClass::Person, p.q, Attribute::Name, Attribute::DisplayName),
        query: GetQueryView {
            attributes: person_attribute_list(),
            ext_access_check: true,
            sort_by: Some(person_sort_attribute(p.sort)),
            sort_order: Some(list_order(p.order)),
            start_index: non_zero(p.start_index() as u64),
            count: non_zero(p.per_page as u64),
        },
    }
}

/// The search for the groups that a person can be added to.
pub open spec fn group_choices() -> SearchView {
    SearchView {
        filter: SearchFilterView::ClassIs(EntryClass::Group),
        query: GetQueryView {
            sort_by: Some(Attribute::Name),
            ..plain_query(seq![Attribute::Name])
        },
    }
}

/// Creating a person.
pub open spec fn person_creation(
    name: Seq<char>,
    displayname: Seq<char>,
    mail: Option<Seq<char>>,
) -> MutationView {
    back_to_persons(WriteRequestView::Create(new_person(name, displayname, mail)))
}

/// Deleting a person.
pub open spec fn person_deletion(person: u128) -> MutationView {
    back_to_persons(
        WriteRequestView::Delete(
            EntryFilterView::ClassAndId(EntryClass::Person, uuid_text(person)),
        ),
    )
}

/// Adding an SSH public key to a person.
pub open spec fn ssh_key_addition(person: u128, tag: Seq<char>, key: Seq<char>) -> MutationView {
    reloading(
        WriteRequestView::CreateSshKey {
            id: person_id(person),
            tag,
            key,
            filter: EntryFilterView::Class(EntryClass::Account),
        },
        person_path(person),
    )
}

/// Removing an SSH public key from a person.
pub open spec fn ssh_key_removal(person: u128, tag: Seq<char>) -> MutationView {
    reloading(
        removing(person_id(person), Attribute::SshPublicKey, tag, EntryClass::Account),
        person_path(person),
    )
}

/// The list of persons finds the persons whose name or displayed name contains the search term,
/// from the first row of the page on and as many as the page has, with what the viewer may do with
/// each; in the order and by the column that the pager says.
pub proof fn law_person_list_search(
    p: PaginationView,
    classes: Set<EntryClass>,
    texts: Map<Attribute, Seq<char>>,
)
    requires
        p.wf(),
        p.start_index() <= u64::MAX,
    ensures
        ({
            let search = person_list_search(p);
            &&& finds(search.filter, classes, texts) <==> classes.contains(EntryClass::Person) && (
            p.q.len() == 0 || texts.dom().contains(Attribute::Name) && contains_text(
                texts[Attribute::Name],
                p.q,
            ) || texts.dom().contains(Attribute::DisplayName) && contains_text(
                texts[Attribute::DisplayName],
                p.q,
            ))
            &&& search.query.ext_access_check
            &&& search.query.attributes == person_attribute_list()
            &&& search.query.start_index is Some && search.query.start_index->0 == (p.page - 1)
                * p.per_page + 1
            &&& search.query.count is Some && search.query.count->0 == p.per_page
            &&& p.sort == "displayname"@ <==> search.query.sort_by == Some(Attribute::DisplayName)
            &&& p.sort == "spn"@ <==> search.query.sort_by == Some(Attribute::Spn)
            &&& p.sort != "displayname"@ && p.sort != "spn"@ <==> search.query.sort_by == Some(
                Attribute::Name,
            )
            &&& p.order == "desc"@ <==> search.query.sort_order == Some(SortOrder::Descending)
            &&& p.order != "desc"@ <==> search.query.sort_order == Some(SortOrder::Ascending)
        }),
{
    law_lists_find_what_contains_the_term(
        EntryClass::Person,
        p.q,
        Attribute::Name,
        Attribute::DisplayName,
        classes,
        texts,
    );
    reveal_strlit("displayname");
    reveal_strlit("spn");
    assert("displayname"@.len() == 11 && "spn"@.len() == 3);
    vstd::arithmetic::mul::lemma_mul_nonnegative(p.page - 1, p.per_page);
}

/// The page of a person reads that person, by identifier and among persons only, with what the
/// viewer may do with them; the groups on offer are all groups, with their names and by name,
/// without a limit.
pub proof fn law_person_page_reads_its_person(
    person: u128,
    classes: Set<EntryClass>,
    texts: Map<Attribute, Seq<char>>,
)
    ensures
        person_entry_read(person).id == EntryIdView::Named(uuid_text(person)),
        person_entry_read(person).class == EntryClass::Person,
        person_entry_read(person).query.ext_access_check,
        person_entry_read(person).query.attributes == person_attribute_list(),
        person_entry_read(person).query.start_index is None,
        person_entry_read(person).query.count is None,
        finds(group_choices().filter, classes, texts) <==> classes.contains(EntryClass::Group),
        group_choices().query.attributes == seq![Attribute::Name],
        group_choices().query.sort_by == Some(Attribute::Name),
        group_choices().query.sort_order is None,
        group_choices().query.start_index is None && group_choices().query.count is None,
{
}

/// Persons are created with what the form says and deleted by class and identifier, and different
/// persons are deleted by different requests; both end at the list of persons.
pub proof fn law_persons_come_and_go(
    person: u128,
    other: u128,
    name: Seq<char>,
    displayname: Seq<char>,
    mail: Option<Seq<char>>,
)
    ensures
        person_creation(name, displayname, mail).request is Create,
        person_creation(name, displayname, mail).request->Create_0 == new_person(
            name,
            displayname,
            mail,
        ),
        person_deletion(person).request is Delete,
        person_deletion(person).request->Delete_0 is ClassAndId,
        person_deletion(person).request->Delete_0->ClassAndId_0 == EntryClass::Person,
        person_deletion(person).request->Delete_0->ClassAndId_1 == uuid_text(person),
        person_deletion(person).request == person_deletion(other).request ==> person == other,
        person_creation(name, displayname, mail).success == person_deletion(person).success,
        person_deletion(person).success == SuccessView::GoTo(LocationView::Page(Urls::Admin)),
        person_creation(name, displayname, mail).failure is Toast && person_deletion(person).failure
            is Toast,
{
    if person_deletion(person).request == person_deletion(other).request {
        law_uuid_text_is_injective(person, other);
    }
}

/// An SSH public key is added under its tag and removed by it, on the person and among accounts,
/// and both end at the page of the person.
pub proof fn law_ssh_keys_go_by_their_tag(
    person: u128,
    tag: Seq<char>,
    key: Seq<char>,
    id: EntryIdView,
    attribute: Attribute,
    before: Set<Seq<char>>,
)
    ensures
        ({
            let own = EntryIdView::Named(uuid_text(person));
            let add = ssh_key_addition(person, tag, key);
            let remove = ssh_key_removal(person, tag);
            let page = SuccessView::GoTo(LocationView::Path(person_path(person)));
            &&& add.request is CreateSshKey
            &&& add.request->CreateSshKey_id == own
            &&& add.request->CreateSshKey_tag == tag
            &&& add.request->CreateSshKey_key == key
            &&& add.request->CreateSshKey_filter == EntryFilterView::Class(EntryClass::Account)
            &&& values_after(remove.request, own, Attribute::SshPublicKey, before) == before.remove(
                tag,
            )
            &&& id != own || attribute != Attribute::SshPublicKey ==> values_after(
                remove.request,
                id,
                attribute,
                before,
            ) == before
            &&& restricted_to(remove.request) == Some(EntryClass::Account)
            &&& add.success == page && remove.success == page && add.failure is Toast
                && remove.failure is Toast
        }),
{
    law_writes_change_one_attribute(
        EntryIdView::Named(uuid_text(person)),
        Attribute::SshPublicKey,
        tag,
        EntryClass::Account,
        id,
        attribute,
        before,
    );
}

} // verus!
