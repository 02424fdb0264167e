//! The views of groups: the list, the page of a group, and the changes to it.
use crate::attribute::{AttrMap, Attribute, EntryClass};
use crate::entry::{law_any_right_is_enough, reference_count, text_of, Access, Entry, EntryView};
use crate::ident::{
    group_path, group_view_reload, law_uuid_text_is_injective, uuid_text, uuid_to_string,
};
use crate::listing::{
    collect_infos, cut_page, info_from_read, law_rows_of_results, list_page, listed, page_slice,
    read_info, record_infos, ListPartial, Record,
};
use crate::pagination::{normalised, ListParamsView, Pagination, PaginationView};
use crate::reply::{
    form_page, form_shown, refusal, reload_after, reloading, require_token, FailureStyle, Location,
    LocationView, Mutation, MutationView, OperationError, Page, Reply, ReplyView, Success,
    SuccessView, Urls,
};
use crate::request::{
    append_value, appending, contains_text, finds, law_lists_find_what_contains_the_term,
    law_writes_change_one_attribute, list_filter, listing_filter, plain_query, purge_values,
    purging, query_for, remove_value, removing, restricted_to, reverses, set_value, setting,
    values_after, EntryFilter, EntryFilterView, EntryId, EntryIdView, EntryPut, EntryPutView,
    EntryRead, EntryReadView, GetQuery, GetQueryView, NewValue, NewValueView, PutOutcome, Search,
    SearchView, ServerAnswer, ServerAnswerView, ServerCall, ServerCallView, SortOrder, WriteRequest,
    WriteRequestView,
};
use crate::text::{
    decimal, law_other_texts_are_not_numbers, law_written_numbers_are_read, parse_u32, parsed_u32,
    same_optional_text, same_text, trim, trimmed,
};
use vstd::prelude::*;
use vstd::string::*;

verus! {

/// The largest number of groups that a list takes into account.
pub const MAX_GROUPS: u64 = 1000;

/// The attributes of a group that the views show.
pub open spec fn group_attribute_list() -> Seq<Attribute> {
    seq![
        Attribute::Uuid,
        Attribute::Name,
        Attribute::Description,
        Attribute::Member,
        Attribute::Mail,
        Attribute::EntryManagedBy,
        Attribute::DirectMemberOf,
    ]
}

/// The attributes of a group that the views show.
pub fn group_attributes() -> (r: Vec<Attribute>)
    ensures
        r@ == group_attribute_list(),
{
    let r: Vec<Attribute> = vec![
        Attribute::Uuid,
        Attribute::Name,
        Attribute::Description,
        Attribute::Member,
        Attribute::Mail,
        Attribute::EntryManagedBy,
        Attribute::DirectMemberOf,
    ];
    assert(r@ =~= group_attribute_list());
    r
}

/// A group: what the views compute with, and the rest of what they show.
#[derive(Debug)]
pub struct Group<T> {
    pub description: Option<String>,
    pub card: T,
}

/// The identifier of a group in requests.
pub open spec fn group_id(group: u128) -> EntryIdView {
    EntryIdView::Named(uuid_text(group))
}

fn group_entry(group: u128) -> (r: EntryId)
    ensures
        r@ == group_id(group),
{
    EntryId::Named(uuid_to_string(group))
}

/// The read of a group with all that its page shows.
pub fn group_read(group: u128) -> (r: EntryRead)
    ensures
        r@ == group_entry_read(group),
        r@ == (EntryReadView {
            id: group_id(group),
            class: EntryClass::Group,
            query: GetQueryView {
                ext_access_check: true,
                ..plain_query(group_attribute_list())
            },
        }),
{
    let query: GetQuery = query_for(group_attributes());
    EntryRead {
        id: group_entry(group),
        class: EntryClass::Group,
        query: GetQuery { ext_access_check: true, ..query },
    }
}

/// The group that a read found and what the viewer may do with it; an answer that lacks one of
/// them is an error.
pub fn get_group_info<T, E>(read: Result<Record<T>, E>) -> (r: Result<
    (T, Access),
    OperationError<E>,
>)
    ensures
        r == read_info(read),
{
    info_from_read(read)
}

/// The content of the page of a group.
#[derive(Debug)]
pub struct GroupPartial<T, L> {
    pub group: Group<T>,
    /// What the token of the viewer says of the lock on their privileges.
    pub lock: L,
    /// Whether the viewer may change one of the attributes that the page shows.
    pub can_modify_any_attr: bool,
    pub access: Access,
}

/// The page of a group: an error of its read comes before a missing token.
pub fn view_group_view_get<T, L, E>(
    group: u128,
    is_htmx: bool,
    info: Result<(Group<T>, Access), OperationError<E>>,
    token: Result<L, E>,
) -> (r: Result<Page<GroupPartial<T, L>>, Reply<E>>)
    ensures
        match (info, token) {
            (Err(e), _) => r is Err && r->Err_0@ == ReplyView::WebError(e),
            (Ok(_), Err(e)) => r is Err && r->Err_0@ == refusal(FailureStyle::Page, e),
            (Ok(found), Ok(lock)) => {
                &&& r is Ok
                &&& r->Ok_0.push_url@ == LocationView::Path(group_path(group))
                &&& r->Ok_0.whole == !is_htmx
                &&& group_shown(r->Ok_0.partial, found, lock)
                &&& r->Ok_0.partial.group == found.0
                &&& r->Ok_0.partial.lock == lock
                &&& r->Ok_0.partial.access == found.1
                &&& r->Ok_0.partial.can_modify_any_attr == found.1.can_modify_any(
                    group_attribute_list(),
                )
            },
        },
{
    let (found, access) = match info {
        Ok(found) => found,
        Err(e) => {
            return Err(Reply::WebError(e));
        },
    };
    let lock: L = match require_token(token) {
        Ok(lock) => lock,
        Err(reply) => {
            return Err(reply);
        },
    };
    let can_modify_any_attr: bool = access.check_any(&group_attributes());
    Ok(
        Page {
            push_url: Location::Path(group_view_reload(group)),
            whole: !is_htmx,
            partial: GroupPartial { group: found, lock, can_modify_any_attr, access },
        },
    )
}

/// The attribute that a list of groups is sorted by.
pub open spec fn group_sort_attribute(sort: Seq<char>) -> Attribute {
    if sort == "description"@ {
        Attribute::Description
    } else {
        Attribute::Name
    }
}

/// The order that a list is sorted in.
pub open spec fn list_order(order: Seq<char>) -> SortOrder {
    if order == "desc"@ {
        SortOrder::Descending
    } else {
        SortOrder::Ascending
    }
}

/// The search for the groups of a list: all that match, sorted, so that the ones that the viewer
/// cannot manage can be left out before the list is cut into pages.
pub fn groups_search(pager: &Pagination) -> (r: Search)
    ensures
        r@ == group_list_search(pager@),
        r@ == (SearchView {
            filter: listing_filter(
                EntryClass::Group,
                pager@.q,
                Attribute::Name,
                Attribute::Description,
            ),
            query: GetQueryView {
                attributes: group_attribute_list(),
                ext_access_check: true,
                sort_by: Some(group_sort_attribute(pager@.sort)),
                sort_order: Some(list_order(pager@.order)),
                start_index: None,
                count: Some(MAX_GROUPS),
            },
        }),
{
    let sort_attr: Attribute = if same_text(pager.sort.as_str(), "description") {
        Attribute::Description
    } else {
        Attribute::Name
    };
    let sort_order: SortOrder = if same_text(pager.order.as_str(), "desc") {
        SortOrder::Descending
    } else {
        SortOrder::Ascending
    };
    Search {
        filter: list_filter(
            EntryClass::Group,
            &pager.q,
            Attribute::Name,
            Attribute::Description,
        ),
        query: GetQuery {
            attributes: group_attributes(),
            ext_access_check: true,
            sort_by: Some(sort_attr),
            sort_order: Some(sort_order),
            start_index: None,
            count: Some(MAX_GROUPS),
        },
    }
}

/// The groups that the viewer can manage: those of which they may change some attribute.
pub open spec fn manageable<T>(groups: Seq<(T, Access)>) -> Seq<(T, Access)> {
    groups.filter(|g: (T, Access)| g.1.can_modify_any(group_attribute_list()))
}

/// The groups among the search results that the viewer can manage.
pub open spec fn manageable_records<T>(records: Seq<Record<T>>) -> Seq<(T, Access)> {
    manageable(record_infos(records))
}

fn keep_manageable<T>(groups: Vec<(T, Access)>) -> (r: Vec<(T, Access)>)
    ensures
        r@ == manageable(groups@),
{
    let ghost all = groups@;
    let ghost keep = |g: (T, Access)| g.1.can_modify_any(group_attribute_list());
    let attributes: Vec<Attribute> = group_attributes();
    let mut out: Vec<(T, Access)> = Vec::new();
    proof {
        reveal(Seq::filter);
        assert(all.take(0).filter(keep) =~= Seq::<(T, Access)>::empty());
    }
    for group in it: groups
        invariant
            it.seq() == all,
            attributes@ == group_attribute_list(),
            keep == (|g: (T, Access)| g.1.can_modify_any(group_attribute_list())),
            out@ == all.take(it.index() as int).filter(keep),
    {
        proof {
            reveal(Seq::filter);
            assert(all.take(it.index() + 1).drop_last() =~= all.take(it.index() as int));
        }
        if group.1.check_any(&attributes) {
            out.push(group);
        }
    }
    assert(all.take(all.len() as int) =~= all);
    out
}

/// The rows of a page of the list of groups, and the number of rows of all pages: the groups that
/// the viewer can manage, which hides built-in groups that the viewer has no rights on. An error
/// of the search is passed on.
pub fn get_groups_info<T, E>(found: Result<Vec<Record<T>>, E>, pager: &Pagination) -> (r: Result<
    (Vec<(T, Access)>, u64),
    OperationError<E>,
>)
    requires
        pager.page >= 1,
        (pager.page - 1) * pager.per_page <= u64::MAX,
    ensures
        match found {
            Ok(records) => {
                &&& r is Ok
                &&& r->Ok_0.0@ == page_slice(
                    manageable_records(records@),
                    pager@.page,
                    pager@.per_page,
                )
                &&& r->Ok_0.1 == manageable_records(records@).len()
            },
            Err(e) => r == Err::<(Vec<(T, Access)>, u64), OperationError<E>>(
                OperationError::Server(e),
            ),
        },
{
    match found {
        Ok(records) => {
            let groups: Vec<(T, Access)> = keep_manageable(collect_infos(records));
            let total: u64 = groups.len() as u64;
            Ok((cut_page(groups, pager.page, pager.per_page), total))
        },
        Err(e) => Err(OperationError::Server(e)),
    }
}

/// The page of the list of groups: an error of the search comes before a missing token.
pub fn view_groups_get<T, L, E>(
    is_htmx: bool,
    info: Result<(Vec<(T, Access)>, u64), OperationError<E>>,
    pager: Pagination,
    token: Result<L, E>,
) -> (r: Result<Page<ListPartial<T, L>>, Reply<E>>)
    ensures
        listed("/ui/admin/groups"@, is_htmx, info, pager@, token, r),
{
    list_page("/ui/admin/groups", is_htmx, info, pager, token)
}

/// The page with the form for a new group. The token says whether the privileges of the viewer are
/// locked.
pub fn view_group_create_get<L, E>(is_htmx: bool, token: Result<L, E>) -> (r: Result<
    Page<L>,
    Reply<E>,
>)
    ensures
        form_shown("/ui/admin/groups/create"@, is_htmx, token, r),
{
    form_page("/ui/admin/groups/create", is_htmx, token)
}

/// The form for a new group.
#[derive(Clone, Debug)]
pub struct CreateGroupForm {
    pub name: String,
    pub description: Option<String>,
}

/// The attributes of a new group; a blank description is left out.
pub open spec fn new_group(name: Seq<char>, description: Option<Seq<char>>) -> Map<
    Attribute,
    NewValueView,
> {
    let named = Map::<Attribute, NewValueView>::empty().insert(
        Attribute::Name,
        NewValueView::Text(name),
    );
    let described = match description {
        Some(d) => if d.len() > 0 {
            named.insert(Attribute::Description, NewValueView::Text(d))
        } else {
            named
        },
        None => named,
    };
    described.insert(
        Attribute::Class,
        NewValueView::Classes(seq![EntryClass::Group, EntryClass::Object]),
    )
}

/// A change that ends at the list of groups.
pub open spec fn back_to_groups(request: WriteRequestView) -> MutationView {
    MutationView {
        request,
        success: SuccessView::GoTo(LocationView::Page(Urls::AdminGroups)),
        failure: FailureStyle::Toast,
    }
}

/// Creates a group, then goes to the list of groups.
pub fn create_group(form: CreateGroupForm) -> (r: Mutation)
    ensures
        r@ == group_creation(form.name@, form.description.deep_view()),
        r@ == back_to_groups(
            WriteRequestView::Create(new_group(form.name@, form.description.deep_view())),
        ),
{
    let mut attrs: AttrMap<NewValue> = AttrMap::new();
    attrs = attrs.with(Attribute::Name, NewValue::Text(form.name));
    if let Some(description) = form.description {
        if !description.as_str().is_empty() {
            attrs = attrs.with(Attribute::Description, NewValue::Text(description));
        }
    }
    let classes: Vec<EntryClass> = vec![EntryClass::Group, EntryClass::Object];
    assert(classes@ =~= seq![EntryClass::Group, EntryClass::Object]);
    attrs = attrs.with(Attribute::Class, NewValue::Classes(classes));
    Mutation {
        request: WriteRequest::Create(attrs),
        success: Success::GoTo(Location::Page(Urls::AdminGroups)),
        failure: FailureStyle::Toast,
    }
}

/// Deletes a group, then goes to the list of groups.
pub fn delete_group(group: u128) -> (r: Mutation)
    ensures
        r@ == group_deletion(group),
        r@ == back_to_groups(
            WriteRequestView::Delete(
                EntryFilterView::ClassAndId(EntryClass::Group, uuid_text(group)),
            ),
        ),
{
    Mutation {
        request: WriteRequest::Delete(
            EntryFilter::ClassAndId(EntryClass::Group, uuid_to_string(group)),
        ),
        success: Success::GoTo(Location::Page(Urls::AdminGroups)),
        failure: FailureStyle::Toast,
    }
}

/// The form for the attributes of a group.
#[derive(Clone, Debug)]
pub struct SaveGroupForm {
    pub account_name: String,
    pub description: Option<String>,
}

/// The attributes to write when a group is saved: the name, and the description if it differs from
/// the current one, where an absent description unsets it.
pub open spec fn saved_group(
    name: Seq<char>,
    description: Option<Seq<char>>,
    current: Option<Seq<char>>,
) -> Map<Attribute, Option<Seq<char>>> {
    let named = Map::<Attribute, Option<Seq<char>>>::empty().insert(Attribute::Name, Some(name));
    if current != description {
        named.insert(Attribute::Description, description)
    } else {
        named
    }
}

/// Saves the attributes of a group, given the group as it is; without it, the error is the answer.
pub fn edit_group<T, E>(
    group: u128,
    form: SaveGroupForm,
    info: Result<(Group<T>, Access), OperationError<E>>,
) -> (r: Result<EntryPut, Reply<E>>)
    ensures
        match info {
            Ok(found) => r is Ok && r->Ok_0@ == (EntryPutView {
                id: group,
                attrs: saved_group(
                    form.account_name@,
                    form.description.deep_view(),
                    found.0.description.deep_view(),
                ),
            }),
            Err(e) => r is Err && r->Err_0@ == ReplyView::WebError(e),
        },
{
    match info {
        Ok(found) => {
            let mut attrs: AttrMap<Option<String>> = AttrMap::new();
            attrs = attrs.with(Attribute::Name, Some(form.account_name));
            if !same_optional_text(&found.0.description, &form.description) {
                attrs = attrs.with(Attribute::Description, form.description);
            }
            Ok(EntryPut { id: group, attrs })
        },
        Err(e) => Err(Reply::WebError(e)),
    }
}

/// The answer once the attributes of a group were submitted.
pub fn edit_group_reply<E>(outcome: PutOutcome<E>) -> (r: Reply<E>)
    ensures
        r@ == (match outcome {
            PutOutcome::Unencodable => ReplyView::ErrorPage(OperationError::<E>::Backend),
            PutOutcome::Refused(e) => ReplyView::ErrorPage(OperationError::Server(e)),
            PutOutcome::Written => ReplyView::Done(SuccessView::SavedToast),
        }),
{
    match outcome {
        PutOutcome::Unencodable => Reply::ErrorPage(OperationError::Backend),
        PutOutcome::Refused(e) => Reply::ErrorPage(OperationError::Server(e)),
        PutOutcome::Written => Reply::Done(Success::SavedToast),
    }
}

/// The form with a member to add or remove.
#[derive(Clone, Debug)]
pub struct AddMemberForm {
    pub member: String,
}

/// How far adding a member has come.
#[derive(Clone, Copy, Debug, PartialEq, Eq, Structural)]
pub enum AddMemberStage {
    /// The members of the group are to be counted.
    CountBefore,
    /// The member is to be added.
    Append { old_count: usize },
    /// The members of the group are to be counted again.
    CountAfter { old_count: usize },
    /// The name of the new member is to be looked up.
    LookUp,
}

/// Adding a member to a group. The server adds a member that a group already has without an error,
/// so the members are counted before and after.
#[derive(Debug)]
pub struct AddMember {
    pub group_uuid: u128,
    pub member: String,
    pub stage: AddMemberStage,
}

/// Adding a member to a group, as a mathematical value.
pub struct AddMemberView {
    pub group_uuid: u128,
    pub member: Seq<char>,
    pub stage: AddMemberStage,
}

impl View for AddMember {
    type V = AddMemberView;

    open spec fn view(&self) -> AddMemberView {
        AddMemberView {
            group_uuid: self.group_uuid,
            member: self.member@,
            stage: self.stage,
        }
    }
}

/// Where adding a member stands after an answer of the server.
#[derive(Debug)]
pub enum AddMemberProgress<E> {
    /// Another call is due.
    Next(AddMember),
    /// The browser is answered.
    Finish(Reply<E>),
}

/// Where adding a member stands, as a mathematical value.
pub enum AddMemberProgressView<E> {
    Next(AddMemberView),
    Finish(ReplyView<E>),
}

impl<E> View for AddMemberProgress<E> {
    type V = AddMemberProgressView<E>;

    open spec fn view(&self) -> AddMemberProgressView<E> {
        match self {
            AddMemberProgress::Next(s) => AddMemberProgressView::Next(s@),
            AddMemberProgress::Finish(r) => AddMemberProgressView::Finish(r@),
        }
    }
}

impl AddMemberView {
    /// The call that is due.
    pub open spec fn call(self) -> ServerCallView {
        match self.stage {
            AddMemberStage::CountBefore | AddMemberStage::CountAfter { .. } => {
                ServerCallView::Read(
                    EntryReadView {
                        id: group_id(self.group_uuid),
                        class: EntryClass::Group,
                        query: plain_query(seq![Attribute::Member]),
                    },
                )
            },
            AddMemberStage::Append { .. } => {
                ServerCallView::Write(
                    appending(
                        group_id(self.group_uuid),
                        Attribute::Member,
                        self.member,
                        EntryClass::Group,
                    ),
                )
            },
            AddMemberStage::LookUp => {
                ServerCallView::Read(
                    EntryReadView {
                        id: EntryIdView::Named(self.member),
                        class: EntryClass::Object,
                        query: plain_query(seq![Attribute::Spn]),
                    },
                )
            },
        }
    }

    /// Whether an answer is one to the call that is due.
    pub open spec fn expects<E>(self, answer: ServerAnswerView<E>) -> bool {
        (self.call() is Read) == (answer is Read)
    }

    /// Where adding the member stands after the answer to the call that is due.
    pub open spec fn after<E>(self, answer: ServerAnswerView<E>) -> AddMemberProgressView<E> {
        match answer {
            ServerAnswerView::Read(Err(e)) | ServerAnswerView::Written(Err(e)) => {
                AddMemberProgressView::Finish(ReplyView::ErrorPage(OperationError::Server(e)))
            },
            ServerAnswerView::Written(Ok(_)) => {
                let old_count = self.stage->Append_old_count;
                AddMemberProgressView::Next(
                    AddMemberView { stage: AddMemberStage::CountAfter { old_count }, ..self },
                )
            },
            ServerAnswerView::Read(Ok(entry)) => {
                let count = entry.reference_count(Attribute::Member);
                match self.stage {
                    AddMemberStage::CountBefore => {
                        AddMemberProgressView::Next(
                            AddMemberView {
                                stage: AddMemberStage::Append { old_count: count as usize },
                                ..self
                            },
                        )
                    },
                    AddMemberStage::CountAfter { old_count } => {
                        if count == old_count + 1 {
                            AddMemberProgressView::Next(
                                AddMemberView { stage: AddMemberStage::LookUp, ..self },
                            )
                        } else {
                            AddMemberProgressView::Finish(
                                ReplyView::ErrorToast(OperationError::MemberAlreadyExists),
                            )
                        }
                    },
                    _ => {
                        match entry.text(Attribute::Spn) {
                            Some(spn) => {
                                AddMemberProgressView::Finish(
                                    ReplyView::MemberEntry {
                                        group_uuid: self.group_uuid,
                                        member_name: spn,
                                        can_edit_member: true,
                                    },
                                )
                            },
                            None => {
                                AddMemberProgressView::Finish(
                                    ReplyView::ErrorToast(OperationError::MemberAlreadyExists),
                                )
                            },
                        }
                    },
                }
            },
        }
    }
}

/// Starts adding a member to a group.
pub fn add_member(group: u128, form: AddMemberForm) -> (r: AddMember)
    ensures
        r@ == (AddMemberView {
            group_uuid: group,
            member: form.member@,
            stage: AddMemberStage::CountBefore,
        }),
{
    AddMember { group_uuid: group, member: form.member, stage: AddMemberStage::CountBefore }
}

impl AddMember {
    /// The call that is due.
    pub fn call(&self) -> (r: ServerCall)
        ensures
            r@ == self@.call(),
    {
        match self.stage {
            AddMemberStage::CountBefore | AddMemberStage::CountAfter { .. } => {
                let attributes: Vec<Attribute> = vec![Attribute::Member];
                assert(attributes@ =~= seq![Attribute::Member]);
                ServerCall::Read(
                    EntryRead {
                        id: group_entry(self.group_uuid),
                        class: EntryClass::Group,
                        query: query_for(attributes),
                    },
                )
            },
            AddMemberStage::Append { .. } => {
                ServerCall::Write(
                    append_value(
                        group_entry(self.group_uuid),
                        Attribute::Member,
                        self.member.clone(),
                        EntryClass::Group,
                    ),
                )
            },
            AddMemberStage::LookUp => {
                let attributes: Vec<Attribute> = vec![Attribute::Spn];
                assert(attributes@ =~= seq![Attribute::Spn]);
                ServerCall::Read(
                    EntryRead {
                        id: EntryId::Named(self.member.clone()),
                        class: EntryClass::Object,
                        query: query_for(attributes),
                    },
                )
            },
        }
    }

    /// Takes the answer to the call that is due: the next call, or the answer to the browser.
    pub fn answer<E>(self, answer: ServerAnswer<E>) -> (r: AddMemberProgress<E>)
        requires
            self@.expects(answer@),
        ensures
            r@ == self@.after(answer@),
    {
        let entry: Entry = match answer {
            ServerAnswer::Read(Err(e)) => {
                return AddMemberProgress::Finish(Reply::ErrorPage(OperationError::Server(e)));
            },
            ServerAnswer::Written(Err(e)) => {
                return AddMemberProgress::Finish(Reply::ErrorPage(OperationError::Server(e)));
            },
            ServerAnswer::Written(Ok(_)) => {
                return match self.stage {
                    AddMemberStage::Append { old_count } => {
                        AddMemberProgress::Next(
                            AddMember { stage: AddMemberStage::CountAfter { old_count }, ..self },
                        )
                    },
                    _ => AddMemberProgress::Next(self),
                };
            },
            ServerAnswer::Read(Ok(entry)) => entry,
        };
        match self.stage {
            AddMemberStage::CountBefore => {
                let old_count: usize = reference_count(&entry, Attribute::Member);
                AddMemberProgress::Next(
                    AddMember { stage: AddMemberStage::Append { old_count }, ..self },
                )
            },
            AddMemberStage::CountAfter { old_count } => {
                let new_count: usize = reference_count(&entry, Attribute::Member);
                if new_count > 0 && new_count - 1 == old_count {
                    AddMemberProgress::Next(AddMember { stage: AddMemberStage::LookUp, ..self })
                } else {
                    AddMemberProgress::Finish(
                        Reply::ErrorToast(OperationError::MemberAlreadyExists),
                    )
                }
            },
            _ => match text_of(&entry, Attribute::Spn) {
                Some(spn) => AddMemberProgress::Finish(
                    Reply::MemberEntry {
                        group_uuid: self.group_uuid,
                        member_name: spn,
                        can_edit_member: true,
                    },
                ),
                None => AddMemberProgress::Finish(
                    Reply::ErrorToast(OperationError::MemberAlreadyExists),
                ),
            },
        }
    }
}

/// How far a stage is from the first one.
pub open spec fn stage_rank(stage: AddMemberStage) -> nat {
    match stage {
        AddMemberStage::CountBefore => 0,
        AddMemberStage::Append { .. } => 1,
        AddMemberStage::CountAfter { .. } => 2,
        AddMemberStage::LookUp => 3,
    }
}

/// Adding a member goes forward from stage to stage and writes in one of them only, so it takes at
/// most four calls and adds the member at most once; it stays with its group and its member.
pub proof fn law_add_member_advances<E>(s: AddMemberView, answer: ServerAnswerView<E>)
    requires
        s.expects(answer),
    ensures
        s.call() is Write <==> stage_rank(s.stage) == 1,
        match s.after(answer) {
            AddMemberProgressView::Next(t) => stage_rank(t.stage) == stage_rank(s.stage) + 1
                && t.group_uuid == s.group_uuid && t.member == s.member,
            AddMemberProgressView::Finish(_) => true,
        },
        stage_rank(s.stage) == 3 ==> s.after(answer) is Finish,
{
}

/// An error of the server at any stage ends adding a member with an error page.
pub proof fn law_add_member_stops_at_errors<E>(s: AddMemberView, error: E)
    ensures
        s.after(ServerAnswerView::Read(Err(error))) == AddMemberProgressView::Finish(
            refusal(FailureStyle::Page, error),
        ),
        s.after(ServerAnswerView::Written(Err(error))) == AddMemberProgressView::Finish(
            refusal(FailureStyle::Page, error),
        ),
{
}

/// The answer to adding a member, from the group as it was before and after, and the entry of the
/// member: the row of a new member if the group grew by one member whose name can be shown, and
/// otherwise the notification that the group has the member already.
pub open spec fn add_member_reply<E>(
    group: u128,
    before: EntryView,
    after: EntryView,
    member: EntryView,
) -> ReplyView<E> {
    if after.reference_count(Attribute::Member) == before.reference_count(Attribute::Member) + 1
        && member.text(Attribute::Spn) is Some {
        ReplyView::MemberEntry {
            group_uuid: group,
            member_name: member.text(Attribute::Spn)->0,
            can_edit_member: true,
        }
    } else {
        ReplyView::ErrorToast(OperationError::MemberAlreadyExists)
    }
}

/// Where adding a member ends if the server answers each call: the group before, the group after
/// the write, and the entry of the member.
pub open spec fn add_member_run<E>(
    s: AddMemberView,
    before: EntryView,
    after: EntryView,
    member: EntryView,
) -> AddMemberProgressView<E> {
    match s.after::<E>(ServerAnswerView::Read(Ok(before))) {
        AddMemberProgressView::Next(t) => match t.after::<E>(ServerAnswerView::Written(Ok(()))) {
            AddMemberProgressView::Next(u) => {
                match u.after::<E>(ServerAnswerView::Read(Ok(after))) {
                    AddMemberProgressView::Next(v) => v.after(ServerAnswerView::Read(Ok(member))),
                    end => end,
                }
            },
            end => end,
        },
        end => end,
    }
}

/// A member that was not in the group yet is shown as a new row, and a member that the group had
/// already is answered with an error notification, though the server accepts both writes.
pub proof fn law_add_member_tells_duplicates<E>(
    group: u128,
    member: Seq<char>,
    before: EntryView,
    after: EntryView,
    found: EntryView,
)
    requires
        before.reference_count(Attribute::Member) <= usize::MAX,
    ensures
        add_member_run::<E>(
            AddMemberView { group_uuid: group, member, stage: AddMemberStage::CountBefore },
            before,
            after,
            found,
        ) == AddMemberProgressView::Finish(add_member_reply::<E>(group, before, after, found)),
{
}

/// Removing a member from a group.
pub open spec fn member_removal(group: u128, member: Seq<char>) -> MutationView {
    MutationView {
        request: removing(group_id(group), Attribute::Member, member, EntryClass::Group),
        success: SuccessView::SavedToast,
        failure: FailureStyle::Page,
    }
}

/// Removes a member from a group; the browser is notified, and an error is shown as a page.
pub fn remove_member(group: u128, form: AddMemberForm) -> (r: Mutation)
    ensures
        r@ == member_removal(group, form.member@),
{
    Mutation {
        request: remove_value(
            group_entry(group),
            Attribute::Member,
            form.member,
            EntryClass::Group,
        ),
        success: Success::SavedToast,
        failure: FailureStyle::Page,
    }
}

/// The form with a mail address to add or remove.
#[derive(Clone, Debug)]
pub struct GroupMailForm {
    pub mail: String,
}

/// Adding a mail address to a group.
pub open spec fn group_mail_addition(group: u128, mail: Seq<char>) -> MutationView {
    reloading(
        appending(group_id(group), Attribute::Mail, mail, EntryClass::Group),
        group_path(group),
    )
}

/// Removing a mail address from a group.
pub open spec fn group_mail_removal(group: u128, mail: Seq<char>) -> MutationView {
    reloading(
        removing(group_id(group), Attribute::Mail, mail, EntryClass::Group),
        group_path(group),
    )
}

/// Adds a mail address to a group.
pub fn add_group_mail(group: u128, form: GroupMailForm) -> (r: Mutation)
    ensures
        r@ == group_mail_addition(group, form.mail@),
{
    reload_after(
        append_value(group_entry(group), Attribute::Mail, form.mail, EntryClass::Group),
        group_view_reload(group),
    )
}

/// Removes a mail address from a group.
pub fn remove_group_mail(group: u128, form: GroupMailForm) -> (r: Mutation)
    ensures
        r@ == group_mail_removal(group, form.mail@),
{
    reload_after(
        remove_value(group_entry(group), Attribute::Mail, form.mail, EntryClass::Group),
        group_view_reload(group),
    )
}

/// Removing a mail address or a member asks the server to take away exactly what adding it asked
/// the server to add.
pub proof fn law_group_removals_reverse_additions(group: u128, value: Seq<char>, old_count: usize)
    ensures
        reverses(
            group_mail_removal(group, value).request,
            group_mail_addition(group, value).request,
        ),
        ({
            let adding = AddMemberView {
                group_uuid: group,
                member: value,
                stage: AddMemberStage::Append { old_count },
            };
            adding.call() is Write && reverses(
                member_removal(group, value).request,
                adding.call()->Write_0,
            )
        }),
{
}

/// The form with the delegated administrator of a group.
#[derive(Clone, Debug)]
pub struct ManagedByForm {
    pub managed_by: String,
}

/// Sets the delegated administrator of a group, or clears it if the form is blank.
pub fn set_group_managed_by(group: u128, form: ManagedByForm) -> (r: Mutation)
    ensures
        r@ == manager_change(group, form.managed_by@),
        r@ == reloading(
            if trimmed(form.managed_by@).len() == 0 {
                purging(group_id(group), Attribute::EntryManagedBy, EntryClass::Group)
            } else {
                setting(
                    group_id(group),
                    Attribute::EntryManagedBy,
                    trimmed(form.managed_by@),
                    EntryClass::Group,
                )
            },
            group_path(group),
        ),
{
    let manager: String = trim(form.managed_by.as_str());
    let request: WriteRequest = if manager.as_str().is_empty() {
        purge_values(group_entry(group), Attribute::EntryManagedBy, EntryClass::Group)
    } else {
        set_value(group_entry(group), Attribute::EntryManagedBy, manager, EntryClass::Group)
    };
    reload_after(request, group_view_reload(group))
}

/// The form with the POSIX number of a group.
#[derive(Clone, Debug)]
pub struct GroupUnixForm {
    pub gidnumber: Option<String>,
}

/// The number that a form asks for; without a readable one the server allocates it.
pub open spec fn wanted_gidnumber(posted: Option<Seq<char>>) -> Option<u32> {
    match posted {
        Some(s) => parsed_u32(trimmed(s)),
        None => None,
    }
}

/// Extends a group with POSIX attributes, with an explicit number if the form has a readable one.
pub fn group_unix_extend(group: u128, form: GroupUnixForm) -> (r: Mutation)
    ensures
        r@ == unix_extension(group, form.gidnumber.deep_view()),
        r@ == reloading(
            WriteRequestView::ExtendUnixGroup {
                id: group_id(group),
                gidnumber: wanted_gidnumber(form.gidnumber.deep_view()),
            },
            group_path(group),
        ),
{
    let gidnumber: Option<u32> = match &form.gidnumber {
        Some(s) => parse_u32(trim(s.as_str()).as_str()),
        None => None,
    };
    reload_after(
        WriteRequest::ExtendUnixGroup { id: group_entry(group), gidnumber },
        group_view_reload(group),
    )
}

/// Saving a group never touches attributes other than its name and its description, touches the
/// description only to change it, and changes it to what the form holds, so that a form without a
/// description clears it.
pub proof fn law_group_save_touches_changes_only(
    name: Seq<char>,
    description: Option<Seq<char>>,
    current: Option<Seq<char>>,
)
    ensures
        saved_group(name, description, current).dom().subset_of(
            set![Attribute::Name, Attribute::Description],
        ),
        saved_group(name, description, current).dom().contains(Attribute::Description)
            <==> description != current,
        saved_group(name, description, current).dom().contains(Attribute::Description)
            ==> saved_group(name, description, current)[Attribute::Description] == description,
{
}

/// The rows of the list of groups are the entries that the viewer may change some attribute of,
/// and no others.
pub proof fn law_listed_groups_are_manageable<T>(groups: Seq<(T, Access)>, group: (T, Access))
    ensures
        manageable(groups).contains(group) <==> groups.contains(group) && group.1.can_modify_any(
            group_attribute_list(),
        ),
{
    let keep = |g: (T, Access)| g.1.can_modify_any(group_attribute_list());
    broadcast use vstd::seq_lib::group_filter_ensures;
    if manageable(groups).contains(group) {
        groups.lemma_filter_contains_rev(keep, group);
    }
}

/// The members of a group, read without limits.
pub open spec fn members_read(group: u128) -> EntryReadView {
    EntryReadView {
        id: EntryIdView::Named(uuid_text(group)),
        class: EntryClass::Group,
        query: GetQueryView {
            attributes: seq![Attribute::Member],
            ext_access_check: false,
            sort_by: None,
            sort_order: None,
            start_index: None,
            count: None,
        },
    }
}

/// The name of an entry, read without limits.
pub open spec fn name_read(member: Seq<char>) -> EntryReadView {
    EntryReadView {
        id: EntryIdView::Named(member),
        class: EntryClass::Object,
        query: GetQueryView {
            attributes: seq![Attribute::Spn],
            ext_access_check: false,
            sort_by: None,
            sort_order: None,
            start_index: None,
            count: None,
        },
    }
}

/// The read after the write is the read before it: both are of the members of the group, and the
/// write between them adds the member to the members of that group and changes nothing else.
pub proof fn law_counts_are_of_the_group_that_grows(
    s: AddMemberView,
    old_count: usize,
    count: usize,
    id: EntryIdView,
    attribute: Attribute,
    before: Set<Seq<char>>,
)
    ensures
        ({
            let first = AddMemberView { stage: AddMemberStage::CountBefore, ..s };
            let write = AddMemberView { stage: AddMemberStage::Append { old_count }, ..s };
            let second = AddMemberView { stage: AddMemberStage::CountAfter { old_count: count }, ..s
            };
            let last = AddMemberView { stage: AddMemberStage::LookUp, ..s };
            let group = EntryIdView::Named(uuid_text(s.group_uuid));
            &&& first.call() == second.call()
            &&& first.call() == ServerCallView::Read(members_read(s.group_uuid))
            &&& first.call() is Read
            &&& first.call()->Read_0.id == group
            &&& first.call()->Read_0.class == EntryClass::Group
            &&& first.call()->Read_0.query.attributes == seq![Attribute::Member]
            &&& first.call()->Read_0.query.start_index is None
            &&& first.call()->Read_0.query.count is None
            &&& write.call() is Write
            &&& restricted_to(write.call()->Write_0) == Some(EntryClass::Group)
            &&& values_after(write.call()->Write_0, group, Attribute::Member, before)
                == before.insert(s.member)
            &&& id != group || attribute != Attribute::Member ==> values_after(
                write.call()->Write_0,
                id,
                attribute,
                before,
            ) == before
            &&& last.call() == ServerCallView::Read(name_read(s.member))
            &&& last.call() is Read
            &&& last.call()->Read_0.id == EntryIdView::Named(s.member)
            &&& last.call()->Read_0.class == EntryClass::Object
            &&& last.call()->Read_0.query.attributes == seq![Attribute::Spn]
        }),
{
    law_writes_change_one_attribute(
        EntryIdView::Named(uuid_text(s.group_uuid)),
        Attribute::Member,
        s.member,
        EntryClass::Group,
        id,
        attribute,
        before,
    );
}

/// What a directory answers to the call that is due: before the write as it was before, and after
/// the write as it is then. Reads find what the directory holds, and the write is accepted.
pub open spec fn served<E>(
    s: AddMemberView,
    before: spec_fn(EntryReadView) -> EntryView,
    after: spec_fn(EntryReadView) -> EntryView,
) -> ServerAnswerView<E> {
    match s.call() {
        ServerCallView::Write(_) => ServerAnswerView::Written(Ok(())),
        ServerCallView::Read(read) => if s.stage is CountBefore {
            ServerAnswerView::Read(Ok(before(read)))
        } else {
            ServerAnswerView::Read(Ok(after(read)))
        },
    }
}

/// Where adding a member stands after some calls that a directory answers.
pub open spec fn after_calls<E>(
    s: AddMemberView,
    before: spec_fn(EntryReadView) -> EntryView,
    after: spec_fn(EntryReadView) -> EntryView,
    calls: nat,
) -> AddMemberProgressView<E>
    decreases calls,
{
    if calls == 0 {
        AddMemberProgressView::Next(s)
    } else {
        match s.after::<E>(served(s, before, after)) {
            AddMemberProgressView::Next(t) => after_calls(t, before, after, (calls - 1) as nat),
            end => end,
        }
    }
}

/// Whatever the directory holds, adding a member to a group is over after four calls, and its
/// answer follows from the members of that group before and after the write: if there is one more,
/// the row with the name of the member is shown, and otherwise, or if the member has no name, the
/// viewer is told that the member is there already.
pub proof fn law_answer_follows_from_the_members_of_the_group<E>(
    group: u128,
    member: Seq<char>,
    before: spec_fn(EntryReadView) -> EntryView,
    after: spec_fn(EntryReadView) -> EntryView,
)
    requires
        before(members_read(group)).reference_count(Attribute::Member) <= usize::MAX,
    ensures
        ({
            let start = AddMemberView {
                group_uuid: group,
                member,
                stage: AddMemberStage::CountBefore,
            };
            let end = after_calls::<E>(start, before, after, 4);
            let old = before(members_read(group)).reference_count(Attribute::Member);
            let new = after(members_read(group)).reference_count(Attribute::Member);
            let name = after(name_read(member)).text(Attribute::Spn);
            &&& end is Finish
            &&& new == old + 1 && name is Some ==> end->Finish_0 is MemberEntry
                && end->Finish_0->MemberEntry_group_uuid == group
                && end->Finish_0->MemberEntry_member_name == name->0
                && end->Finish_0->MemberEntry_can_edit_member
            &&& new != old + 1 || name is None ==> end->Finish_0 is ErrorToast
                && end->Finish_0->ErrorToast_0 is MemberAlreadyExists
        }),
{
    reveal_with_fuel(after_calls, 5);
    let start = AddMemberView { group_uuid: group, member, stage: AddMemberStage::CountBefore };
    let old = before(members_read(group)).reference_count(Attribute::Member) as usize;
    assert(start.call() == ServerCallView::Read(members_read(group)));
    let counted = AddMemberView { stage: AddMemberStage::Append { old_count: old }, ..start };
    assert(start.after::<E>(served(start, before, after)) == AddMemberProgressView::<E>::Next(
        counted,
    ));
    let written = AddMemberView { stage: AddMemberStage::CountAfter { old_count: old }, ..start };
    assert(counted.after::<E>(served(counted, before, after)) == AddMemberProgressView::<E>::Next(
        written,
    ));
    assert(written.call() == ServerCallView::Read(members_read(group)));
    let last = AddMemberView { stage: AddMemberStage::LookUp, ..start };
    assert(last.call() == ServerCallView::Read(name_read(member)));
}

/// The columns of the list of groups: by description under that column, by name under any other,
/// and by name if the browser asks for none; descending exactly if it asks for that.
pub proof fn law_group_columns(sort: Seq<char>, order: Seq<char>, params: ListParamsView)
    ensures
        sort == "description"@ <==> group_sort_attribute(sort) == Attribute::Description,
        sort != "description"@ <==> group_sort_attribute(sort) == Attribute::Name,
        group_sort_attribute("name"@) == Attribute::Name,
        params.sort is None ==> group_sort_attribute(normalised(params, "name"@).sort)
            == Attribute::Name,
        params.sort is Some && params.sort->0.len() == 0 ==> group_sort_attribute(
            normalised(params, "name"@).sort,
        ) == Attribute::Name,
        order == "desc"@ <==> list_order(order) == SortOrder::Descending,
        order != "desc"@ <==> list_order(order) == SortOrder::Ascending,
        params.order == Some("desc"@) <==> list_order(normalised(params, "name"@).order)
            == SortOrder::Descending,
{
    reveal_strlit("name");
    reveal_strlit("description");
    reveal_strlit("asc");
    reveal_strlit("desc");
    assert("name"@.len() != "description"@.len());
    assert("asc"@.len() != "desc"@.len());
}

/// Clicking on the header of the column that a list is sorted by reverses the order of the search.
pub proof fn law_header_reverses_the_search(p: PaginationView)
    requires
        p.wf(),
    ensures
        list_order(p.sorted_by(p.sort).order) != list_order(p.order),
{
    reveal_strlit("asc");
    reveal_strlit("desc");
    assert("asc"@.len() != "desc"@.len());
}

/// What is read of a group: its identifier, name, description, members, mail addresses, delegated
/// administrator and the groups that it is in, each once and nothing else.
pub proof fn law_group_attributes(a: Attribute)
    ensures
        group_attribute_list().contains(a) <==> a == Attribute::Uuid || a == Attribute::Name || a
            == Attribute::Description || a == Attribute::Member || a == Attribute::Mail || a
            == Attribute::EntryManagedBy || a == Attribute::DirectMemberOf,
        group_attribute_list().no_duplicates(),
{
    let s = group_attribute_list();
    assert(s[0] == Attribute::Uuid && s[1] == Attribute::Name && s[2] == Attribute::Description
        && s[3] == Attribute::Member && s[4] == Attribute::Mail && s[5]
        == Attribute::EntryManagedBy && s[6] == Attribute::DirectMemberOf);
}

/// The groups that the viewer can manage stay in order and are not repeated: those of a list and
/// another one are those of the first and then those of the second, and a group is kept by itself
/// exactly if the viewer may change one of the attributes that are shown.
pub proof fn law_manageable_groups_stay_in_order<T>(
    a: Seq<(T, Access)>,
    b: Seq<(T, Access)>,
    group: (T, Access),
)
    ensures
        manageable(a + b) == manageable(a) + manageable(b),
        manageable(seq![group]) == (if exists|i: int|
            0 <= i < group.1.modify_present@.len() && group_attribute_list().contains(
                #[trigger] group.1.modify_present@[i],
            ) {
            seq![group]
        } else {
            Seq::empty()
        }),
{
    let keep = |g: (T, Access)| g.1.can_modify_any(group_attribute_list());
    Seq::filter_distributes_over_add(a, b, keep);
    law_any_right_is_enough(group.1, group_attribute_list());
    reveal_with_fuel(Seq::filter, 2);
    assert(seq![group].drop_last() =~= Seq::<(T, Access)>::empty());
    assert(Seq::<(T, Access)>::empty().push(group) =~= seq![group]);
}

/// The rows of the list of groups are the manageable ones among the search results that read as
/// groups.
pub proof fn law_group_rows_come_from_results<T>(a: Seq<Record<T>>, r: Record<T>)
    ensures
        manageable_records(a + seq![r]) == manageable_records(a) + manageable_records(seq![r]),
        r.parsed is None || r.access is None ==> manageable_records(seq![r]).len() == 0,
        r.parsed is Some && r.access is Some && r.access->0.can_modify_any(group_attribute_list())
            ==> manageable_records(seq![r]) == seq![(r.parsed->0, r.access->0)],
        r.parsed is Some && r.access is Some && !r.access->0.can_modify_any(group_attribute_list())
            ==> manageable_records(seq![r]).len() == 0,
{
    law_rows_of_results(a, seq![r], r);
    let x = record_infos(a);
    let y = record_infos(seq![r]);
    let keep = |g: (T, Access)| g.1.can_modify_any(group_attribute_list());
    Seq::filter_distributes_over_add(x, y, keep);
    reveal_with_fuel(Seq::filter, 2);
    if r.parsed is Some && r.access is Some {
        let g = (r.parsed->0, r.access->0);
        assert(seq![g].drop_last() =~= Seq::<(T, Access)>::empty());
        assert(Seq::<(T, Access)>::empty().push(g) =~= seq![g]);
    }
}

/// A new group has its name and the classes of a group, its description exactly if the form has one
/// that is not empty, and nothing else.
pub proof fn law_new_groups(name: Seq<char>, description: Option<Seq<char>>, a: Attribute)
    ensures
        ({
            let attrs = new_group(name, description);
            &&& attrs.dom().contains(Attribute::Name) && attrs[Attribute::Name]
                == NewValueView::Text(name)
            &&& attrs.dom().contains(Attribute::Class) && attrs[Attribute::Class]
                == NewValueView::Classes(seq![EntryClass::Group, EntryClass::Object])
            &&& attrs.dom().contains(Attribute::Description) <==> description is Some
                && description->0.len() > 0
            &&& attrs.dom().contains(Attribute::Description) ==> attrs[Attribute::Description]
                == NewValueView::Text(description->0)
            &&& attrs.dom().contains(a) ==> a == Attribute::Name || a == Attribute::Class || a
                == Attribute::Description
        }),
{
}

/// Saving a group always writes the name of the form, and what it writes makes the group what the
/// form says.
pub proof fn law_saved_group_is_as_in_the_form(
    name: Seq<char>,
    description: Option<Seq<char>>,
    current: Option<Seq<char>>,
)
    ensures
        ({
            let attrs = saved_group(name, description, current);
            &&& attrs.dom().contains(Attribute::Name) && attrs[Attribute::Name] == Some(name)
            &&& description == (if attrs.dom().contains(Attribute::Description) {
                attrs[Attribute::Description]
            } else {
                current
            })
        }),
{
}

/// Changes to a group touch that group only: adding and removing a mail address or a member changes
/// this one value of the mail addresses or the members, within the class of groups. A change of
/// mail addresses ends at the page of the group with failures as notifications, and the removal of
/// a member with a notification and failures as pages.
pub proof fn law_group_changes(
    group: u128,
    value: Seq<char>,
    id: EntryIdView,
    attribute: Attribute,
    before: Set<Seq<char>>,
)
    ensures
        ({
            let own = EntryIdView::Named(uuid_text(group));
            let add = group_mail_addition(group, value);
            let remove = group_mail_removal(group, value);
            let leave = member_removal(group, value);
            &&& values_after(add.request, own, Attribute::Mail, before) == before.insert(value)
            &&& values_after(remove.request, own, Attribute::Mail, before) == before.remove(value)
            &&& values_after(leave.request, own, Attribute::Member, before) == before.remove(value)
            &&& id != own || attribute != Attribute::Mail ==> values_after(
                add.request,
                id,
                attribute,
                before,
            ) == before && values_after(remove.request, id, attribute, before) == before
            &&& id != own || attribute != Attribute::Member ==> values_after(
                leave.request,
                id,
                attribute,
                before,
            ) == before
            &&& restricted_to(add.request) == Some(EntryClass::Group) && restricted_to(
                remove.request,
            ) == Some(EntryClass::Group) && restricted_to(leave.request) == Some(EntryClass::Group)
            &&& add.success == SuccessView::GoTo(LocationView::Path(group_path(group)))
                && remove.success == add.success && add.failure is Toast && remove.failure is Toast
            &&& leave.success is SavedToast && leave.failure is Page
        }),
{
    let own = EntryIdView::Named(uuid_text(group));
    law_writes_change_one_attribute(
        own,
        Attribute::Mail,
        value,
        EntryClass::Group,
        id,
        attribute,
        before,
    );
    law_writes_change_one_attribute(
        own,
        Attribute::Member,
        value,
        EntryClass::Group,
        id,
        attribute,
        before,
    );
}

/// A change that ends at the list of groups makes its write, goes to the list, and shows failures
/// as notifications. A group is named in requests by its identifier.
pub proof fn law_changes_back_to_groups(request: WriteRequestView, group: u128)
    ensures
        back_to_groups(request).request == request,
        back_to_groups(request).success is GoTo,
        back_to_groups(request).success->GoTo_0 == LocationView::Page(Urls::AdminGroups),
        back_to_groups(request).failure is Toast,
        group_id(group) is Named && group_id(group)->Named_0 == uuid_text(group),
{
}

/// A POSIX number that fits is asked for as it is written, whatever white space is around it; a
/// number that does not fit, a text that is no number and no text ask the server for one.
pub proof fn law_group_numbers(s: Seq<char>, n: nat)
    ensures
        trimmed(s) == decimal(n) && n <= 0xffff_ffff ==> wanted_gidnumber(Some(s)) == Some(
            n as u32,
        ),
        trimmed(s) == decimal(n) && n > 0xffff_ffff ==> wanted_gidnumber(Some(s)) is None,
        (forall|i: int| 0 <= i < trimmed(s).len() ==> !('0' <= #[trigger] trimmed(s)[i] <= '9'))
            ==> wanted_gidnumber(Some(s)) is None,
        (exists|i: int| 0 < i < trimmed(s).len() && !('0' <= #[trigger] trimmed(s)[i] <= '9'))
            ==> wanted_gidnumber(Some(s)) is None,
        wanted_gidnumber(None) is None,
{
    law_written_numbers_are_read(n, 0);
    law_other_texts_are_not_numbers(trimmed(s));
}

/// The read of a group with all that its page shows.
pub open spec fn group_entry_read(group: u128) -> EntryReadView {
    EntryReadView {
        id: group_id(group),
        class: EntryClass::Group,
        query: GetQueryView { ext_access_check: true, ..plain_query(group_attribute_list()) },
    }
}

/// The search for the groups of a list.
pub open spec fn group_list_search(p: PaginationView) -> SearchView {
    SearchView {
        filter: listing_filter(EntryClass::Group, p.q, Attribute::Name, Attribute::Description),
        query: GetQueryView {
            ext_access_check: true,
            sort_by: Some(group_sort_attribute(p.sort)),
            sort_order: Some(list_order(p.order)),
            count: Some(MAX_GROUPS),
            ..plain_query(group_attribute_list())
        },
    }
}

/// Creating a group.
pub open spec fn group_creation(name: Seq<char>, description: Option<Seq<char>>) -> MutationView {
    back_to_groups(WriteRequestView::Create(new_group(name, description)))
}

/// Deleting a group.
pub open spec fn group_deletion(group: u128) -> MutationView {
    back_to_groups(
        WriteRequestView::Delete(EntryFilterView::ClassAndId(EntryClass::Group, uuid_text(group))),
    )
}

/// Setting or clearing the delegated administrator of a group.
pub open spec fn manager_change(group: u128, posted: Seq<char>) -> MutationView {
    reloading(
        if trimmed(posted).len() == 0 {
            purging(group_id(group), Attribute::EntryManagedBy, EntryClass::Group)
        } else {
            setting(
                group_id(group),
                Attribute::EntryManagedBy,
                trimmed(posted),
                EntryClass::Group,
            )
        },
        group_path(group),
    )
}

/// Giving a group POSIX attributes.
pub open spec fn unix_extension(group: u128, posted: Option<Seq<char>>) -> MutationView {
    reloading(
        WriteRequestView::ExtendUnixGroup {
            id: group_id(group),
            gidnumber: wanted_gidnumber(posted),
        },
        group_path(group),
    )
}

/// The list of groups finds the groups whose name or description contains the search term, all of
/// them if there is none and never more than a thousand, with what the viewer may do with each and
/// not cut into pages; in the order and by the column that the pager says.
pub proof fn law_group_list_search(
    p: PaginationView,
    classes: Set<EntryClass>,
    texts: Map<Attribute, Seq<char>>,
)
    ensures
        ({
            let search = group_list_search(p);
            &&& finds(search.filter, classes, texts) <==> classes.contains(EntryClass::Group) && (
            p.q.len() == 0 || texts.dom().contains(Attribute::Name) && contains_text(
                texts[Attribute::Name],
                p.q,
            ) || texts.dom().contains(Attribute::Description) && contains_text(
                texts[Attribute::Description],
                p.q,
            ))
            &&& search.query.ext_access_check
            &&& search.query.attributes == group_attribute_list()
            &&& search.query.start_index is None
            &&& search.query.count == Some(1000u64)
            &&& p.sort == "description"@ <==> search.query.sort_by == Some(Attribute::Description)
            &&& p.sort != "description"@ <==> search.query.sort_by == Some(Attribute::Name)
            &&& p.order == "desc"@ <==> search.query.sort_order == Some(SortOrder::Descending)
            &&& p.order != "desc"@ <==> search.query.sort_order == Some(SortOrder::Ascending)
        }),
{
    law_lists_find_what_contains_the_term(
        EntryClass::Group,
        p.q,
        Attribute::Name,
        Attribute::Description,
        classes,
        texts,
    );
}

/// The page of a group reads that group, by its identifier and among groups only, with what the
/// viewer may do with it.
pub proof fn law_group_page_reads_its_group(group: u128)
    ensures
        group_entry_read(group).id == EntryIdView::Named(uuid_text(group)),
        group_entry_read(group).class == EntryClass::Group,
        group_entry_read(group).query.ext_access_check,
        group_entry_read(group).query.attributes == group_attribute_list(),
        group_entry_read(group).query.start_index is None,
        group_entry_read(group).query.count is None,
{
}

/// Groups are created with what the form says and deleted by class and identifier, and different
/// groups are deleted by different requests; both end at the list of groups.
pub proof fn law_groups_come_and_go(
    group: u128,
    other: u128,
    name: Seq<char>,
    description: Option<Seq<char>>,
)
    ensures
        group_creation(name, description).request is Create,
        group_creation(name, description).request->Create_0 == new_group(name, description),
        group_deletion(group).request is Delete,
        group_deletion(group).request->Delete_0 is ClassAndId,
        group_deletion(group).request->Delete_0->ClassAndId_0 == EntryClass::Group,
        group_deletion(group).request->Delete_0->ClassAndId_1 == uuid_text(group),
        group_deletion(group).request == group_deletion(other).request ==> group == other,
        group_creation(name, description).success == group_deletion(group).success,
        group_deletion(group).success == SuccessView::GoTo(LocationView::Page(Urls::AdminGroups)),
        group_creation(name, description).failure is Toast && group_deletion(group).failure
            is Toast,
{
    if group_deletion(group).request == group_deletion(other).request {
        law_uuid_text_is_injective(group, other);
    }
}

/// The delegated administrator of a group becomes what the form holds between the white space at
/// its ends, and there is none if the form is blank; nothing else changes. Giving a group POSIX
/// attributes names that group and the number of the form. Both end at the page of the group.
pub proof fn law_group_manager_and_number(
    group: u128,
    posted: Seq<char>,
    number: Option<Seq<char>>,
    id: EntryIdView,
    attribute: Attribute,
    before: Set<Seq<char>>,
)
    ensures
        ({
            let own = EntryIdView::Named(uuid_text(group));
            let manager = manager_change(group, posted);
            let unix = unix_extension(group, number);
            let page = SuccessView::GoTo(LocationView::Path(group_path(group)));
            &&& trimmed(posted).len() > 0 ==> values_after(
                manager.request,
                own,
                Attribute::EntryManagedBy,
                before,
            ) == set![trimmed(posted)]
            &&& trimmed(posted).len() == 0 ==> values_after(
                manager.request,
                own,
                Attribute::EntryManagedBy,
                before,
            ) == Set::<Seq<char>>::empty()
            &&& id != own || attribute != Attribute::EntryManagedBy ==> values_after(
                manager.request,
                id,
                attribute,
                before,
            ) == before
            &&& restricted_to(manager.request) == Some(EntryClass::Group)
            &&& unix.request is ExtendUnixGroup
            &&& unix.request->ExtendUnixGroup_id == own
            &&& unix.request->ExtendUnixGroup_gidnumber == wanted_gidnumber(number)
            &&& manager.success == page && unix.success == page && manager.failure is Toast
                && unix.failure is Toast
        }),
{
    law_writes_change_one_attribute(
        EntryIdView::Named(uuid_text(group)),
        Attribute::EntryManagedBy,
        trimmed(posted),
        EntryClass::Group,
        id,
        attribute,
        before,
    );
}

/// Whether a page shows a group to a viewer with some rights.
pub open spec fn group_shown<T, L>(
    partial: GroupPartial<T, L>,
    found: (Group<T>, Access),
    lock: L,
) -> bool {
    &&& partial.group == found.0
    &&& partial.access == found.1
    &&& partial.lock == lock
    &&& partial.can_modify_any_attr == found.1.can_modify_any(group_attribute_list())
}

/// The page of a group lets the viewer change it exactly if they may add to one of the attributes
/// that it shows.
pub proof fn law_group_page<T, L>(
    partial: GroupPartial<T, L>,
    found: (Group<T>, Access),
    lock: L,
)
    requires
        group_shown(partial, found, lock),
    ensures
        partial.group == found.0 && partial.access == found.1 && partial.lock == lock,
        partial.can_modify_any_attr <==> exists|k: int|
            0 <= k < found.1.modify_present@.len() && group_attribute_list().contains(
                #[trigger] found.1.modify_present@[k],
            ),
{
    law_any_right_is_enough(found.1, group_attribute_list());
}

} // verus!
