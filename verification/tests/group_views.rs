use admin_views::attribute::{AttrMap, Attribute, EntryClass};
use admin_views::entry::{Access, Entry, Value};
use admin_views::groups::{
    add_group_mail, add_member, create_group, delete_group, edit_group, edit_group_reply,
    get_group_info, get_groups_info, group_read, group_unix_extend, groups_search,
    remove_group_mail, remove_member, set_group_managed_by, view_group_create_get,
    view_group_view_get, view_groups_get, AddMember, AddMemberForm, AddMemberProgress,
    CreateGroupForm, Group, GroupMailForm, GroupUnixForm, ManagedByForm, SaveGroupForm,
};
use admin_views::listing::{list_pager, Record};
use admin_views::pagination::ListParams;
use admin_views::reply::{FailureStyle, Location, Mutation, OperationError, Reply, Success, Urls};
use admin_views::request::{
    EntryFilter, EntryId, NewValue, PutOutcome, SearchFilter, ServerAnswer, ServerCall, WriteRequest,
};

const ID: u128 = 0xfedc_ba98_7654_3210_0000_0000_0000_0001;
const ID_TEXT: &str = "fedcba98-7654-3210-0000-000000000001";
const PAGE: &str = "/ui/admin/group/fedcba98-7654-3210-0000-000000000001/view";

fn params() -> ListParams {
    ListParams { q: None, page: None, per_page: None, sort: None, order: None }
}

fn reloads(m: &Mutation) -> bool {
    matches!(&m.success, Success::GoTo(Location::Path(p)) if p == PAGE)
        && m.failure == FailureStyle::Toast
}

fn named(id: &EntryId, name: &str) -> bool {
    matches!(id, EntryId::Named(s) if s == name)
}

fn members(n: u128) -> Entry {
    Entry {
        id: ID,
        attrs: AttrMap::new().with(Attribute::Member, Value::References((0..n).collect())),
    }
}

fn adding() -> AddMember {
    add_member(ID, AddMemberForm { member: "alice".to_string() })
}

fn next(progress: AddMemberProgress<u8>) -> AddMember {
    match progress {
        AddMemberProgress::Next(s) => s,
        AddMemberProgress::Finish(_) => panic!("finished early"),
    }
}

fn reply(progress: AddMemberProgress<u8>) -> Reply<u8> {
    match progress {
        AddMemberProgress::Finish(r) => r,
        AddMemberProgress::Next(_) => panic!("not finished"),
    }
}

fn counted(before: Entry, after: Entry) -> AddMemberProgress<u8> {
    let s = adding();
    match s.call() {
        ServerCall::Read(r) => {
            assert!(named(&r.id, ID_TEXT));
            assert_eq!(r.class, EntryClass::Group);
            assert_eq!(r.query.attributes, [Attribute::Member]);
            assert!(!r.query.ext_access_check);
        }
        ServerCall::Write(_) => panic!("writes first"),
    }
    let s = next(s.answer(ServerAnswer::Read(Ok(before))));
    match s.call() {
        ServerCall::Write(WriteRequest::AppendAttribute { id, attribute, values, filter }) => {
            assert!(named(&id, ID_TEXT));
            assert_eq!(attribute, Attribute::Member);
            assert_eq!(values, ["alice"]);
            assert!(matches!(filter, EntryFilter::Class(EntryClass::Group)));
        }
        _ => panic!("does not write"),
    }
    let s = next(s.answer(ServerAnswer::Written(Ok(()))));
    assert!(matches!(s.call(), ServerCall::Read(_)));
    s.answer(ServerAnswer::Read(Ok(after)))
}

#[test]
fn new_member_is_shown_as_a_row() {
    let s = next(counted(members(2), members(3)));
    match s.call() {
        ServerCall::Read(r) => {
            assert!(named(&r.id, "alice"));
            assert_eq!(r.class, EntryClass::Object);
            assert_eq!(r.query.attributes, [Attribute::Spn]);
        }
        ServerCall::Write(_) => panic!("writes twice"),
    }
    let found = Entry {
        id: 5,
        attrs: AttrMap::new().with(Attribute::Spn, Value::Text("alice@example.com".to_string())),
    };
    assert!(matches!(
        reply(s.answer(ServerAnswer::Read(Ok(found)))),
        Reply::MemberEntry { group_uuid: ID, member_name, can_edit_member: true }
            if member_name == "alice@example.com"
    ));
}

#[test]
fn first_member_of_an_empty_group_is_new() {
    next(counted(Entry { id: ID, attrs: AttrMap::new() }, members(1)));
}

#[test]
fn member_that_is_there_already_is_an_error() {
    for (before, after) in [(2, 2), (2, 4), (3, 2)] {
        assert!(matches!(
            reply(counted(members(before), members(after))),
            Reply::ErrorToast(OperationError::MemberAlreadyExists)
        ));
    }
}

#[test]
fn new_member_without_a_name_is_an_error() {
    let s = next(counted(members(0), members(1)));
    let found = Entry { id: 5, attrs: AttrMap::new() };
    assert!(matches!(
        reply(s.answer(ServerAnswer::Read(Ok(found)))),
        Reply::ErrorToast(OperationError::MemberAlreadyExists)
    ));
}

#[test]
fn adding_a_member_stops_at_errors() {
    assert!(matches!(
        reply(adding().answer(ServerAnswer::Read(Err(1)))),
        Reply::ErrorPage(OperationError::Server(1))
    ));
    let s = next(adding().answer(ServerAnswer::Read(Ok(members(1)))));
    assert!(matches!(
        reply(s.answer(ServerAnswer::Written(Err(2)))),
        Reply::ErrorPage(OperationError::Server(2))
    ));
    let s = next(counted(members(1), members(2)));
    assert!(matches!(
        reply(s.answer(ServerAnswer::Read(Err(3)))),
        Reply::ErrorPage(OperationError::Server(3))
    ));
}

#[test]
fn removing_a_member_is_answered_with_a_toast() {
    let form = || AddMemberForm { member: "alice".to_string() };
    let m = remove_member(ID, form());
    assert!(matches!(
        &m.request,
        WriteRequest::RemoveValues { id, attribute: Attribute::Member, values, .. }
            if named(id, ID_TEXT) && values.len() == 1 && values[0] == "alice"
    ));
    assert!(matches!(m.into_parts().1.conclude::<u8>(Ok(())), Reply::Done(Success::SavedToast)));
    assert!(matches!(
        remove_member(ID, form()).into_parts().1.conclude(Err(4u8)),
        Reply::ErrorPage(OperationError::Server(4))
    ));
}

fn record(n: u32, delete: bool, modify_present: Vec<Attribute>) -> Record<u32> {
    Record { access: Some(Access { delete, modify_present }), parsed: Some(n) }
}

#[test]
fn group_list_shows_what_the_viewer_can_manage() {
    let mut records: Vec<Record<u32>> = vec![
        record(100, true, vec![]),
        record(101, true, vec![Attribute::LegalName]),
        Record { access: None, parsed: Some(102) },
    ];
    for n in 0..25 {
        records.push(record(n, n == 21, vec![Attribute::Mail]));
    }
    let pager = list_pager(&ListParams { page: Some(3), per_page: Some(10), ..params() });
    let found: Result<_, u8> = Ok(records);
    let (rows, total) = get_groups_info(found, &pager).unwrap();
    assert_eq!(total, 25);
    assert_eq!(rows.iter().map(|(n, _)| *n).collect::<Vec<u32>>(), [20, 21, 22, 23, 24]);
    let page = view_groups_get::<u32, bool, u8>(true, Ok((rows, total)), pager, Ok(true)).unwrap();
    assert!(matches!(
        &page.push_url,
        Location::Path(p) if p == "/ui/admin/groups?sort=name&order=asc&per_page=10&page=3"
    ));
    assert!(page.partial.can_create && page.partial.lock && !page.whole);
    assert_eq!(page.partial.pager.total, 25);
}

#[test]
fn group_list_reports_errors() {
    let pager = list_pager(&params());
    let failed: Result<Vec<Record<u32>>, u8> = Err(6);
    let info = get_groups_info(failed, &pager);
    assert!(matches!(
        view_groups_get::<u32, (), u8>(true, info, pager, Err(7)),
        Err(Reply::WebError(OperationError::Server(6)))
    ));
    let pager = list_pager(&params());
    assert!(matches!(
        view_groups_get::<u32, (), u8>(true, Ok((vec![], 0)), pager, Err(7)),
        Err(Reply::ErrorPage(OperationError::Server(7)))
    ));
}

#[test]
fn group_search_takes_all_matches() {
    let search = groups_search(&list_pager(&ListParams {
        q: Some("ad".to_string()),
        page: Some(9),
        sort: Some("description".to_string()),
        ..params()
    }));
    assert_eq!(search.query.sort_by, Some(Attribute::Description));
    assert_eq!(search.query.start_index, None);
    assert_eq!(search.query.count, Some(1000));
    assert!(search.query.ext_access_check);
    assert!(matches!(search.filter, SearchFilter::And(_, _)));
}

#[test]
fn group_page_shows_the_group() {
    let read = group_read(ID);
    assert!(named(&read.id, ID_TEXT));
    assert_eq!(read.query.attributes.len(), 7);
    let group = || Group { description: None, card: 1u8 };
    let found: Result<Record<Group<u8>>, u8> = Ok(Record {
        access: Some(Access { delete: false, modify_present: vec![Attribute::Member] }),
        parsed: Some(group()),
    });
    let page = view_group_view_get(ID, false, get_group_info(found), Ok("locked")).unwrap();
    assert!(matches!(&page.push_url, Location::Path(p) if p == PAGE));
    assert!(page.whole && page.partial.can_modify_any_attr);
    assert_eq!(page.partial.lock, "locked");
    let blind: Result<Record<Group<u8>>, u8> = Ok(Record { access: None, parsed: Some(group()) });
    assert!(matches!(
        view_group_view_get::<u8, (), u8>(ID, false, get_group_info(blind), Err(1)),
        Err(Reply::WebError(OperationError::InvalidState))
    ));
}

#[test]
fn group_form_needs_a_token() {
    let page = view_group_create_get::<u8, u8>(false, Ok(5)).unwrap();
    assert_eq!(page.partial, 5);
    assert!(matches!(&page.push_url, Location::Path(p) if p == "/ui/admin/groups/create"));
    assert!(matches!(
        view_group_create_get::<u8, u8>(false, Err(3)),
        Err(Reply::ErrorPage(OperationError::Server(3)))
    ));
}

#[test]
fn new_group_leaves_out_a_blank_description() {
    for (description, stored) in [(None, false), (Some(""), false), (Some("d"), true)] {
        let m = create_group(CreateGroupForm {
            name: "staff".to_string(),
            description: description.map(|s: &str| s.to_string()),
        });
        assert!(matches!(m.success, Success::GoTo(Location::Page(Urls::AdminGroups))));
        match m.request {
            WriteRequest::Create(attrs) => {
                assert_eq!(attrs.get(Attribute::Description).is_some(), stored);
                assert!(matches!(
                    attrs.get(Attribute::Class),
                    Some(NewValue::Classes(c)) if *c == [EntryClass::Group, EntryClass::Object]
                ));
                assert_eq!(attrs.into_entries().len(), if stored { 3 } else { 2 });
            }
            _ => panic!("not a creation"),
        }
    }
}

#[test]
fn deleting_a_group_names_it() {
    assert!(matches!(
        &delete_group(ID).request,
        WriteRequest::Delete(EntryFilter::ClassAndId(EntryClass::Group, id)) if id == ID_TEXT
    ));
}

#[test]
fn saving_a_group_writes_changes_only() {
    let form = |d: Option<&str>| SaveGroupForm {
        account_name: "staff".to_string(),
        description: d.map(|s| s.to_string()),
    };
    let info = || -> Result<(Group<()>, Access), OperationError<u8>> {
        Ok((
            Group { description: Some("old".to_string()), card: () },
            Access { delete: false, modify_present: vec![] },
        ))
    };
    let same = edit_group(ID, form(Some("old")), info()).unwrap();
    assert!(same.attrs.get(Attribute::Description).is_none());
    assert_eq!(same.attrs.get(Attribute::Name), Some(&Some("staff".to_string())));
    let changed = edit_group(ID, form(Some("new")), info()).unwrap();
    assert_eq!(changed.attrs.get(Attribute::Description), Some(&Some("new".to_string())));
    let cleared = edit_group(ID, form(None), info()).unwrap();
    assert_eq!(cleared.attrs.get(Attribute::Description), Some(&None));
    let failed: Result<(Group<()>, Access), OperationError<u8>> = Err(OperationError::Server(1));
    assert!(matches!(edit_group(ID, form(None), failed), Err(Reply::WebError(OperationError::Server(1)))));
}

#[test]
fn saving_a_group_is_answered() {
    assert!(matches!(edit_group_reply::<u8>(PutOutcome::Written), Reply::Done(Success::SavedToast)));
    assert!(matches!(
        edit_group_reply(PutOutcome::Refused(1u8)),
        Reply::ErrorPage(OperationError::Server(1))
    ));
    assert!(matches!(
        edit_group_reply::<u8>(PutOutcome::Unencodable),
        Reply::ErrorPage(OperationError::Backend)
    ));
}

#[test]
fn group_mail_is_added_and_removed() {
    let form = || GroupMailForm { mail: "g@b".to_string() };
    assert!(reloads(&add_group_mail(ID, form())));
    assert!(matches!(
        &add_group_mail(ID, form()).request,
        WriteRequest::AppendAttribute { attribute: Attribute::Mail, values, .. } if values[0] == "g@b"
    ));
    assert!(matches!(
        &remove_group_mail(ID, form()).request,
        WriteRequest::RemoveValues { attribute: Attribute::Mail, values, .. } if values[0] == "g@b"
    ));
}

#[test]
fn blank_manager_clears_the_attribute() {
    let m = set_group_managed_by(ID, ManagedByForm { managed_by: " boss ".to_string() });
    assert!(reloads(&m));
    assert!(matches!(
        &m.request,
        WriteRequest::SetAttribute { attribute: Attribute::EntryManagedBy, values, .. }
            if values[0] == "boss"
    ));
    let m = set_group_managed_by(ID, ManagedByForm { managed_by: " \t".to_string() });
    assert!(matches!(
        &m.request,
        WriteRequest::PurgeAttribute { attribute: Attribute::EntryManagedBy, .. }
    ));
}

#[test]
fn unreadable_group_numbers_are_left_to_the_server() {
    for (posted, expected) in [
        (None, None),
        (Some(""), None),
        (Some(" 1234 "), Some(1234)),
        (Some("12x"), None),
        (Some("4294967296"), None),
        (Some("-1"), None),
    ] {
        let m = group_unix_extend(ID, GroupUnixForm { gidnumber: posted.map(|s: &str| s.to_string()) });
        assert!(reloads(&m));
        match m.request {
            WriteRequest::ExtendUnixGroup { id, gidnumber } => {
                assert!(named(&id, ID_TEXT));
                assert_eq!(gidnumber, expected);
            }
            _ => panic!("not an extension"),
        }
    }
}
