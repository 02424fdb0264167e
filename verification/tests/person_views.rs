use admin_views::attribute::{AttrMap, Attribute, EntryClass};
use admin_views::entry::{Access, Entry, Value};
use admin_views::link::link_fits;
use admin_views::listing::{list_pager, Record};
use admin_views::pagination::ListParams;
use admin_views::persons::{
    account_status, add_person_group, add_person_mail, add_person_ssh_key, addable_groups,
    clear_account_lockout, clear_account_valid_from, create_person, delete_person, disable_account,
    edit_person, edit_person_reply, enable_account, generate_reset_link, get_person_info,
    get_persons_info, group_choices_search, list_all_groups, person_read, persons_search,
    remove_person_group, remove_person_mail, remove_person_ssh_key, reset_intent,
    set_account_expire, set_account_valid_from, view_person_create_get, view_person_view_get,
    view_persons_get, AccountStatus, AddSshKeyForm, CreatePersonForm, DateTimeForm, Found,
    GroupRefForm, MailForm, Person, SavePersonForm, SshKeyTagForm,
};
use admin_views::reply::{
    FailureStyle, Location, Mutation, OperationError, Plan, Reply, Success, Urls,
};
use admin_views::request::{
    EntryFilter, EntryId, NewValue, PutOutcome, SearchFilter, SortOrder, WriteRequest,
};

const ID: u128 = 0x0123_4567_89ab_cdef_0123_4567_89ab_cdef;
const ID_TEXT: &str = "01234567-89ab-cdef-0123-456789abcdef";
const PAGE: &str = "/ui/admin/person/01234567-89ab-cdef-0123-456789abcdef/view";

fn access(delete: bool, modify_present: Vec<Attribute>) -> Access {
    Access { delete, modify_present }
}

fn person(groups: Vec<u128>, valid_from: Option<i128>, expire: Option<i128>) -> Person<()> {
    Person {
        legalname: Some("Alice Example".to_string()),
        description: None,
        groups,
        account_valid_from: valid_from,
        account_expire: expire,
        card: (),
    }
}

fn reloads(m: &Mutation) -> bool {
    matches!(&m.success, Success::GoTo(Location::Path(p)) if p == PAGE)
        && m.failure == FailureStyle::Toast
}

fn named(id: &EntryId, name: &str) -> bool {
    matches!(id, EntryId::Named(s) if s == name)
}

#[test]
fn status_follows_the_window() {
    assert_eq!(account_status(5, None, None), AccountStatus::Active);
    assert_eq!(account_status(5, Some(6), Some(1)), AccountStatus::NotYetValid);
    assert_eq!(account_status(6, Some(6), None), AccountStatus::Active);
    assert_eq!(account_status(5, Some(1), Some(5)), AccountStatus::Disabled);
    assert_eq!(account_status(4, Some(1), Some(5)), AccountStatus::Active);
    assert_eq!(AccountStatus::NotYetValid.label(), "Not yet valid");
    assert_eq!(AccountStatus::NotYetValid.class(), "text-bg-warning");
    assert_eq!(AccountStatus::Disabled.label(), "Disabled");
    assert_eq!(AccountStatus::Disabled.class(), "text-bg-danger");
    assert_eq!(AccountStatus::Active.label(), "Active");
    assert_eq!(AccountStatus::Active.class(), "text-bg-success");
}

#[test]
fn person_page_shows_the_person() {
    let info: Result<_, OperationError<u8>> = Ok((
        person(vec![2], Some(0), Some(60_000_000_000)),
        access(false, vec![Attribute::AccountExpire]),
    ));
    let groups = vec![(1, "staff".to_string()), (2, "admins".to_string())];
    let page = view_person_view_get(ID, true, info, Ok(true), 7, groups).unwrap();
    assert!(matches!(&page.push_url, Location::Path(p) if p == PAGE));
    assert!(!page.whole);
    let shown = page.partial;
    assert_eq!(shown.account_status, "Active");
    assert_eq!(shown.account_status_class, "text-bg-success");
    assert_eq!(shown.expire_input.as_deref(), Some("1970-01-01T00:01"));
    assert_eq!(shown.valid_from_input.as_deref(), Some("1970-01-01T00:00"));
    assert!(shown.can_rw && shown.can_edit_validity && !shown.can_edit_ssh);
    assert_eq!(shown.addable_groups, ["staff"]);
}

#[test]
fn locked_viewer_edits_nothing() {
    let info: Result<_, OperationError<u8>> = Ok((
        person(vec![], None, None),
        access(true, vec![Attribute::AccountExpire, Attribute::SshPublicKey]),
    ));
    let page = view_person_view_get(ID, false, info, Ok(false), 7, vec![]).unwrap();
    assert!(page.whole);
    assert!(!page.partial.can_rw && !page.partial.can_edit_validity && !page.partial.can_edit_ssh);
    assert_eq!(page.partial.expire_input, None);
}

#[test]
fn person_page_reports_the_read_before_the_token() {
    let failed: Result<(Person<()>, Access), OperationError<u8>> = Err(OperationError::InvalidState);
    let r = view_person_view_get(ID, false, failed, Err(1), 0, vec![]);
    assert!(matches!(r, Err(Reply::WebError(OperationError::InvalidState))));
    let found: Result<_, OperationError<u8>> = Ok((person(vec![], None, None), access(false, vec![])));
    let r = view_person_view_get(ID, false, found, Err(1), 0, vec![]);
    assert!(matches!(r, Err(Reply::ErrorPage(OperationError::Server(1)))));
}

#[test]
fn person_info_needs_access_and_entry() {
    let both: Result<Record<u8>, u8> = Ok(Record { access: Some(access(true, vec![])), parsed: Some(3) });
    assert!(matches!(get_person_info(both), Ok((3, a)) if a.delete));
    let unread: Result<Record<u8>, u8> = Ok(Record { access: Some(access(true, vec![])), parsed: None });
    assert!(matches!(get_person_info(unread), Err(OperationError::InvalidState)));
    let blind: Result<Record<u8>, u8> = Ok(Record { access: None, parsed: Some(3) });
    assert!(matches!(get_person_info(blind), Err(OperationError::InvalidState)));
    let failed: Result<Record<u8>, u8> = Err(9);
    assert!(matches!(get_person_info(failed), Err(OperationError::Server(9))));
}

#[test]
fn person_read_asks_for_access() {
    let read = person_read(ID);
    assert!(named(&read.id, ID_TEXT));
    assert_eq!(read.class, EntryClass::Person);
    assert!(read.query.ext_access_check);
    assert_eq!(read.query.attributes.len(), 13);
}

#[test]
fn person_search_follows_the_pager() {
    let search = persons_search(&list_pager(&ListParams {
        q: Some("al".to_string()),
        page: Some(3),
        per_page: Some(20),
        sort: Some("spn".to_string()),
        order: Some("desc".to_string()),
    }));
    assert_eq!(search.query.sort_by, Some(Attribute::Spn));
    assert_eq!(search.query.sort_order, Some(SortOrder::Descending));
    assert_eq!(search.query.start_index, Some(41));
    assert_eq!(search.query.count, Some(20));
    match search.filter {
        SearchFilter::And(class, search) => {
            assert!(matches!(*class, SearchFilter::ClassIs(EntryClass::Person)));
            match *search {
                SearchFilter::Or(a, b) => {
                    assert!(matches!(&*a, SearchFilter::Contains(Attribute::Name, s) if s == "al"));
                    assert!(
                        matches!(&*b, SearchFilter::Contains(Attribute::DisplayName, s) if s == "al")
                    );
                }
                _ => panic!("not a choice"),
            }
        }
        _ => panic!("not restricted"),
    }
}

#[test]
fn person_search_without_term_takes_the_class() {
    let none = ListParams { q: None, page: None, per_page: None, sort: None, order: None };
    let search = persons_search(&list_pager(&none));
    assert!(matches!(search.filter, SearchFilter::ClassIs(EntryClass::Person)));
    assert_eq!(search.query.sort_by, Some(Attribute::Name));
    assert_eq!(search.query.sort_order, Some(SortOrder::Ascending));
    let byname = persons_search(&list_pager(&ListParams {
        sort: Some("displayname".to_string()),
        ..none
    }));
    assert_eq!(byname.query.sort_by, Some(Attribute::DisplayName));
}

#[test]
fn person_list_keeps_readable_rows_and_the_total() {
    let found: Result<Found<u8>, u8> = Ok(Found {
        records: vec![
            Record { access: Some(access(false, vec![])), parsed: Some(1) },
            Record { access: None, parsed: Some(2) },
            Record { access: Some(access(true, vec![])), parsed: Some(3) },
        ],
        total_results: 250,
    });
    let info = get_persons_info(found);
    let pager = list_pager(&ListParams {
        q: None, page: Some(2), per_page: None, sort: None, order: None,
    });
    let page = view_persons_get(false, info, pager, Ok(())).unwrap();
    assert!(matches!(
        &page.push_url,
        Location::Path(p) if p == "/ui/admin/persons?sort=name&order=asc&per_page=100&page=2"
    ));
    let rows: Vec<u8> = page.partial.rows.iter().map(|(n, _)| *n).collect();
    assert_eq!(rows, [1, 3]);
    assert!(page.partial.can_create);
    assert_eq!(page.partial.pager.total, 250);
    assert_eq!(page.partial.pager.total_pages(), 3);
    let failed: Result<Found<u8>, u8> = Err(4);
    assert!(matches!(get_persons_info(failed), Err(OperationError::Server(4))));
}

#[test]
fn person_form_needs_a_token() {
    let r = view_person_create_get::<u8>(true, Ok(true)).unwrap();
    assert!(matches!(&r.push_url, Location::Path(p) if p == "/ui/admin/persons/create"));
    assert!(r.partial && !r.whole);
    let r = view_person_create_get::<u8>(true, Err(2));
    assert!(matches!(r, Err(Reply::ErrorPage(OperationError::Server(2)))));
}

#[test]
fn offered_groups_leave_out_those_joined() {
    let all = vec![(1, "a".to_string()), (2, "b".to_string()), (3, "c".to_string())];
    assert_eq!(addable_groups(all, &vec![2]), ["a", "c"]);
}

#[test]
fn group_choices_are_the_named_entries() {
    let entry = |id: u128, value: Value| Entry { id, attrs: AttrMap::new().with(Attribute::Name, value) };
    let found: Result<Vec<Entry>, u8> = Ok(vec![
        entry(1, Value::Text("staff".to_string())),
        entry(2, Value::Other),
        Entry { id: 3, attrs: AttrMap::new() },
    ]);
    assert_eq!(list_all_groups(found), [(1, "staff".to_string())]);
    assert!(list_all_groups::<u8>(Err(1)).is_empty());
    let many: Result<Vec<Entry>, u8> =
        Ok((0..1500).map(|n| entry(n, Value::Text(format!("g{n}")))).collect());
    assert_eq!(list_all_groups(many).len(), 1500);
    let search = group_choices_search();
    assert!(matches!(search.filter, SearchFilter::ClassIs(EntryClass::Group)));
    assert_eq!(search.query.count, None);
    assert_eq!(search.query.start_index, None);
    assert_eq!(search.query.sort_by, Some(Attribute::Name));
}

#[test]
fn new_person_leaves_out_a_blank_mail_address() {
    for (mail, stored) in [(None, None), (Some(""), None), (Some("a@b"), Some("a@b"))] {
        let m = create_person(CreatePersonForm {
            name: "alice".to_string(),
            displayname: "Alice".to_string(),
            mail: mail.map(|s: &str| s.to_string()),
        });
        assert!(matches!(m.success, Success::GoTo(Location::Page(Urls::Admin))));
        match m.request {
            WriteRequest::Create(attrs) => {
                assert!(matches!(attrs.get(Attribute::Name), Some(NewValue::Text(s)) if s == "alice"));
                assert!(matches!(attrs.get(Attribute::DisplayName), Some(NewValue::Text(s)) if s == "Alice"));
                match (attrs.get(Attribute::Mail), stored) {
                    (Some(NewValue::Text(s)), Some(t)) => assert_eq!(s, t),
                    (None, None) => {}
                    _ => panic!("mail address differs"),
                }
                match attrs.get(Attribute::Class) {
                    Some(NewValue::Classes(c)) => assert_eq!(
                        *c,
                        [EntryClass::Person, EntryClass::Account, EntryClass::Object]
                    ),
                    _ => panic!("no classes"),
                }
            }
            _ => panic!("not a creation"),
        }
    }
}

#[test]
fn deleting_a_person_names_it() {
    let m = delete_person(ID);
    assert!(matches!(
        &m.request,
        WriteRequest::Delete(EntryFilter::ClassAndId(EntryClass::Person, id)) if id == ID_TEXT
    ));
    assert!(matches!(m.success, Success::GoTo(Location::Page(Urls::Admin))));
    assert!(matches!(m.into_parts().1.conclude(Err(7)), Reply::ErrorToast(OperationError::Server(7))));
}

#[test]
fn saving_a_person_writes_changes_only() {
    let form = SavePersonForm {
        account_name: "alice".to_string(),
        displayname: "Alice".to_string(),
        legalname: Some("Alice Example".to_string()),
        description: Some("new".to_string()),
    };
    let info: Result<_, OperationError<u8>> = Ok((person(vec![], None, None), access(false, vec![])));
    let put = edit_person(ID, form.clone(), info).unwrap();
    assert_eq!(put.id, ID);
    assert!(put.attrs.get(Attribute::LegalName).is_none());
    assert_eq!(put.attrs.get(Attribute::Name), Some(&Some("alice".to_string())));
    assert_eq!(put.attrs.get(Attribute::DisplayName), Some(&Some("Alice".to_string())));
    assert_eq!(put.attrs.get(Attribute::Description), Some(&Some("new".to_string())));
    let info: Result<_, OperationError<u8>> = Ok((person(vec![], None, None), access(false, vec![])));
    let cleared = SavePersonForm { legalname: None, description: None, ..form.clone() };
    let put = edit_person(ID, cleared, info).unwrap();
    assert_eq!(put.attrs.get(Attribute::LegalName), Some(&None));
    assert!(put.attrs.get(Attribute::Description).is_none());
    let failed: Result<(Person<()>, Access), OperationError<u8>> = Err(OperationError::Server(3));
    assert!(matches!(edit_person(ID, form, failed), Err(Reply::WebError(OperationError::Server(3)))));
}

#[test]
fn saving_a_person_is_answered() {
    assert!(matches!(edit_person_reply::<u8>(PutOutcome::Written), Reply::Done(Success::SavedToast)));
    assert!(matches!(
        edit_person_reply(PutOutcome::Refused(1u8)),
        Reply::ErrorToast(OperationError::Server(1))
    ));
    assert!(matches!(
        edit_person_reply::<u8>(PutOutcome::Unencodable),
        Reply::ErrorPage(OperationError::Backend)
    ));
}

#[test]
fn removing_reverses_adding_for_persons() {
    let mail = || MailForm { mail: "a@b".to_string() };
    match (add_person_mail(ID, mail()).request, remove_person_mail(ID, mail()).request) {
        (
            WriteRequest::AppendAttribute { id, attribute, values, .. },
            WriteRequest::RemoveValues { id: id2, attribute: attribute2, values: values2, .. },
        ) => {
            assert!(named(&id, ID_TEXT) && named(&id2, ID_TEXT));
            assert_eq!((attribute, attribute2), (Attribute::Mail, Attribute::Mail));
            assert_eq!(values, ["a@b"]);
            assert_eq!(values2, ["a@b"]);
        }
        _ => panic!("not an addition and a removal"),
    }
    let group = || GroupRefForm { group: "staff".to_string() };
    assert!(reloads(&add_person_group(ID, group())));
    match (add_person_group(ID, group()).request, remove_person_group(ID, group()).request) {
        (
            WriteRequest::AppendAttribute { id, attribute, values, filter },
            WriteRequest::RemoveValues { id: id2, attribute: attribute2, values: values2, .. },
        ) => {
            assert!(named(&id, "staff") && named(&id2, "staff"));
            assert_eq!((attribute, attribute2), (Attribute::Member, Attribute::Member));
            assert_eq!(values, [ID_TEXT]);
            assert_eq!(values2, [ID_TEXT]);
            assert!(matches!(filter, EntryFilter::Class(EntryClass::Group)));
        }
        _ => panic!("not an addition and a removal"),
    }
}

fn set_to(plan: Plan, wanted: Attribute, value: &str) -> bool {
    match plan {
        Plan::Submit(m) => {
            reloads(&m)
                && matches!(
                    &m.request,
                    WriteRequest::SetAttribute { attribute, values, .. }
                        if *attribute == wanted && values.len() == 1 && values[0] == value
                )
        }
        Plan::Finish(_) => false,
    }
}

#[test]
fn validity_is_set_from_readable_values() {
    let form = || DateTimeForm { datetime: "2030-05-06T07:08".to_string() };
    assert!(set_to(set_account_expire(ID, form()), Attribute::AccountExpire, "2030-05-06T07:08:00Z"));
    assert!(set_to(
        set_account_valid_from(ID, form()),
        Attribute::AccountValidFrom,
        "2030-05-06T07:08:00Z"
    ));
    let seconds = DateTimeForm { datetime: " 2030-05-06T07:08:09.5 ".to_string() };
    assert!(set_to(
        set_account_expire(ID, seconds),
        Attribute::AccountExpire,
        "2030-05-06T07:08:09.5Z"
    ));
    let blank = set_account_expire(ID, DateTimeForm { datetime: " ".to_string() });
    assert!(matches!(blank, Plan::Finish(Success::GoTo(Location::Path(p))) if p == PAGE));
    let wrong = set_account_valid_from(ID, DateTimeForm { datetime: "soon".to_string() });
    assert!(matches!(wrong, Plan::Finish(Success::GoTo(Location::Path(p))) if p == PAGE));
}

#[test]
fn disabling_expires_the_account_now() {
    let m = disable_account(ID, 1_700_000_000_000_000_000);
    assert!(set_to(Plan::Submit(m), Attribute::AccountExpire, "2023-11-14T22:13:20Z"));
    let m = disable_account(ID, i128::MIN);
    assert!(set_to(Plan::Submit(m), Attribute::AccountExpire, "1970-01-01T00:00:00Z"));
}

#[test]
fn clearing_purges_the_attribute() {
    for (m, expected) in [
        (enable_account(ID), Attribute::AccountExpire),
        (clear_account_valid_from(ID), Attribute::AccountValidFrom),
        (clear_account_lockout(ID), Attribute::AccountSoftlockExpire),
    ] {
        assert!(reloads(&m));
        assert!(matches!(
            &m.request,
            WriteRequest::PurgeAttribute { id, attribute, filter: EntryFilter::Class(EntryClass::Person) }
                if named(id, ID_TEXT) && *attribute == expected
        ));
    }
}

#[test]
fn reset_links_carry_the_token() {
    let intent = reset_intent(ID);
    assert!(named(&intent.id, ID_TEXT));
    assert_eq!(intent.ttl, None);
    let link = |origin: &str| generate_reset_link::<u8>(origin, "/ui/reset", Ok("abc-123".to_string()));
    assert!(matches!(
        link("https://idm.example.com"),
        Some(Reply::ResetLink(s)) if s == "https://idm.example.com/ui/reset?token=abc-123"
    ));
    assert!(matches!(
        link("https://idm.example.com:8443/old/path?x=1"),
        Some(Reply::ResetLink(s)) if s == "https://idm.example.com:8443/ui/reset?token=abc-123"
    ));
    assert!(matches!(
        link("https://idm.example.com/#top"),
        Some(Reply::ResetLink(s)) if s == "https://idm.example.com/ui/reset?token=abc-123#top"
    ));
    assert!(matches!(
        link("HTTPS://B\u{fc}cher.example:443/x"),
        Some(Reply::ResetLink(s)) if s == "https://xn--bcher-kva.example/ui/reset?token=abc-123"
    ));
    assert!(matches!(
        generate_reset_link::<u8>("a:/b", "//[x", Ok("t".to_string())),
        Some(Reply::ResetLink(s)) if s == "a://[x?token=t"
    ));
    assert!(matches!(
        generate_reset_link::<u8>("mailto:x", "/r", Ok("t".to_string())),
        Some(Reply::ResetLink(s)) if s == "mailto:%2Fr?token=t"
    ));
    assert!(link("not a url").is_none());
    let spaced = generate_reset_link::<u8>("https://idm.example.com", "/ui/a b", Ok("x y".to_string()));
    assert!(matches!(
        spaced,
        Some(Reply::ResetLink(s)) if s == "https://idm.example.com/ui/a%20b?token=x%20y"
    ));
    let refused = generate_reset_link("https://idm.example.com", "/ui/reset", Err(5u8));
    assert!(matches!(refused, Some(Reply::ErrorToast(OperationError::Server(5)))));
}

#[test]
fn links_have_room_for_ordinary_parts() {
    assert!(link_fits("https://idm.example.com", "/ui/reset", "abc"));
    let long = "x".repeat(22_000_000);
    assert!(!link_fits(&long, "/", ""));
    assert!(link_fits("https://idm.example.com", &long, &long));
}

#[test]
fn different_entries_have_different_pages() {
    assert_eq!(admin_views::ident::person_view_reload(ID), PAGE);
    assert_ne!(admin_views::ident::person_view_reload(ID), admin_views::ident::person_view_reload(ID + 1));
    assert_eq!(
        admin_views::ident::group_view_reload(10),
        "/ui/admin/group/00000000-0000-0000-0000-00000000000a/view"
    );
    assert_ne!(admin_views::ident::group_view_reload(10), admin_views::ident::group_view_reload(11));
    assert_eq!(admin_views::ident::oauth2_view_reload("wiki"), "/ui/admin/oauth2/wiki/view");
}

#[test]
fn ssh_keys_are_added_and_removed_by_tag() {
    let m = add_person_ssh_key(ID, AddSshKeyForm { tag: "laptop".to_string(), key: "ssh-ed25519 x".to_string() });
    assert!(reloads(&m));
    assert!(matches!(
        &m.request,
        WriteRequest::CreateSshKey { id, tag, key, filter: EntryFilter::Class(EntryClass::Account) }
            if named(id, ID_TEXT) && tag == "laptop" && key == "ssh-ed25519 x"
    ));
    let m = remove_person_ssh_key(ID, SshKeyTagForm { tag: "laptop".to_string() });
    assert!(matches!(
        &m.request,
        WriteRequest::RemoveValues {
            attribute: Attribute::SshPublicKey, values, filter: EntryFilter::Class(EntryClass::Account), ..
        } if values.len() == 1 && values[0] == "laptop"
    ));
}
