use admin_views::apps::{arrange, view_apps_get, AppCard, AppLink};
use admin_views::attribute::{AttrMap, Attribute, EntryClass};
use admin_views::entry::{Entry, ScopeMap, Value};
use admin_views::oauth2::{
    add_oauth2_origin, add_oauth2_scopemap, create_oauth2, delete_oauth2, oauth2_detail_reads,
    oauth2_list_reads, oauth2_read, oauth2_search, remove_oauth2_origin, remove_oauth2_scopemap, secret_to_read,
    set_oauth2_landing, view_oauth2_create_get, view_oauth2_detail_get, view_oauth2_get,
    CreateOauth2Form, LandingForm, OriginForm, ScopeMapForm, ScopeMapGroupForm,
};
use admin_views::reply::{Location, OperationError, Reply, Success, Urls};
use admin_views::request::{EntryFilter, EntryId, NewValue, WriteRequest};
use admin_views::routes::{admin_api_router, admin_router, AdminAction, AdminPage};
use admin_views::settings::{
    add_badlist, add_denied_name, domain_read, remove_badlist, remove_denied_name,
    set_domain_settings, settings_reads, system_read, view_settings_get, BatchStep, DomainSettingsForm,
    SystemValueForm, WriteBatch,
};

fn text(s: &str) -> Value {
    Value::Text(s.to_string())
}

fn client(class: Value) -> Entry {
    let scopes = ScopeMap { group: "staff".to_string(), group_uuid: 4, scopes: vec!["openid".to_string()] };
    Entry {
        id: 1,
        attrs: AttrMap::new()
            .with(Attribute::Class, class)
            .with(Attribute::Name, text("wiki"))
            .with(Attribute::DisplayName, text("Wiki"))
            .with(Attribute::OAuth2RsOrigin, text("https://wiki.example.com"))
            .with(Attribute::OAuth2RsScopeMap, Value::ScopeMaps(vec![scopes])),
    }
}

#[test]
fn client_list_has_a_row_for_each_entry() {
    let search = oauth2_search();
    assert_eq!(search.query.attributes, [Attribute::Name, Attribute::DisplayName]);
    let found: Result<Vec<Entry>, u8> =
        Ok(vec![client(Value::Other), Entry { id: 2, attrs: AttrMap::new() }]);
    let page = view_oauth2_get(true, Ok(true), found).unwrap();
    assert!(matches!(&page.push_url, Location::Path(p) if p == "/ui/admin/oauth2"));
    let rows: Vec<(&str, &str)> = page
        .partial
        .clients
        .iter()
        .map(|c| (c.name.as_str(), c.displayname.as_str()))
        .collect();
    assert_eq!(rows, [("wiki", "Wiki"), ("", "")]);
    assert!(matches!(
        view_oauth2_get(true, Err(1u8), Err(2)),
        Err(Reply::ErrorPage(OperationError::Server(1)))
    ));
    assert!(matches!(
        view_oauth2_get(true, Ok(true), Err(2u8)),
        Err(Reply::ErrorPage(OperationError::Server(2)))
    ));
}

#[test]
fn confidential_clients_show_their_secret() {
    let classes = || Value::Texts(vec!["account".to_string(), "basic".to_string()]);
    assert!(matches!(
        secret_to_read(&Ok(true), &Ok::<Entry, u8>(client(classes())), "wiki", "public"),
        Some(EntryFilter::Oauth2Client(n)) if n == "wiki"
    ));
    let page = view_oauth2_detail_get::<u8>(
        "wiki", false, Ok(true), Ok(client(classes())), "public", Ok(Some("s3".to_string())),
    )
    .unwrap();
    assert!(matches!(&page.push_url, Location::Path(p) if p == "/ui/admin/oauth2/wiki/view"));
    assert_eq!(page.partial.basic_secret.as_deref(), Some("s3"));
    assert!(!page.partial.is_public);
    assert_eq!((page.partial.spn.as_str(), page.partial.landing.as_str()), ("", ""));
    assert_eq!(page.partial.origins, ["https://wiki.example.com"]);
    assert_eq!(page.partial.scope_maps.len(), 1);
    assert_eq!(page.partial.scope_maps[0].scopes, ["openid"]);
    let unread = view_oauth2_detail_get(
        "wiki", false, Ok(true), Ok(client(classes())), "public", Err(3u8),
    );
    assert_eq!(unread.unwrap().partial.basic_secret, None);
}

#[test]
fn public_clients_have_no_secret() {
    let classes = || Value::Texts(vec!["account".to_string(), "public".to_string()]);
    for entry in [client(classes()), client(text("public"))] {
        assert!(secret_to_read(&Ok(true), &Ok::<Entry, u8>(entry), "wiki", "public").is_none());
    }
    let page = view_oauth2_detail_get::<u8>(
        "wiki", true, Ok(false), Ok(client(classes())), "public", Ok(Some("s3".to_string())),
    )
    .unwrap();
    assert!(page.partial.is_public);
    assert_eq!(page.partial.basic_secret, None);
    assert!(matches!(
        view_oauth2_detail_get("wiki", true, Ok(true), Err(9u8), "public", Ok(None)),
        Err(Reply::ErrorPage(OperationError::Server(9)))
    ));
    assert_eq!(oauth2_read("wiki").query.attributes.len(), 7);
}

#[test]
fn nothing_is_read_without_a_token() {
    assert!(matches!(settings_reads(Err(1u8)), Err(Reply::ErrorPage(OperationError::Server(1)))));
    assert!(matches!(
        settings_reads::<u8>(Ok(true)),
        Ok((true, domain, system))
            if matches!(domain.id, EntryId::DomainInfo) && matches!(system.id, EntryId::SystemConfig)
    ));
    assert!(matches!(oauth2_list_reads(Err(2u8)), Err(Reply::ErrorPage(OperationError::Server(2)))));
    assert!(matches!(oauth2_list_reads::<u8>(Ok(false)), Ok((false, _))));
    assert!(matches!(
        oauth2_detail_reads(Err(3u8), "wiki"),
        Err(Reply::ErrorPage(OperationError::Server(3)))
    ));
    assert!(matches!(
        oauth2_detail_reads::<u8>(Ok(true), "wiki"),
        Ok((true, read)) if matches!(&read.id, EntryId::Named(n) if n == "wiki")
    ));
    let basic = || Ok(client(text("basic")));
    assert!(secret_to_read(&Err(4u8), &basic(), "wiki", "public").is_none());
    assert!(secret_to_read(&Ok(true), &Err(5u8), "wiki", "public").is_none());
}

#[test]
fn new_clients_are_public_or_confidential() {
    for (rs_type, landing, class, landed) in [
        (Some("public"), " https://a ", EntryClass::OAuth2ResourceServerPublic, true),
        (Some("basic"), "  ", EntryClass::OAuth2ResourceServerBasic, false),
        (None, "", EntryClass::OAuth2ResourceServerBasic, false),
    ] {
        let m = create_oauth2(CreateOauth2Form {
            name: "wiki".to_string(),
            displayname: "Wiki".to_string(),
            landing: landing.to_string(),
            rs_type: rs_type.map(|s: &str| s.to_string()),
        });
        assert!(matches!(&m.success, Success::GoTo(Location::Path(p)) if p == "/ui/admin/oauth2"));
        match m.request {
            WriteRequest::Create(attrs) => {
                match attrs.get(Attribute::Class) {
                    Some(NewValue::Classes(c)) => assert_eq!(
                        *c,
                        [EntryClass::OAuth2ResourceServer, EntryClass::Account, EntryClass::Object, class]
                    ),
                    _ => panic!("no classes"),
                }
                match attrs.get(Attribute::OAuth2RsOriginLanding) {
                    Some(NewValue::Text(s)) => assert!(landed && s == landing),
                    _ => assert!(!landed),
                }
            }
            _ => panic!("not a creation"),
        }
    }
    assert!(view_oauth2_create_get::<u8>(true, Ok(true)).unwrap().partial);
}

#[test]
fn clients_are_changed_by_name() {
    let m = set_oauth2_landing("wiki", LandingForm { landing: "https://l".to_string() });
    assert!(matches!(&m.success, Success::GoTo(Location::Path(p)) if p == "/ui/admin/oauth2/wiki/view"));
    assert!(matches!(
        &m.request,
        WriteRequest::SetAttribute { id: EntryId::Named(n), values, .. }
            if n == "wiki" && values[0] == "https://l"
    ));
    let origin = || OriginForm { origin: "https://o".to_string() };
    assert!(matches!(
        &add_oauth2_origin("wiki", origin()).request,
        WriteRequest::AppendAttribute { attribute: Attribute::OAuth2RsOrigin, values, .. }
            if values[0] == "https://o"
    ));
    assert!(matches!(
        &remove_oauth2_origin("wiki", origin()).request,
        WriteRequest::RemoveValues { attribute: Attribute::OAuth2RsOrigin, values, .. }
            if values[0] == "https://o"
    ));
    assert!(matches!(
        &delete_oauth2("wiki").request,
        WriteRequest::Delete(EntryFilter::Oauth2Client(n)) if n == "wiki"
    ));
}

#[test]
fn scope_maps_split_their_scopes() {
    let form = |s: Option<&str>| ScopeMapForm {
        group: "staff".to_string(),
        scopes: s.map(|s| s.to_string()),
    };
    match add_oauth2_scopemap("wiki", form(Some("openid, email"))).request {
        WriteRequest::UpdateScopeMap { group, scopes, filter } => {
            assert_eq!(group, "staff");
            assert_eq!(scopes, ["openid", "email"]);
            assert!(matches!(filter, EntryFilter::Oauth2Client(n) if n == "wiki"));
        }
        _ => panic!("not an update"),
    }
    match add_oauth2_scopemap("wiki", form(None)).request {
        WriteRequest::UpdateScopeMap { scopes, .. } => assert!(scopes.is_empty()),
        _ => panic!("not an update"),
    }
    assert!(matches!(
        &remove_oauth2_scopemap("wiki", ScopeMapGroupForm { group: "staff".to_string() }).request,
        WriteRequest::DeleteScopeMap { group, .. } if group == "staff"
    ));
}

#[test]
fn settings_show_what_can_be_read() {
    assert!(matches!(domain_read().id, EntryId::DomainInfo));
    assert!(matches!(system_read().id, EntryId::SystemConfig));
    let domain = Entry {
        id: 1,
        attrs: AttrMap::new().with(Attribute::DomainDisplayName, text("Example")),
    };
    let page = view_settings_get(false, Ok(true), Ok(domain), Err(1u8)).unwrap();
    assert!(matches!(&page.push_url, Location::Path(p) if p == "/ui/admin/settings"));
    let shown = page.partial;
    assert!(shown.can_rw && shown.domain_available && !shown.system_available);
    assert_eq!(shown.domain_display_name, "Example");
    assert_eq!((shown.domain_ldap_basedn.as_str(), shown.domain_ssid.as_str()), ("", ""));
    assert!(shown.badlist.is_empty() && shown.denied_names.is_empty());
    let system = Entry {
        id: 2,
        attrs: AttrMap::new()
            .with(Attribute::BadlistPassword, Value::Texts(vec!["a".to_string(), "b".to_string()]))
            .with(Attribute::DeniedName, text("root")),
    };
    let shown = view_settings_get(true, Ok(false), Err(1u8), Ok(system)).unwrap().partial;
    assert_eq!(shown.badlist, ["a", "b"]);
    assert_eq!(shown.denied_names, ["root"]);
    assert!(matches!(
        view_settings_get(true, Err(4u8), Err(1), Err(2)),
        Err(Reply::ErrorPage(OperationError::Server(4)))
    ));
}

fn domain_form(name: Option<&str>, basedn: Option<&str>, ssid: Option<&str>) -> WriteBatch {
    let own = |s: Option<&str>| s.map(|s| s.to_string());
    set_domain_settings(DomainSettingsForm {
        display_name: own(name),
        ldap_basedn: own(basedn),
        ssid: own(ssid),
    })
}

#[test]
fn display_name_is_set_but_never_cleared() {
    for blank in [None, Some(""), Some("  ")] {
        let batch = domain_form(blank, Some(" dc=x "), blank);
        assert_eq!(batch.requests.len(), 2);
        assert!(matches!(
            &batch.requests[0],
            WriteRequest::SetAttribute { attribute: Attribute::DomainLdapBasedn, values, .. }
                if values[0] == "dc=x"
        ));
        assert!(matches!(
            &batch.requests[1],
            WriteRequest::PurgeAttribute { attribute: Attribute::DomainSsid, .. }
        ));
    }
    let batch = domain_form(Some(" Example "), None, Some("net"));
    assert!(matches!(
        &batch.requests[0],
        WriteRequest::SetAttribute { id: EntryId::DomainInfo, attribute: Attribute::DomainDisplayName, values, .. }
            if values[0] == "Example"
    ));
    assert_eq!(batch.requests.len(), 3);
}

fn run(batch: WriteBatch, results: Vec<Result<(), u8>>) -> (usize, Reply<u8>) {
    let mut made: usize = 0;
    let mut step = batch.advance(Ok(()));
    let mut results = results.into_iter();
    loop {
        match step {
            BatchStep::Submit(_, rest) => {
                made += 1;
                step = rest.advance(results.next().unwrap());
            }
            BatchStep::Finish(reply) => return (made, reply),
        }
    }
}

#[test]
fn settings_are_written_up_to_the_first_failure() {
    let batch = || domain_form(Some("Example"), Some("dc=x"), Some("net"));
    let (made, reply) = run(batch(), vec![Ok(()), Ok(()), Ok(())]);
    assert_eq!(made, 3);
    assert!(matches!(reply, Reply::Done(Success::GoTo(Location::Path(p))) if p == "/ui/admin/settings"));
    for k in 0..3usize {
        let mut results: Vec<Result<(), u8>> = vec![Ok(()); k];
        results.push(Err(8));
        let (made, reply) = run(batch(), results);
        assert_eq!(made, k + 1);
        assert!(matches!(reply, Reply::ErrorToast(OperationError::Server(8))));
    }
}

#[test]
fn system_values_are_added_and_removed() {
    let form = || SystemValueForm { value: "x".to_string() };
    for (add, remove, expected) in [
        (add_badlist(form()), remove_badlist(form()), Attribute::BadlistPassword),
        (add_denied_name(form()), remove_denied_name(form()), Attribute::DeniedName),
    ] {
        assert!(matches!(
            &add.request,
            WriteRequest::AppendAttribute {
                id: EntryId::SystemConfig, attribute, values, filter: EntryFilter::Class(EntryClass::SystemConfig),
            } if *attribute == expected && values[0] == "x"
        ));
        assert!(matches!(
            &remove.request,
            WriteRequest::RemoveValues { id: EntryId::SystemConfig, attribute, values, .. }
                if *attribute == expected && values[0] == "x"
        ));
    }
}

fn app(name: &str, group: Option<&str>, order: Option<u32>) -> AppLink {
    AppLink::Oauth2 {
        name: name.to_lowercase(),
        display_name: name.to_string(),
        redirect_url: "https://x/".to_string(),
        has_image: false,
        group: group.map(|s| s.to_string()),
        order,
    }
}

fn names(apps: &[AppCard]) -> Vec<&str> {
    apps.iter().map(|a| a.display_name.as_str()).collect()
}

#[test]
fn applications_are_arranged() {
    let links: Vec<AppLink> = vec![
        app("zulu", None, Some(1)),
        app("Beta", Some("tools"), None),
        app("alpha", Some("Tools"), None),
        app("gamma", Some("TOOLS"), Some(7)),
        app("Wiki", Some("\u{c9}quipe"), None),
        app("Yank", None, None),
        app("chat", Some("Apps"), None),
    ];
    let page = view_apps_get::<u8>(false, Ok(links), Ok(())).unwrap();
    assert!(matches!(page.push_url, Location::Page(Urls::Apps)));
    assert!(page.whole && page.partial.has_groups);
    assert_eq!(
        names(&page.partial.apps),
        ["chat", "gamma", "alpha", "Beta", "Wiki", "zulu", "Yank"]
    );
    assert_eq!(page.partial.apps[6].order, None);
    assert_eq!(page.partial.apps[5].order, Some(1));
    assert_eq!(page.partial.apps[6].group, "");
}

#[test]
fn applications_without_a_position_come_last() {
    for (unset, last) in [("Aaa", "Zzz"), ("Same", "Same")] {
        let links = vec![app(unset, None, None), app(last, None, Some(u32::MAX))];
        let page = view_apps_get::<u8>(false, Ok(links), Ok(())).unwrap();
        assert_eq!(names(&page.partial.apps), [last, unset]);
        assert_eq!(page.partial.apps[0].order, Some(u32::MAX));
        assert_eq!(page.partial.apps[1].order, None);
        assert!(!page.partial.has_groups);
    }
    let links = vec![
        app("free", Some("tools"), None),
        app("late", Some("Tools"), Some(u32::MAX)),
        app("loose", None, Some(0)),
    ];
    let page = view_apps_get::<u8>(false, Ok(links), Ok(())).unwrap();
    assert_eq!(names(&page.partial.apps), ["late", "free", "loose"]);
}

#[test]
fn applications_that_tie_keep_their_order() {
    let card = |name: &str, label: &str| AppCard {
        name: name.to_string(),
        display_name: label.to_string(),
        redirect_url: String::new(),
        has_image: false,
        group: String::new(),
        order: Some(0),
    };
    let sorted = arrange(vec![card("1", "b"), card("2", "A"), card("3", "a"), card("4", "B")]);
    let order: Vec<&str> = sorted.iter().map(|c| c.name.as_str()).collect();
    assert_eq!(order, ["2", "3", "1", "4"]);
}

#[test]
fn applications_without_groups() {
    let page = view_apps_get::<u8>(true, Ok(vec![app("a", None, None)]), Ok(())).unwrap();
    assert!(!page.partial.has_groups && !page.whole);
    assert!(matches!(
        view_apps_get(false, Err(1u8), Err(2)),
        Err(Reply::ErrorPage(OperationError::Server(1)))
    ));
    assert!(matches!(
        view_apps_get(false, Ok(vec![]), Err(2u8)),
        Err(Reply::ErrorPage(OperationError::Server(2)))
    ));
}

#[test]
fn routes_lead_to_one_place_each() {
    let pages = admin_router();
    assert_eq!(pages.len(), 7);
    assert_eq!(AdminPage::Person.path(), "/person/{person_uuid}/view");
    let actions = admin_api_router();
    assert_eq!(actions.len(), 30);
    assert_eq!(AdminAction::RemoveDeniedName.path(), "/settings/denied_name/remove");
    for i in 0..actions.len() {
        for j in 0..i {
            assert_ne!(actions[i].path(), actions[j].path());
        }
    }
    for i in 0..pages.len() {
        for j in 0..i {
            assert_ne!(pages[i].path(), pages[j].path());
        }
    }
}
