//! The view of the settings of the domain and the system, and the changes to them.
use crate::attribute::{Attribute, EntryClass};
use crate::entry::{attr_string, attr_strings, Entry};
use crate::ident::settings_reload;
use crate::reply::{
    refusal, reload_after, reloading, require_token, FailureStyle, Location, LocationView, Mutation,
    MutationView, OperationError, Page, Reply, ReplyView, Success, SuccessView,
};
use crate::request::{
    append_value, appending, law_writes_change_one_attribute, plain_query, purge_values, purging,
    query_for, remove_value, removing, restricted_to, reverses, set_value, setting, values_after,
    values_after_all, EntryId, EntryIdView, EntryRead, EntryReadView, WriteRequest,
    WriteRequestView,
};
use crate::text::{trim, trimmed};
use vstd::prelude::*;
use vstd::string::*;

verus! {

/// The attributes of the domain that the settings show.
pub open spec fn domain_attribute_list() -> Seq<Attribute> {
    seq![Attribute::DomainDisplayName, Attribute::DomainLdapBasedn, Attribute::DomainSsid]
}

/// The attributes of the system configuration that the settings show.
pub open spec fn system_attribute_list() -> Seq<Attribute> {
    seq![Attribute::BadlistPassword, Attribute::DeniedName]
}

/// The read of the settings of the domain.
pub open spec fn domain_entry_read() -> EntryReadView {
    EntryReadView {
        id: EntryIdView::DomainInfo,
        class: EntryClass::DomainInfo,
        query: plain_query(domain_attribute_list()),
    }
}

/// The read of the configuration of the system.
pub open spec fn system_entry_read() -> EntryReadView {
    EntryReadView {
        id: EntryIdView::SystemConfig,
        class: EntryClass::SystemConfig,
        query: plain_query(system_attribute_list()),
    }
}

/// The read of the settings of the domain.
pub fn domain_read() -> (r: EntryRead)
    ensures
        r@ == domain_entry_read(),
{
    let attributes: Vec<Attribute> = vec![
        Attribute::DomainDisplayName,
        Attribute::DomainLdapBasedn,
        Attribute::DomainSsid,
    ];
    assert(attributes@ =~= domain_attribute_list());
    EntryRead {
        id: EntryId::DomainInfo,
        class: EntryClass::DomainInfo,
        query: query_for(attributes),
    }
}

/// The read of the configuration of the system.
pub fn system_read() -> (r: EntryRead)
    ensures
        r@ == system_entry_read(),
{
    let attributes: Vec<Attribute> = vec![Attribute::BadlistPassword, Attribute::DeniedName];
    assert(attributes@ =~= system_attribute_list());
    EntryRead {
        id: EntryId::SystemConfig,
        class: EntryClass::SystemConfig,
        query: query_for(attributes),
    }
}

/// What the settings read: both entries for a viewer with a token, whose privileges are handed on,
/// and nothing for a viewer without one, who gets an error page.
pub fn settings_reads<E>(token: Result<bool, E>) -> (r: Result<
    (bool, EntryRead, EntryRead),
    Reply<E>,
>)
    ensures
        match token {
            Err(e) => r is Err && r->Err_0@ == refusal(FailureStyle::Page, e),
            Ok(can_rw) => {
                &&& r is Ok
                &&& r->Ok_0.0 == can_rw
                &&& r->Ok_0.1@ == domain_entry_read()
                &&& r->Ok_0.2@ == system_entry_read()
            },
        },
{
    match require_token(token) {
        Ok(can_rw) => Ok((can_rw, domain_read(), system_read())),
        Err(reply) => Err(reply),
    }
}

/// The content of the settings.
#[derive(Debug)]
pub struct SettingsPartial {
    /// Whether the viewer has unlocked their privileges.
    pub can_rw: bool,
    /// Whether the viewer may read the settings of the domain.
    pub domain_available: bool,
    /// Whether the viewer may read the configuration of the system.
    pub system_available: bool,
    pub domain_display_name: String,
    pub domain_ldap_basedn: String,
    pub domain_ssid: String,
    pub badlist: Vec<String>,
    pub denied_names: Vec<String>,
}

/// The text of an attribute of an entry that may be unreadable.
pub open spec fn read_text<E>(read: Result<Entry, E>, attribute: Attribute) -> Seq<char> {
    match read {
        Ok(entry) => entry@.text_or_empty(attribute),
        Err(_) => Seq::empty(),
    }
}

/// The texts of an attribute of an entry that may be unreadable.
pub open spec fn read_texts<E>(read: Result<Entry, E>, attribute: Attribute) -> Seq<Seq<char>> {
    match read {
        Ok(entry) => entry@.texts(attribute),
        Err(_) => Seq::empty(),
    }
}

fn text_in<E>(read: &Result<Entry, E>, attribute: Attribute) -> (r: String)
    ensures
        r@ == read_text(*read, attribute),
{
    match read {
        Ok(entry) => attr_string(entry, attribute),
        Err(_) => String::new(),
    }
}

fn texts_in<E>(read: &Result<Entry, E>, attribute: Attribute) -> (r: Vec<String>)
    ensures
        r.deep_view() == read_texts(*read, attribute),
{
    match read {
        Ok(entry) => attr_strings(entry, attribute),
        Err(_) => {
            let out: Vec<String> = Vec::new();
            assert(out.deep_view() =~= Seq::<Seq<char>>::empty());
            out
        },
    }
}

/// The page of the settings. A viewer without a token gets an error page. A viewer that may not
/// read one of the two entries gets a page without that part.
pub fn view_settings_get<E>(
    is_htmx: bool,
    token: Result<bool, E>,
    domain: Result<Entry, E>,
    system: Result<Entry, E>,
) -> (r: Result<Page<SettingsPartial>, Reply<E>>)
    ensures
        match token {
            Err(e) => r is Err && r->Err_0@ == refusal(FailureStyle::Page, e),
            Ok(can_rw) => {
                &&& r is Ok
                &&& r->Ok_0.push_url@ == LocationView::Path("/ui/admin/settings"@)
                &&& r->Ok_0.whole == !is_htmx
                &&& settings_shown(r->Ok_0.partial, can_rw, domain, system)
                &&& r->Ok_0.partial.can_rw == can_rw
                &&& r->Ok_0.partial.domain_available == domain is Ok
                &&& r->Ok_0.partial.system_available == system is Ok
                &&& r->Ok_0.partial.domain_display_name@ == read_text(
                    domain,
                    Attribute::DomainDisplayName,
                )
                &&& r->Ok_0.partial.domain_ldap_basedn@ == read_text(
                    domain,
                    Attribute::DomainLdapBasedn,
                )
                &&& r->Ok_0.partial.domain_ssid@ == read_text(domain, Attribute::DomainSsid)
                &&& r->Ok_0.partial.badlist.deep_view() == read_texts(
                    system,
                    Attribute::BadlistPassword,
                )
                &&& r->Ok_0.partial.denied_names.deep_view() == read_texts(
                    system,
                    Attribute::DeniedName,
                )
            },
        },
{
    let can_rw: bool = match require_token(token) {
        Ok(can_rw) => can_rw,
        Err(reply) => {
            return Err(reply);
        },
    };
    let partial = SettingsPartial {
        can_rw,
        domain_available: domain.is_ok(),
        system_available: system.is_ok(),
        domain_display_name: text_in(&domain, Attribute::DomainDisplayName),
        domain_ldap_basedn: text_in(&domain, Attribute::DomainLdapBasedn),
        domain_ssid: text_in(&domain, Attribute::DomainSsid),
        badlist: texts_in(&system, Attribute::BadlistPassword),
        denied_names: texts_in(&system, Attribute::DeniedName),
    };
    Ok(Page { push_url: Location::Path(settings_reload()), whole: !is_htmx, partial })
}

/// The form for the settings of the domain.
#[derive(Clone, Debug)]
pub struct DomainSettingsForm {
    pub display_name: Option<String>,
    pub ldap_basedn: Option<String>,
    pub ssid: Option<String>,
}

/// The text that a field of a form holds, if it is not blank.
pub open spec fn filled(value: Option<Seq<char>>) -> Option<Seq<char>> {
    match value {
        Some(v) => if trimmed(v).len() > 0 {
            Some(trimmed(v))
        } else {
            None
        },
        None => None,
    }
}

fn fill(value: Option<String>) -> (r: Option<String>)
    ensures
        r.deep_view() == filled(value.deep_view()),
{
    match value {
        Some(v) => {
            let t: String = trim(v.as_str());
            if t.as_str().is_empty() {
                None
            } else {
                Some(t)
            }
        },
        None => None,
    }
}

/// Setting an attribute of the domain to the text of a field, or clearing it if the field is blank.
pub open spec fn domain_change(attribute: Attribute, value: Option<Seq<char>>) -> WriteRequestView {
    match filled(value) {
        Some(v) => setting(EntryIdView::DomainInfo, attribute, v, EntryClass::DomainInfo),
        None => purging(EntryIdView::DomainInfo, attribute, EntryClass::DomainInfo),
    }
}

/// Sets an attribute of the domain, or clears it if the field is blank.
pub fn apply_domain_attr(attribute: Attribute, value: Option<String>) -> (r: WriteRequest)
    ensures
        r@ == domain_change(attribute, value.deep_view()),
{
    match fill(value) {
        Some(v) => set_value(EntryId::DomainInfo, attribute, v, EntryClass::DomainInfo),
        None => purge_values(EntryId::DomainInfo, attribute, EntryClass::DomainInfo),
    }
}

/// Writes that are made one after the other, up to the first that fails.
#[derive(Debug)]
pub struct WriteBatch {
    pub requests: Vec<WriteRequest>,
    pub success: Success,
}

/// Writes that are made one after the other, as a mathematical value.
#[verifier::ext_equal]
pub struct WriteBatchView {
    pub requests: Seq<WriteRequestView>,
    pub success: SuccessView,
}

impl View for WriteBatch {
    type V = WriteBatchView;

    open spec fn view(&self) -> WriteBatchView {
        WriteBatchView {
            requests: self.requests@.map_values(|w: WriteRequest| w@),
            success: self.success@,
        }
    }
}

/// What a batch does next.
#[derive(Debug)]
pub enum BatchStep<E> {
    /// Makes a write, with the rest of the batch after it.
    Submit(WriteRequest, WriteBatch),
    /// Answers the browser.
    Finish(Reply<E>),
}

/// What a batch does next, as a mathematical value.
pub enum BatchStepView<E> {
    Submit(WriteRequestView, WriteBatchView),
    Finish(ReplyView<E>),
}

impl<E> View for BatchStep<E> {
    type V = BatchStepView<E>;

    open spec fn view(&self) -> BatchStepView<E> {
        match self {
            BatchStep::Submit(request, rest) => BatchStepView::Submit(request@, rest@),
            BatchStep::Finish(reply) => BatchStepView::Finish(reply@),
        }
    }
}

impl WriteBatchView {
    /// What the batch does after the result of its last write, which is a success at the start.
    pub open spec fn after<E>(self, last: Result<(), E>) -> BatchStepView<E> {
        match last {
            Err(e) => BatchStepView::Finish(refusal(FailureStyle::Toast, e)),
            Ok(_) => if self.requests.len() == 0 {
                BatchStepView::Finish(ReplyView::Done(self.success))
            } else {
                BatchStepView::Submit(
                    self.requests[0],
                    WriteBatchView { requests: self.requests.drop_first(), ..self },
                )
            },
        }
    }

    /// The writes that are made in a run in which the server answers the writes of the batch with
    /// these results, after the result of an earlier write.
    pub open spec fn submitted<E>(self, last: Result<(), E>, results: Seq<Result<(), E>>) -> Seq<
        WriteRequestView,
    >
        decreases results.len(),
    {
        match self.after(last) {
            BatchStepView::Submit(request, rest) => if results.len() == 0 {
                seq![request]
            } else {
                seq![request] + rest.submitted(results[0], results.drop_first())
            },
            BatchStepView::Finish(_) => Seq::empty(),
        }
    }

    /// The answer to the browser at the end of such a run, if the results last that long.
    pub open spec fn outcome<E>(self, last: Result<(), E>, results: Seq<Result<(), E>>) -> Option<
        ReplyView<E>,
    >
        decreases results.len(),
    {
        match self.after(last) {
            BatchStepView::Submit(_, rest) => if results.len() == 0 {
                None
            } else {
                rest.outcome(results[0], results.drop_first())
            },
            BatchStepView::Finish(reply) => Some(reply),
        }
    }
}

impl WriteBatch {
    /// What the batch does after the result of its last write, which is a success at the start.
    pub fn advance<E>(self, last: Result<(), E>) -> (r: BatchStep<E>)
        ensures
            r@ == self@.after(last),
    {
        if let Err(e) = last {
            return BatchStep::Finish(Reply::ErrorToast(OperationError::Server(e)));
        }
        let ghost given = self@;
        let mut requests: Vec<WriteRequest> = self.requests;
        if requests.len() == 0 {
            return BatchStep::Finish(Reply::Done(self.success));
        }
        let request: WriteRequest = requests.remove(0);
        let rest = WriteBatch { requests, success: self.success };
        assert(rest@.requests =~= given.requests.drop_first());
        BatchStep::Submit(request, rest)
    }
}

/// The writes of a batch are made in order, each once, up to and with the first that fails, and
/// that failure is what the browser is told.
pub proof fn law_batch_stops_at_first_failure<E>(
    batch: WriteBatchView,
    start: Result<(), E>,
    results: Seq<Result<(), E>>,
    k: int,
)
    requires
        start is Ok,
        0 <= k < results.len(),
        k < batch.requests.len(),
        results[k] is Err,
        forall|i: int| 0 <= i < k ==> (#[trigger] results[i]) is Ok,
    ensures
        batch.submitted(start, results) == batch.requests.take(k + 1),
        batch.outcome(start, results) == Some(
            refusal(FailureStyle::Toast, results[k]->Err_0),
        ),
    decreases k,
{
    let rest = WriteBatchView { requests: batch.requests.drop_first(), ..batch };
    let later = results.drop_first();
    if k == 0 {
        reveal_with_fuel(WriteBatchView::submitted, 2);
        reveal_with_fuel(WriteBatchView::outcome, 2);
        assert(rest.submitted(results[0], later) =~= Seq::empty());
        assert(batch.requests.take(1) =~= seq![batch.requests[0]]);
    } else {
        assert(results[0] is Ok);
        assert forall|i: int| 0 <= i < k - 1 implies (#[trigger] later[i]) is Ok by {
            assert(later[i] == results[i + 1]);
        }
        law_batch_stops_at_first_failure(rest, results[0], later, k - 1);
        assert(batch.requests.take(k + 1) =~= seq![batch.requests[0]] + rest.requests.take(k));
    }
}

/// If no write of a batch fails, all of them are made, in order, and the browser is told so.
pub proof fn law_batch_completes<E>(
    batch: WriteBatchView,
    start: Result<(), E>,
    results: Seq<Result<(), E>>,
)
    requires
        start is Ok,
        results.len() == batch.requests.len(),
        forall|i: int| 0 <= i < results.len() ==> (#[trigger] results[i]) is Ok,
    ensures
        batch.submitted(start, results) == batch.requests,
        batch.outcome(start, results) == Some(ReplyView::<E>::Done(batch.success)),
    decreases results.len(),
{
    if results.len() == 0 {
        assert(batch.requests =~= Seq::empty());
    } else {
        let rest = WriteBatchView { requests: batch.requests.drop_first(), ..batch };
        let later = results.drop_first();
        assert(results[0] is Ok);
        assert forall|i: int| 0 <= i < later.len() implies (#[trigger] later[i]) is Ok by {
            assert(later[i] == results[i + 1]);
        }
        law_batch_completes(rest, results[0], later);
        assert(batch.requests =~= seq![batch.requests[0]] + rest.requests);
    }
}

/// The writes that set the settings of the domain. The domain always has a display name, so it is
/// set if the field is filled and left alone otherwise; the other two are set or cleared.
pub open spec fn domain_changes(
    display_name: Option<Seq<char>>,
    ldap_basedn: Option<Seq<char>>,
    ssid: Option<Seq<char>>,
) -> Seq<WriteRequestView> {
    let optional = seq![
        domain_change(Attribute::DomainLdapBasedn, ldap_basedn),
        domain_change(Attribute::DomainSsid, ssid),
    ];
    if filled(display_name) is Some {
        seq![domain_change(Attribute::DomainDisplayName, display_name)] + optional
    } else {
        optional
    }
}

/// Sets the settings of the domain, then shows the settings again.
pub fn set_domain_settings(form: DomainSettingsForm) -> (r: WriteBatch)
    ensures
        r@ == (WriteBatchView {
            requests: domain_changes(
                form.display_name.deep_view(),
                form.ldap_basedn.deep_view(),
                form.ssid.deep_view(),
            ),
            success: SuccessView::GoTo(LocationView::Path("/ui/admin/settings"@)),
        }),
{
    let mut requests: Vec<WriteRequest> = Vec::new();
    if let Some(name) = fill(form.display_name) {
        requests.push(
            set_value(
                EntryId::DomainInfo,
                Attribute::DomainDisplayName,
                name,
                EntryClass::DomainInfo,
            ),
        );
    }
    requests.push(apply_domain_attr(Attribute::DomainLdapBasedn, form.ldap_basedn));
    requests.push(apply_domain_attr(Attribute::DomainSsid, form.ssid));
    let r = WriteBatch { requests, success: Success::GoTo(Location::Path(settings_reload())) };
    assert(r@.requests =~= domain_changes(
        form.display_name.deep_view(),
        form.ldap_basedn.deep_view(),
        form.ssid.deep_view(),
    ));
    r
}

/// Setting the settings of the domain never clears its display name, and changes the display name
/// exactly if the form has one.
pub proof fn law_display_name_is_never_cleared(
    display_name: Option<Seq<char>>,
    ldap_basedn: Option<Seq<char>>,
    ssid: Option<Seq<char>>,
)
    ensures
        ({
            let changes = domain_changes(display_name, ldap_basedn, ssid);
            let name = Attribute::DomainDisplayName;
            &&& !changes.contains(
                purging(EntryIdView::DomainInfo, name, EntryClass::DomainInfo),
            )
            &&& forall|i: int|
                0 <= i < changes.len() ==> !((#[trigger] changes[i]) is PurgeAttribute
                    && changes[i]->PurgeAttribute_attribute == name)
            &&& (exists|i: int|
                0 <= i < changes.len() && (#[trigger] changes[i]) is SetAttribute
                    && changes[i]->SetAttribute_attribute == name) <==> filled(display_name) is Some
        }),
{
    let changes = domain_changes(display_name, ldap_basedn, ssid);
    if filled(display_name) is Some {
        assert(changes[0] is SetAttribute && changes[0]->SetAttribute_attribute
            == Attribute::DomainDisplayName);
    }
}

/// The form with a value of the system configuration.
#[derive(Clone, Debug)]
pub struct SystemValueForm {
    pub value: String,
}

/// Adding a value to the system configuration.
pub open spec fn system_addition(attribute: Attribute, value: Seq<char>) -> MutationView {
    reloading(
        appending(EntryIdView::SystemConfig, attribute, value, EntryClass::SystemConfig),
        "/ui/admin/settings"@,
    )
}

/// Removing a value from the system configuration.
pub open spec fn system_removal(attribute: Attribute, value: Seq<char>) -> MutationView {
    reloading(
        removing(EntryIdView::SystemConfig, attribute, value, EntryClass::SystemConfig),
        "/ui/admin/settings"@,
    )
}

/// Adds a value to the system configuration.
pub fn system_append(attribute: Attribute, value: String) -> (r: Mutation)
    ensures
        r@ == system_addition(attribute, value@),
{
    reload_after(
        append_value(EntryId::SystemConfig, attribute, value, EntryClass::SystemConfig),
        settings_reload(),
    )
}

/// Removes a value from the system configuration.
pub fn system_remove(attribute: Attribute, value: String) -> (r: Mutation)
    ensures
        r@ == system_removal(attribute, value@),
{
    reload_after(
        remove_value(EntryId::SystemConfig, attribute, value, EntryClass::SystemConfig),
        settings_reload(),
    )
}

/// Forbids a password.
pub fn add_badlist(form: SystemValueForm) -> (r: Mutation)
    ensures
        r@ == system_addition(Attribute::BadlistPassword, form.value@),
{
    system_append(Attribute::BadlistPassword, form.value)
}

/// Allows a password again.
pub fn remove_badlist(form: SystemValueForm) -> (r: Mutation)
    ensures
        r@ == system_removal(Attribute::BadlistPassword, form.value@),
{
    system_remove(Attribute::BadlistPassword, form.value)
}

/// Forbids a name.
pub fn add_denied_name(form: SystemValueForm) -> (r: Mutation)
    ensures
        r@ == system_addition(Attribute::DeniedName, form.value@),
{
    system_append(Attribute::DeniedName, form.value)
}

/// Allows a name again.
pub fn remove_denied_name(form: SystemValueForm) -> (r: Mutation)
    ensures
        r@ == system_removal(Attribute::DeniedName, form.value@),
{
    system_remove(Attribute::DeniedName, form.value)
}

/// Removing a value from the system configuration asks the server to take away exactly what adding
/// it asked the server to add.
pub proof fn law_system_removals_reverse_additions(attribute: Attribute, value: Seq<char>)
    ensures
        reverses(
            system_removal(attribute, value).request,
            system_addition(attribute, value).request,
        ),
{
}

/// What is shown of an entry that could not be read is empty, and of one that could be read it is
/// what the entry holds.
pub proof fn law_unreadable_settings_are_empty<E>(read: Result<Entry, E>, attribute: Attribute)
    ensures
        read is Err ==> read_text(read, attribute).len() == 0 && read_texts(read, attribute).len()
            == 0,
        read is Ok ==> read_text(read, attribute) == read->Ok_0@.text_or_empty(attribute)
            && read_texts(read, attribute) == read->Ok_0@.texts(attribute),
{
}

/// A field is filled exactly if it holds something other than white space, and then with what is
/// between the white space at its ends.
pub proof fn law_filled_fields(value: Option<Seq<char>>)
    ensures
        filled(value) is Some <==> value is Some && trimmed(value->0).len() > 0,
        filled(value) is Some ==> filled(value)->0 == trimmed(value->0),
{
}

/// Each field of the form decides the attribute of its own name and no other: once all writes are
/// made, the base of the LDAP tree and the SSID are what their fields hold, or cleared if those are
/// blank; the display name is what its field holds, or as it was if that is blank; and every other
/// attribute and every other entry is as it was.
pub proof fn law_each_field_decides_its_attribute(
    display_name: Option<Seq<char>>,
    ldap_basedn: Option<Seq<char>>,
    ssid: Option<Seq<char>>,
    id: EntryIdView,
    attribute: Attribute,
    before: Set<Seq<char>>,
)
    ensures
        ({
            let changes = domain_changes(display_name, ldap_basedn, ssid);
            let domain = EntryIdView::DomainInfo;
            &&& values_after_all(changes, domain, Attribute::DomainSsid, before) == (if ssid is Some
                && trimmed(ssid->0).len() > 0 {
                set![trimmed(ssid->0)]
            } else {
                Set::empty()
            })
            &&& values_after_all(changes, domain, Attribute::DomainLdapBasedn, before) == (
            if ldap_basedn is Some && trimmed(ldap_basedn->0).len() > 0 {
                set![trimmed(ldap_basedn->0)]
            } else {
                Set::empty()
            })
            &&& values_after_all(changes, domain, Attribute::DomainDisplayName, before) == (
            if display_name is Some && trimmed(display_name->0).len() > 0 {
                set![trimmed(display_name->0)]
            } else {
                before
            })
            &&& id != domain || attribute != Attribute::DomainSsid && attribute
                != Attribute::DomainLdapBasedn && attribute != Attribute::DomainDisplayName
                ==> values_after_all(changes, id, attribute, before) == before
        }),
{
    lemma_domain_changes_in_turn(display_name, ldap_basedn, ssid, id, attribute, before);
    lemma_domain_changes_in_turn(
        display_name,
        ldap_basedn,
        ssid,
        EntryIdView::DomainInfo,
        Attribute::DomainSsid,
        before,
    );
    lemma_domain_changes_in_turn(
        display_name,
        ldap_basedn,
        ssid,
        EntryIdView::DomainInfo,
        Attribute::DomainLdapBasedn,
        before,
    );
    lemma_domain_changes_in_turn(
        display_name,
        ldap_basedn,
        ssid,
        EntryIdView::DomainInfo,
        Attribute::DomainDisplayName,
        before,
    );
}

proof fn lemma_domain_change(
    a: Attribute,
    value: Option<Seq<char>>,
    id: EntryIdView,
    attribute: Attribute,
    before: Set<Seq<char>>,
)
    ensures
        values_after(domain_change(a, value), id, attribute, before) == (if id
            != EntryIdView::DomainInfo || attribute != a {
            before
        } else if filled(value) is Some {
            set![filled(value)->0]
        } else {
            Set::empty()
        }),
{
    let v = if filled(value) is Some {
        filled(value)->0
    } else {
        Seq::empty()
    };
    law_writes_change_one_attribute(
        EntryIdView::DomainInfo,
        a,
        v,
        EntryClass::DomainInfo,
        id,
        attribute,
        before,
    );
}

proof fn lemma_domain_changes_in_turn(
    display_name: Option<Seq<char>>,
    ldap_basedn: Option<Seq<char>>,
    ssid: Option<Seq<char>>,
    id: EntryIdView,
    attribute: Attribute,
    before: Set<Seq<char>>,
)
    ensures
        values_after_all(
            domain_changes(display_name, ldap_basedn, ssid),
            id,
            attribute,
            before,
        ) == (if id != EntryIdView::DomainInfo {
            before
        } else if attribute == Attribute::DomainSsid {
            if filled(ssid) is Some {
                set![filled(ssid)->0]
            } else {
                Set::empty()
            }
        } else if attribute == Attribute::DomainLdapBasedn {
            if filled(ldap_basedn) is Some {
                set![filled(ldap_basedn)->0]
            } else {
                Set::empty()
            }
        } else if attribute == Attribute::DomainDisplayName && filled(display_name) is Some {
            set![filled(display_name)->0]
        } else {
            before
        }),
{
    let changes = domain_changes(display_name, ldap_basedn, ssid);
    let base = domain_change(Attribute::DomainLdapBasedn, ldap_basedn);
    let net = domain_change(Attribute::DomainSsid, ssid);
    let name = domain_change(Attribute::DomainDisplayName, display_name);
    reveal_with_fuel(values_after_all, 4);
    let named = if filled(display_name) is Some {
        values_after(name, id, attribute, before)
    } else {
        before
    };
    let based = values_after(base, id, attribute, named);
    lemma_domain_change(Attribute::DomainDisplayName, display_name, id, attribute, before);
    lemma_domain_change(Attribute::DomainLdapBasedn, ldap_basedn, id, attribute, named);
    lemma_domain_change(Attribute::DomainSsid, ssid, id, attribute, based);
    if filled(display_name) is Some {
        assert(changes =~= seq![name, base, net]);
        assert(changes.drop_last() =~= seq![name, base]);
        assert(seq![name, base].drop_last() =~= seq![name]);
        assert(seq![name].drop_last() =~= Seq::<WriteRequestView>::empty());
    } else {
        assert(changes =~= seq![base, net]);
        assert(changes.drop_last() =~= seq![base]);
        assert(seq![base].drop_last() =~= Seq::<WriteRequestView>::empty());
    }
}

/// The attribute of the domain that a write sets or clears.
pub open spec fn domain_target(write: WriteRequestView) -> Option<Attribute> {
    match write {
        WriteRequestView::SetAttribute { id: EntryIdView::DomainInfo, attribute, .. } => {
            Some(attribute)
        },
        WriteRequestView::PurgeAttribute { id: EntryIdView::DomainInfo, attribute, .. } => {
            Some(attribute)
        },
        _ => None,
    }
}

/// The display name is written first if it is written, then the base of the LDAP tree, then the
/// SSID, each once and within the class of the domain.
pub proof fn law_domain_settings_are_written_in_turn(
    display_name: Option<Seq<char>>,
    ldap_basedn: Option<Seq<char>>,
    ssid: Option<Seq<char>>,
)
    ensures
        ({
            let changes = domain_changes(display_name, ldap_basedn, ssid);
            let n = changes.len() as int;
            &&& n == 2 || n == 3
            &&& domain_target(changes[n - 1]) == Some(Attribute::DomainSsid)
            &&& domain_target(changes[n - 2]) == Some(Attribute::DomainLdapBasedn)
            &&& n == 3 ==> domain_target(changes[0]) == Some(Attribute::DomainDisplayName)
            &&& forall|i: int|
                0 <= i < n ==> restricted_to(#[trigger] changes[i]) == Some(EntryClass::DomainInfo)
        }),
{
}

/// What the settings read: the display name, the base of the LDAP tree and the SSID of the domain,
/// and the forbidden passwords and names of the system, each once and nothing else.
pub proof fn law_settings_attributes(a: Attribute)
    ensures
        domain_attribute_list().contains(a) <==> a == Attribute::DomainDisplayName || a
            == Attribute::DomainLdapBasedn || a == Attribute::DomainSsid,
        system_attribute_list().contains(a) <==> a == Attribute::BadlistPassword || a
            == Attribute::DeniedName,
        domain_attribute_list().no_duplicates() && system_attribute_list().no_duplicates(),
        domain_entry_read().id is DomainInfo && domain_entry_read().class == EntryClass::DomainInfo,
        domain_entry_read().query.attributes == domain_attribute_list(),
        !domain_entry_read().query.ext_access_check && domain_entry_read().query.count is None,
        system_entry_read().id is SystemConfig && system_entry_read().class
            == EntryClass::SystemConfig,
        system_entry_read().query.attributes == system_attribute_list(),
        !system_entry_read().query.ext_access_check && system_entry_read().query.count is None,
{
    let s = domain_attribute_list();
    let t = system_attribute_list();
    assert(s[0] == Attribute::DomainDisplayName && s[1] == Attribute::DomainLdapBasedn && s[2]
        == Attribute::DomainSsid);
    assert(t[0] == Attribute::BadlistPassword && t[1] == Attribute::DeniedName);
}

/// Adding and removing a value of the system configuration changes this one value of that attribute
/// and nothing else, within the class of the configuration, and ends at the settings with failures
/// as notifications.
pub proof fn law_system_changes(
    a: Attribute,
    value: Seq<char>,
    id: EntryIdView,
    attribute: Attribute,
    before: Set<Seq<char>>,
)
    ensures
        ({
            let own = EntryIdView::SystemConfig;
            let add = system_addition(a, value);
            let remove = system_removal(a, value);
            let page = SuccessView::GoTo(LocationView::Path("/ui/admin/settings"@));
            &&& values_after(add.request, own, a, before) == before.insert(value)
            &&& values_after(remove.request, own, a, before) == before.remove(value)
            &&& id != own || attribute != a ==> values_after(add.request, id, attribute, before)
                == before && values_after(remove.request, id, attribute, before) == before
            &&& restricted_to(add.request) == Some(EntryClass::SystemConfig) && restricted_to(
                remove.request,
            ) == Some(EntryClass::SystemConfig)
            &&& add.success == page && remove.success == page && add.failure is Toast
                && remove.failure is Toast
        }),
{
    law_writes_change_one_attribute(
        EntryIdView::SystemConfig,
        a,
        value,
        EntryClass::SystemConfig,
        id,
        attribute,
        before,
    );
}

/// Whether a page shows the settings that could be read.
pub open spec fn settings_shown<E>(
    partial: SettingsPartial,
    can_rw: bool,
    domain: Result<Entry, E>,
    system: Result<Entry, E>,
) -> bool {
    &&& partial.can_rw == can_rw
    &&& partial.domain_available == domain is Ok
    &&& partial.system_available == system is Ok
    &&& partial.domain_display_name@ == read_text(domain, Attribute::DomainDisplayName)
    &&& partial.domain_ldap_basedn@ == read_text(domain, Attribute::DomainLdapBasedn)
    &&& partial.domain_ssid@ == read_text(domain, Attribute::DomainSsid)
    &&& partial.badlist.deep_view() == read_texts(system, Attribute::BadlistPassword)
    &&& partial.denied_names.deep_view() == read_texts(system, Attribute::DeniedName)
}

/// The settings show each attribute of the domain and of the system under its own heading; a part
/// that could not be read is missing and empty and does not take the other part with it.
pub proof fn law_settings_page<E>(
    partial: SettingsPartial,
    can_rw: bool,
    domain: Result<Entry, E>,
    system: Result<Entry, E>,
)
    requires
        settings_shown(partial, can_rw, domain, system),
    ensures
        partial.can_rw == can_rw,
        partial.domain_available <==> domain is Ok,
        partial.system_available <==> system is Ok,
        domain is Ok ==> partial.domain_display_name@ == domain->Ok_0@.text_or_empty(
            Attribute::DomainDisplayName,
        ) && partial.domain_ldap_basedn@ == domain->Ok_0@.text_or_empty(Attribute::DomainLdapBasedn)
            && partial.domain_ssid@ == domain->Ok_0@.text_or_empty(Attribute::DomainSsid),
        domain is Err ==> partial.domain_display_name@.len() == 0
            && partial.domain_ldap_basedn@.len() == 0 && partial.domain_ssid@.len() == 0,
        system is Ok ==> partial.badlist.deep_view() == system->Ok_0@.texts(
            Attribute::BadlistPassword,
        ) && partial.denied_names.deep_view() == system->Ok_0@.texts(Attribute::DeniedName),
        system is Err ==> partial.badlist@.len() == 0 && partial.denied_names@.len() == 0,
{
    if system is Err {
        assert(partial.badlist.deep_view().len() == 0 && partial.denied_names.deep_view().len()
            == 0);
    }
}

} // verus!
