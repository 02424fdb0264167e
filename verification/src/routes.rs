//! The routes of the administration: which page or change each path leads to.
use crate::ident::{group_path, oauth2_path, person_path, uuid_text};
use vstd::prelude::*;
use vstd::string::*;

verus! {

/// Where the browser is sent that asks for a guarded part outside a page.
pub const GUARD_REDIRECT: &'static str = "/ui";

/// A page that the browser can ask for.
#[derive(Clone, Copy, Debug, PartialEq, Eq, Structural)]
pub enum AdminPage {
    /// The list of persons.
    Persons,
    /// The form for a new person.
    PersonCreate,
    /// The page of a person.
    Person,
    /// The list of groups.
    Groups,
    /// The form for a new group.
    GroupCreate,
    /// The page of a group.
    Group,
    /// The settings.
    Settings,
}

/// A change that the browser can post.
#[derive(Clone, Copy, Debug, PartialEq, Eq, Structural)]
pub enum AdminAction {
    /// Creates a person.
    CreatePerson,
    /// Saves the attributes of a person.
    EditPerson,
    /// Deletes a person.
    DeletePerson,
    /// Adds a mail address to a person.
    AddPersonMail,
    /// Removes a mail address from a person.
    RemovePersonMail,
    /// Adds a person to a group.
    AddPersonGroup,
    /// Removes a person from a group.
    RemovePersonGroup,
    /// Sets when an account expires.
    SetAccountExpire,
    /// Sets from when on an account is valid.
    SetAccountValidFrom,
    /// Clears from when on an account is valid.
    ClearAccountValidFrom,
    /// Disables an account.
    DisableAccount,
    /// Enables an account.
    EnableAccount,
    /// Clears the lock that failed logins put on an account.
    ClearAccountLockout,
    /// Makes a link with which a user resets credentials.
    GenerateResetLink,
    /// Adds an SSH public key to a person.
    AddPersonSshKey,
    /// Removes an SSH public key from a person.
    RemovePersonSshKey,
    /// Saves the attributes of a group.
    EditGroup,
    /// Adds a member to a group.
    AddMember,
    /// Removes a member from a group.
    RemoveMember,
    /// Creates a group.
    CreateGroup,
    /// Deletes a group.
    DeleteGroup,
    /// Adds a mail address to a group.
    AddGroupMail,
    /// Removes a mail address from a group.
    RemoveGroupMail,
    /// Sets the delegated administrator of a group.
    SetGroupManagedBy,
    /// Gives a group POSIX attributes.
    GroupUnixExtend,
    /// Sets the settings of the domain.
    SetDomainSettings,
    /// Forbids a password.
    AddBadlist,
    /// Allows a password again.
    RemoveBadlist,
    /// Forbids a name.
    AddDeniedName,
    /// Allows a name again.
    RemoveDeniedName,
}

impl AdminPage {
    /// The path of the page, below that of the administration.
    pub open spec fn path_text(self) -> Seq<char> {
        match self {
            AdminPage::Persons => "/persons"@,
            AdminPage::PersonCreate => "/persons/create"@,
            AdminPage::Person => "/person/{person_uuid}/view"@,
            AdminPage::Groups => "/groups"@,
            AdminPage::GroupCreate => "/groups/create"@,
            AdminPage::Group => "/group/{group_uuid}/view"@,
            AdminPage::Settings => "/settings"@,
        }
    }

    /// The path of the page, below that of the administration.
    pub fn path(self) -> (r: &'static str)
        ensures
            r@ == self.path_text(),
    {
        match self {
            AdminPage::Persons => "/persons",
            AdminPage::PersonCreate => "/persons/create",
            AdminPage::Person => "/person/{person_uuid}/view",
            AdminPage::Groups => "/groups",
            AdminPage::GroupCreate => "/groups/create",
            AdminPage::Group => "/group/{group_uuid}/view",
            AdminPage::Settings => "/settings",
        }
    }
}

impl AdminAction {
    /// The path of the change, below that of the administration.
    pub open spec fn path_text(self) -> Seq<char> {
        match self {
            AdminAction::CreatePerson => "/persons"@,
            AdminAction::EditPerson => "/person/{person_uuid}"@,
            AdminAction::DeletePerson => "/person/{person_uuid}/delete"@,
            AdminAction::AddPersonMail => "/person/{person_uuid}/add_mail"@,
            AdminAction::RemovePersonMail => "/person/{person_uuid}/remove_mail"@,
            AdminAction::AddPersonGroup => "/person/{person_uuid}/add_group"@,
            AdminAction::RemovePersonGroup => "/person/{person_uuid}/remove_group"@,
            AdminAction::SetAccountExpire => "/person/{person_uuid}/set_expire"@,
            AdminAction::SetAccountValidFrom => "/person/{person_uuid}/set_valid_from"@,
            AdminAction::ClearAccountValidFrom => "/person/{person_uuid}/clear_valid_from"@,
            AdminAction::DisableAccount => "/person/{person_uuid}/disable"@,
            AdminAction::EnableAccount => "/person/{person_uuid}/enable"@,
            AdminAction::ClearAccountLockout => "/person/{person_uuid}/clear_lockout"@,
            AdminAction::GenerateResetLink => "/person/{person_uuid}/reset_link"@,
            AdminAction::AddPersonSshKey => "/person/{person_uuid}/add_ssh_key"@,
            AdminAction::RemovePersonSshKey => "/person/{person_uuid}/remove_ssh_key"@,
            AdminAction::EditGroup => "/group/{group_uuid}"@,
            AdminAction::AddMember => "/group/{group_uuid}/add_member"@,
            AdminAction::RemoveMember => "/group/{group_uuid}/remove_member"@,
            AdminAction::CreateGroup => "/groups"@,
            AdminAction::DeleteGroup => "/group/{group_uuid}/delete"@,
            AdminAction::AddGroupMail => "/group/{group_uuid}/add_mail"@,
            AdminAction::RemoveGroupMail => "/group/{group_uuid}/remove_mail"@,
            AdminAction::SetGroupManagedBy => "/group/{group_uuid}/managed_by"@,
            AdminAction::GroupUnixExtend => "/group/{group_uuid}/unix_extend"@,
            AdminAction::SetDomainSettings => "/settings/domain"@,
            AdminAction::AddBadlist => "/settings/badlist/add"@,
            AdminAction::RemoveBadlist => "/settings/badlist/remove"@,
            AdminAction::AddDeniedName => "/settings/denied_name/add"@,
            AdminAction::RemoveDeniedName => "/settings/denied_name/remove"@,
        }
    }

    /// The path of the change, below that of the administration.
    pub fn path(self) -> (r: &'static str)
        ensures
            r@ == self.path_text(),
    {
        match self {
            AdminAction::CreatePerson => "/persons",
            AdminAction::EditPerson => "/person/{person_uuid}",
            AdminAction::DeletePerson => "/person/{person_uuid}/delete",
            AdminAction::AddPersonMail => "/person/{person_uuid}/add_mail",
            AdminAction::RemovePersonMail => "/person/{person_uuid}/remove_mail",
            AdminAction::AddPersonGroup => "/person/{person_uuid}/add_group",
            AdminAction::RemovePersonGroup => "/person/{person_uuid}/remove_group",
            AdminAction::SetAccountExpire => "/person/{person_uuid}/set_expire",
            AdminAction::SetAccountValidFrom => "/person/{person_uuid}/set_valid_from",
            AdminAction::ClearAccountValidFrom => "/person/{person_uuid}/clear_valid_from",
            AdminAction::DisableAccount => "/person/{person_uuid}/disable",
            AdminAction::EnableAccount => "/person/{person_uuid}/enable",
            AdminAction::ClearAccountLockout => "/person/{person_uuid}/clear_lockout",
            AdminAction::GenerateResetLink => "/person/{person_uuid}/reset_link",
            AdminAction::AddPersonSshKey => "/person/{person_uuid}/add_ssh_key",
            AdminAction::RemovePersonSshKey => "/person/{person_uuid}/remove_ssh_key",
            AdminAction::EditGroup => "/group/{group_uuid}",
            AdminAction::AddMember => "/group/{group_uuid}/add_member",
            AdminAction::RemoveMember => "/group/{group_uuid}/remove_member",
            AdminAction::CreateGroup => "/groups",
            AdminAction::DeleteGroup => "/group/{group_uuid}/delete",
            AdminAction::AddGroupMail => "/group/{group_uuid}/add_mail",
            AdminAction::RemoveGroupMail => "/group/{group_uuid}/remove_mail",
            AdminAction::SetGroupManagedBy => "/group/{group_uuid}/managed_by",
            AdminAction::GroupUnixExtend => "/group/{group_uuid}/unix_extend",
            AdminAction::SetDomainSettings => "/settings/domain",
            AdminAction::AddBadlist => "/settings/badlist/add",
            AdminAction::RemoveBadlist => "/settings/badlist/remove",
            AdminAction::AddDeniedName => "/settings/denied_name/add",
            AdminAction::RemoveDeniedName => "/settings/denied_name/remove",
        }
    }
}

/// The pages, each once.
pub open spec fn all_pages() -> Seq<AdminPage> {
    seq![
        AdminPage::Persons,
        AdminPage::PersonCreate,
        AdminPage::Person,
        AdminPage::Groups,
        AdminPage::GroupCreate,
        AdminPage::Group,
        AdminPage::Settings,
    ]
}

/// The pages that have a route.
pub fn admin_router() -> (r: Vec<AdminPage>)
    ensures
        r@ == all_pages(),
{
    let r: Vec<AdminPage> = vec![
        AdminPage::Persons,
        AdminPage::PersonCreate,
        AdminPage::Person,
        AdminPage::Groups,
        AdminPage::GroupCreate,
        AdminPage::Group,
        AdminPage::Settings,
    ];
    assert(r@ =~= all_pages());
    r
}

/// The changes, each once.
pub open spec fn all_actions() -> Seq<AdminAction> {
    seq![
        AdminAction::CreatePerson,
        AdminAction::EditPerson,
        AdminAction::DeletePerson,
        AdminAction::AddPersonMail,
        AdminAction::RemovePersonMail,
        AdminAction::AddPersonGroup,
        AdminAction::RemovePersonGroup,
        AdminAction::SetAccountExpire,
        AdminAction::SetAccountValidFrom,
        AdminAction::ClearAccountValidFrom,
        AdminAction::DisableAccount,
        AdminAction::EnableAccount,
        AdminAction::ClearAccountLockout,
        AdminAction::GenerateResetLink,
        AdminAction::AddPersonSshKey,
        AdminAction::RemovePersonSshKey,
        AdminAction::EditGroup,
        AdminAction::AddMember,
        AdminAction::RemoveMember,
        AdminAction::CreateGroup,
        AdminAction::DeleteGroup,
        AdminAction::AddGroupMail,
        AdminAction::RemoveGroupMail,
        AdminAction::SetGroupManagedBy,
        AdminAction::GroupUnixExtend,
        AdminAction::SetDomainSettings,
        AdminAction::AddBadlist,
        AdminAction::RemoveBadlist,
        AdminAction::AddDeniedName,
        AdminAction::RemoveDeniedName,
    ]
}

/// The changes that have a route.
pub fn admin_api_router() -> (r: Vec<AdminAction>)
    ensures
        r@ == all_actions(),
{
    let r: Vec<AdminAction> = vec![
        AdminAction::CreatePerson,
        AdminAction::EditPerson,
        AdminAction::DeletePerson,
        AdminAction::AddPersonMail,
        AdminAction::RemovePersonMail,
        AdminAction::AddPersonGroup,
        AdminAction::RemovePersonGroup,
        AdminAction::SetAccountExpire,
        AdminAction::SetAccountValidFrom,
        AdminAction::ClearAccountValidFrom,
        AdminAction::DisableAccount,
        AdminAction::EnableAccount,
        AdminAction::ClearAccountLockout,
        AdminAction::GenerateResetLink,
        AdminAction::AddPersonSshKey,
        AdminAction::RemovePersonSshKey,
        AdminAction::EditGroup,
        AdminAction::AddMember,
        AdminAction::RemoveMember,
        AdminAction::CreateGroup,
        AdminAction::DeleteGroup,
        AdminAction::AddGroupMail,
        AdminAction::RemoveGroupMail,
        AdminAction::SetGroupManagedBy,
        AdminAction::GroupUnixExtend,
        AdminAction::SetDomainSettings,
        AdminAction::AddBadlist,
        AdminAction::RemoveBadlist,
        AdminAction::AddDeniedName,
        AdminAction::RemoveDeniedName,
    ];
    assert(r@ =~= all_actions());
    r
}

spec fn page_of_length(len: nat) -> Option<AdminPage> {
    if len == 8 {
        Some(AdminPage::Persons)
    } else if len == 15 {
        Some(AdminPage::PersonCreate)
    } else if len == 26 {
        Some(AdminPage::Person)
    } else if len == 7 {
        Some(AdminPage::Groups)
    } else if len == 14 {
        Some(AdminPage::GroupCreate)
    } else if len == 24 {
        Some(AdminPage::Group)
    } else if len == 9 {
        Some(AdminPage::Settings)
    } else {
        None
    }
}

/// Different pages have different paths.
pub proof fn law_page_paths_differ(a: AdminPage, b: AdminPage)
    requires
        a.path_text() == b.path_text(),
    ensures
        a == b,
{
    lemma_page_of_path(a);
    lemma_page_of_path(b);
}

proof fn lemma_page_of_path(page: AdminPage)
    ensures
        page_of_length(page.path_text().len()) == Some(page),
{
    reveal_strlit("/persons");
    reveal_strlit("/persons/create");
    reveal_strlit("/person/{person_uuid}/view");
    reveal_strlit("/groups");
    reveal_strlit("/groups/create");
    reveal_strlit("/group/{group_uuid}/view");
    reveal_strlit("/settings");
}

spec fn action_of_marks(len: nat, last: char, previous: char) -> Option<AdminAction> {
    if len == 8 && last == 's' && previous == 'n' {
        Some(AdminAction::CreatePerson)
    } else if len == 21 && last == '}' && previous == 'd' {
        Some(AdminAction::EditPerson)
    } else if len == 28 && last == 'e' && previous == 't' {
        Some(AdminAction::DeletePerson)
    } else if len == 30 && last == 'l' && previous == 'i' {
        Some(AdminAction::AddPersonMail)
    } else if len == 33 && last == 'l' && previous == 'i' {
        Some(AdminAction::RemovePersonMail)
    } else if len == 31 && last == 'p' && previous == 'u' {
        Some(AdminAction::AddPersonGroup)
    } else if len == 34 && last == 'p' && previous == 'u' {
        Some(AdminAction::RemovePersonGroup)
    } else if len == 32 && last == 'e' && previous == 'r' {
        Some(AdminAction::SetAccountExpire)
    } else if len == 36 && last == 'm' && previous == 'o' {
        Some(AdminAction::SetAccountValidFrom)
    } else if len == 38 && last == 'm' && previous == 'o' {
        Some(AdminAction::ClearAccountValidFrom)
    } else if len == 29 && last == 'e' && previous == 'l' {
        Some(AdminAction::DisableAccount)
    } else if len == 28 && last == 'e' && previous == 'l' {
        Some(AdminAction::EnableAccount)
    } else if len == 35 && last == 't' && previous == 'u' {
        Some(AdminAction::ClearAccountLockout)
    } else if len == 32 && last == 'k' && previous == 'n' {
        Some(AdminAction::GenerateResetLink)
    } else if len == 33 && last == 'y' && previous == 'e' {
        Some(AdminAction::AddPersonSshKey)
    } else if len == 36 && last == 'y' && previous == 'e' {
        Some(AdminAction::RemovePersonSshKey)
    } else if len == 19 && last == '}' && previous == 'd' {
        Some(AdminAction::EditGroup)
    } else if len == 30 && last == 'r' && previous == 'e' {
        Some(AdminAction::AddMember)
    } else if len == 33 && last == 'r' && previous == 'e' {
        Some(AdminAction::RemoveMember)
    } else if len == 7 && last == 's' && previous == 'p' {
        Some(AdminAction::CreateGroup)
    } else if len == 26 && last == 'e' && previous == 't' {
        Some(AdminAction::DeleteGroup)
    } else if len == 28 && last == 'l' && previous == 'i' {
        Some(AdminAction::AddGroupMail)
    } else if len == 31 && last == 'l' && previous == 'i' {
        Some(AdminAction::RemoveGroupMail)
    } else if len == 30 && last == 'y' && previous == 'b' {
        Some(AdminAction::SetGroupManagedBy)
    } else if len == 31 && last == 'd' && previous == 'n' {
        Some(AdminAction::GroupUnixExtend)
    } else if len == 16 && last == 'n' && previous == 'i' {
        Some(AdminAction::SetDomainSettings)
    } else if len == 21 && last == 'd' && previous == 'd' {
        Some(AdminAction::AddBadlist)
    } else if len == 24 && last == 'e' && previous == 'v' {
        Some(AdminAction::RemoveBadlist)
    } else if len == 25 && last == 'd' && previous == 'd' {
        Some(AdminAction::AddDeniedName)
    } else if len == 28 && last == 'e' && previous == 'v' {
        Some(AdminAction::RemoveDeniedName)
    } else {
        None
    }
}

/// Different changes have different paths.
pub proof fn law_action_paths_differ(a: AdminAction, b: AdminAction)
    requires
        a.path_text() == b.path_text(),
    ensures
        a == b,
{
    lemma_action_of_path(a);
    lemma_action_of_path(b);
}

proof fn lemma_action_of_path(action: AdminAction)
    ensures
        action_of_marks(
            action.path_text().len(),
            action.path_text()[action.path_text().len() - 1],
            action.path_text()[action.path_text().len() - 2],
        ) == Some(action),
{
    match action {
        AdminAction::CreatePerson => {
            reveal_strlit("/persons");
        },
        AdminAction::EditPerson => {
            reveal_strlit("/person/{person_uuid}");
        },
        AdminAction::DeletePerson => {
            reveal_strlit("/person/{person_uuid}/delete");
        },
        AdminAction::AddPersonMail => {
            reveal_strlit("/person/{person_uuid}/add_mail");
        },
        AdminAction::RemovePersonMail => {
            reveal_strlit("/person/{person_uuid}/remove_mail");
        },
        AdminAction::AddPersonGroup => {
            reveal_strlit("/person/{person_uuid}/add_group");
        },
        AdminAction::RemovePersonGroup => {
            reveal_strlit("/person/{person_uuid}/remove_group");
        },
        AdminAction::SetAccountExpire => {
            reveal_strlit("/person/{person_uuid}/set_expire");
        },
        AdminAction::SetAccountValidFrom => {
            reveal_strlit("/person/{person_uuid}/set_valid_from");
        },
        AdminAction::ClearAccountValidFrom => {
            reveal_strlit("/person/{person_uuid}/clear_valid_from");
        },
        AdminAction::DisableAccount => {
            reveal_strlit("/person/{person_uuid}/disable");
        },
        AdminAction::EnableAccount => {
            reveal_strlit("/person/{person_uuid}/enable");
        },
        AdminAction::ClearAccountLockout => {
            reveal_strlit("/person/{person_uuid}/clear_lockout");
        },
        AdminAction::GenerateResetLink => {
            reveal_strlit("/person/{person_uuid}/reset_link");
        },
        AdminAction::AddPersonSshKey => {
            reveal_strlit("/person/{person_uuid}/add_ssh_key");
        },
        AdminAction::RemovePersonSshKey => {
            reveal_strlit("/person/{person_uuid}/remove_ssh_key");
        },
        AdminAction::EditGroup => {
            reveal_strlit("/group/{group_uuid}");
        },
        AdminAction::AddMember => {
            reveal_strlit("/group/{group_uuid}/add_member");
        },
        AdminAction::RemoveMember => {
            reveal_strlit("/group/{group_uuid}/remove_member");
        },
        AdminAction::CreateGroup => {
            reveal_strlit("/groups");
        },
        AdminAction::DeleteGroup => {
            reveal_strlit("/group/{group_uuid}/delete");
        },
        AdminAction::AddGroupMail => {
            reveal_strlit("/group/{group_uuid}/add_mail");
        },
        AdminAction::RemoveGroupMail => {
            reveal_strlit("/group/{group_uuid}/remove_mail");
        },
        AdminAction::SetGroupManagedBy => {
            reveal_strlit("/group/{group_uuid}/managed_by");
        },
        AdminAction::GroupUnixExtend => {
            reveal_strlit("/group/{group_uuid}/unix_extend");
        },
        AdminAction::SetDomainSettings => {
            reveal_strlit("/settings/domain");
        },
        AdminAction::AddBadlist => {
            reveal_strlit("/settings/badlist/add");
        },
        AdminAction::RemoveBadlist => {
            reveal_strlit("/settings/badlist/remove");
        },
        AdminAction::AddDeniedName => {
            reveal_strlit("/settings/denied_name/add");
        },
        AdminAction::RemoveDeniedName => {
            reveal_strlit("/settings/denied_name/remove");
        },
    }
}

/// Every page has one route.
pub proof fn law_every_page_has_one_route(page: AdminPage)
    ensures
        exists|i: int| 0 <= i < all_pages().len() && #[trigger] all_pages()[i] == page,
        forall|i: int, j: int|
            0 <= i < all_pages().len() && 0 <= j < all_pages().len() && #[trigger] all_pages()[i]
                == #[trigger] all_pages()[j] ==> i == j,
{
    match page {
        AdminPage::Persons => assert(all_pages()[0] == page),
        AdminPage::PersonCreate => assert(all_pages()[1] == page),
        AdminPage::Person => assert(all_pages()[2] == page),
        AdminPage::Groups => assert(all_pages()[3] == page),
        AdminPage::GroupCreate => assert(all_pages()[4] == page),
        AdminPage::Group => assert(all_pages()[5] == page),
        AdminPage::Settings => assert(all_pages()[6] == page),
    }
}

/// Every change has one route.
pub proof fn law_every_action_has_one_route(action: AdminAction)
    ensures
        exists|i: int| 0 <= i < all_actions().len() && #[trigger] all_actions()[i] == action,
        forall|i: int, j: int|
            0 <= i < all_actions().len() && 0 <= j < all_actions().len()
                && #[trigger] all_actions()[i] == #[trigger] all_actions()[j] ==> i == j,
{
    match action {
        AdminAction::CreatePerson => assert(all_actions()[0] == action),
        AdminAction::EditPerson => assert(all_actions()[1] == action),
        AdminAction::DeletePerson => assert(all_actions()[2] == action),
        AdminAction::AddPersonMail => assert(all_actions()[3] == action),
        AdminAction::RemovePersonMail => assert(all_actions()[4] == action),
        AdminAction::AddPersonGroup => assert(all_actions()[5] == action),
        AdminAction::RemovePersonGroup => assert(all_actions()[6] == action),
        AdminAction::SetAccountExpire => assert(all_actions()[7] == action),
        AdminAction::SetAccountValidFrom => assert(all_actions()[8] == action),
        AdminAction::ClearAccountValidFrom => assert(all_actions()[9] == action),
        AdminAction::DisableAccount => assert(all_actions()[10] == action),
        AdminAction::EnableAccount => assert(all_actions()[11] == action),
        AdminAction::ClearAccountLockout => assert(all_actions()[12] == action),
        AdminAction::GenerateResetLink => assert(all_actions()[13] == action),
        AdminAction::AddPersonSshKey => assert(all_actions()[14] == action),
        AdminAction::RemovePersonSshKey => assert(all_actions()[15] == action),
        AdminAction::EditGroup => assert(all_actions()[16] == action),
        AdminAction::AddMember => assert(all_actions()[17] == action),
        AdminAction::RemoveMember => assert(all_actions()[18] == action),
        AdminAction::CreateGroup => assert(all_actions()[19] == action),
        AdminAction::DeleteGroup => assert(all_actions()[20] == action),
        AdminAction::AddGroupMail => assert(all_actions()[21] == action),
        AdminAction::RemoveGroupMail => assert(all_actions()[22] == action),
        AdminAction::SetGroupManagedBy => assert(all_actions()[23] == action),
        AdminAction::GroupUnixExtend => assert(all_actions()[24] == action),
        AdminAction::SetDomainSettings => assert(all_actions()[25] == action),
        AdminAction::AddBadlist => assert(all_actions()[26] == action),
        AdminAction::RemoveBadlist => assert(all_actions()[27] == action),
        AdminAction::AddDeniedName => assert(all_actions()[28] == action),
        AdminAction::RemoveDeniedName => assert(all_actions()[29] == action),
    }
    assert forall|i: int| 0 <= i < all_actions().len() implies action_index(
        #[trigger] all_actions()[i],
    ) == i by {
        lemma_action_index(i);
    }
}

spec fn action_index(action: AdminAction) -> int {
    match action {
        AdminAction::CreatePerson => 0,
        AdminAction::EditPerson => 1,
        AdminAction::DeletePerson => 2,
        AdminAction::AddPersonMail => 3,
        AdminAction::RemovePersonMail => 4,
        AdminAction::AddPersonGroup => 5,
        AdminAction::RemovePersonGroup => 6,
        AdminAction::SetAccountExpire => 7,
        AdminAction::SetAccountValidFrom => 8,
        AdminAction::ClearAccountValidFrom => 9,
        AdminAction::DisableAccount => 10,
        AdminAction::EnableAccount => 11,
        AdminAction::ClearAccountLockout => 12,
        AdminAction::GenerateResetLink => 13,
        AdminAction::AddPersonSshKey => 14,
        AdminAction::RemovePersonSshKey => 15,
        AdminAction::EditGroup => 16,
        AdminAction::AddMember => 17,
        AdminAction::RemoveMember => 18,
        AdminAction::CreateGroup => 19,
        AdminAction::DeleteGroup => 20,
        AdminAction::AddGroupMail => 21,
        AdminAction::RemoveGroupMail => 22,
        AdminAction::SetGroupManagedBy => 23,
        AdminAction::GroupUnixExtend => 24,
        AdminAction::SetDomainSettings => 25,
        AdminAction::AddBadlist => 26,
        AdminAction::RemoveBadlist => 27,
        AdminAction::AddDeniedName => 28,
        AdminAction::RemoveDeniedName => 29,
    }
}

proof fn lemma_action_index(i: int)
    requires
        0 <= i < all_actions().len(),
    ensures
        action_index(all_actions()[i]) == i,
{
}

/// Every change to a person is posted below the path to which the attributes of that person are
/// posted, under what the change does.
pub proof fn law_person_changes_are_below_the_person()
    ensures
        AdminAction::DeletePerson.path_text() == AdminAction::EditPerson.path_text() + "/delete"@,
        AdminAction::AddPersonMail.path_text() == AdminAction::EditPerson.path_text()
            + "/add_mail"@,
        AdminAction::RemovePersonMail.path_text() == AdminAction::EditPerson.path_text()
            + "/remove_mail"@,
        AdminAction::AddPersonGroup.path_text() == AdminAction::EditPerson.path_text()
            + "/add_group"@,
        AdminAction::RemovePersonGroup.path_text() == AdminAction::EditPerson.path_text()
            + "/remove_group"@,
        AdminAction::SetAccountExpire.path_text() == AdminAction::EditPerson.path_text()
            + "/set_expire"@,
        AdminAction::SetAccountValidFrom.path_text() == AdminAction::EditPerson.path_text()
            + "/set_valid_from"@,
        AdminAction::ClearAccountValidFrom.path_text() == AdminAction::EditPerson.path_text()
            + "/clear_valid_from"@,
        AdminAction::DisableAccount.path_text() == AdminAction::EditPerson.path_text()
            + "/disable"@,
        AdminAction::EnableAccount.path_text() == AdminAction::EditPerson.path_text() + "/enable"@,
        AdminAction::ClearAccountLockout.path_text() == AdminAction::EditPerson.path_text()
            + "/clear_lockout"@,
        AdminAction::GenerateResetLink.path_text() == AdminAction::EditPerson.path_text()
            + "/reset_link"@,
        AdminAction::AddPersonSshKey.path_text() == AdminAction::EditPerson.path_text()
            + "/add_ssh_key"@,
        AdminAction::RemovePersonSshKey.path_text() == AdminAction::EditPerson.path_text()
            + "/remove_ssh_key"@,
{
    reveal_strlit("/person/{person_uuid}");
    reveal_strlit("/person/{person_uuid}/delete");
    reveal_strlit("/delete");
    assert("/person/{person_uuid}/delete"@ =~= "/person/{person_uuid}"@
        + "/delete"@);
    reveal_strlit("/person/{person_uuid}/add_mail");
    reveal_strlit("/add_mail");
    assert("/person/{person_uuid}/add_mail"@ =~= "/person/{person_uuid}"@
        + "/add_mail"@);
    reveal_strlit("/person/{person_uuid}/remove_mail");
    reveal_strlit("/remove_mail");
    assert("/person/{person_uuid}/remove_mail"@ =~= "/person/{person_uuid}"@
        + "/remove_mail"@);
    reveal_strlit("/person/{person_uuid}/add_group");
    reveal_strlit("/add_group");
    assert("/person/{person_uuid}/add_group"@ =~= "/person/{person_uuid}"@
        + "/add_group"@);
    reveal_strlit("/person/{person_uuid}/remove_group");
    reveal_strlit("/remove_group");
    assert("/person/{person_uuid}/remove_group"@ =~= "/person/{person_uuid}"@
        + "/remove_group"@);
    reveal_strlit("/person/{person_uuid}/set_expire");
    reveal_strlit("/set_expire");
    assert("/person/{person_uuid}/set_expire"@ =~= "/person/{person_uuid}"@
        + "/set_expire"@);
    reveal_strlit("/person/{person_uuid}/set_valid_from");
    reveal_strlit("/set_valid_from");
    assert("/person/{person_uuid}/set_valid_from"@ =~= "/person/{person_uuid}"@
        + "/set_valid_from"@);
    reveal_strlit("/person/{person_uuid}/clear_valid_from");
    reveal_strlit("/clear_valid_from");
    assert("/person/{person_uuid}/clear_valid_from"@ =~= "/person/{person_uuid}"@
        + "/clear_valid_from"@);
    reveal_strlit("/person/{person_uuid}/disable");
    reveal_strlit("/disable");
    assert("/person/{person_uuid}/disable"@ =~= "/person/{person_uuid}"@
        + "/disable"@);
    reveal_strlit("/person/{person_uuid}/enable");
    reveal_strlit("/enable");
    assert("/person/{person_uuid}/enable"@ =~= "/person/{person_uuid}"@
        + "/enable"@);
    reveal_strlit("/person/{person_uuid}/clear_lockout");
    reveal_strlit("/clear_lockout");
    assert("/person/{person_uuid}/clear_lockout"@ =~= "/person/{person_uuid}"@
        + "/clear_lockout"@);
    reveal_strlit("/person/{person_uuid}/reset_link");
    reveal_strlit("/reset_link");
    assert("/person/{person_uuid}/reset_link"@ =~= "/person/{person_uuid}"@
        + "/reset_link"@);
    reveal_strlit("/person/{person_uuid}/add_ssh_key");
    reveal_strlit("/add_ssh_key");
    assert("/person/{person_uuid}/add_ssh_key"@ =~= "/person/{person_uuid}"@
        + "/add_ssh_key"@);
    reveal_strlit("/person/{person_uuid}/remove_ssh_key");
    reveal_strlit("/remove_ssh_key");
    assert("/person/{person_uuid}/remove_ssh_key"@ =~= "/person/{person_uuid}"@
        + "/remove_ssh_key"@);
}

/// Every change to a group is posted below the path to which the attributes of that group are
/// posted, under what the change does.
pub proof fn law_group_changes_are_below_the_group()
    ensures
        AdminAction::AddMember.path_text() == AdminAction::EditGroup.path_text() + "/add_member"@,
        AdminAction::RemoveMember.path_text() == AdminAction::EditGroup.path_text()
            + "/remove_member"@,
        AdminAction::DeleteGroup.path_text() == AdminAction::EditGroup.path_text() + "/delete"@,
        AdminAction::AddGroupMail.path_text() == AdminAction::EditGroup.path_text() + "/add_mail"@,
        AdminAction::RemoveGroupMail.path_text() == AdminAction::EditGroup.path_text()
            + "/remove_mail"@,
        AdminAction::SetGroupManagedBy.path_text() == AdminAction::EditGroup.path_text()
            + "/managed_by"@,
        AdminAction::GroupUnixExtend.path_text() == AdminAction::EditGroup.path_text()
            + "/unix_extend"@,
{
    reveal_strlit("/group/{group_uuid}");
    reveal_strlit("/group/{group_uuid}/add_member");
    reveal_strlit("/add_member");
    assert("/group/{group_uuid}/add_member"@ =~= "/group/{group_uuid}"@
        + "/add_member"@);
    reveal_strlit("/group/{group_uuid}/remove_member");
    reveal_strlit("/remove_member");
    assert("/group/{group_uuid}/remove_member"@ =~= "/group/{group_uuid}"@
        + "/remove_member"@);
    reveal_strlit("/group/{group_uuid}/delete");
    reveal_strlit("/delete");
    assert("/group/{group_uuid}/delete"@ =~= "/group/{group_uuid}"@
        + "/delete"@);
    reveal_strlit("/group/{group_uuid}/add_mail");
    reveal_strlit("/add_mail");
    assert("/group/{group_uuid}/add_mail"@ =~= "/group/{group_uuid}"@
        + "/add_mail"@);
    reveal_strlit("/group/{group_uuid}/remove_mail");
    reveal_strlit("/remove_mail");
    assert("/group/{group_uuid}/remove_mail"@ =~= "/group/{group_uuid}"@
        + "/remove_mail"@);
    reveal_strlit("/group/{group_uuid}/managed_by");
    reveal_strlit("/managed_by");
    assert("/group/{group_uuid}/managed_by"@ =~= "/group/{group_uuid}"@
        + "/managed_by"@);
    reveal_strlit("/group/{group_uuid}/unix_extend");
    reveal_strlit("/unix_extend");
    assert("/group/{group_uuid}/unix_extend"@ =~= "/group/{group_uuid}"@
        + "/unix_extend"@);
}

/// Every change to the settings is posted below the page of the settings.
pub proof fn law_settings_changes_are_below_the_settings()
    ensures
        AdminAction::SetDomainSettings.path_text() == AdminPage::Settings.path_text() + "/domain"@,
        AdminAction::AddBadlist.path_text() == AdminPage::Settings.path_text() + "/badlist/add"@,
        AdminAction::RemoveBadlist.path_text() == AdminPage::Settings.path_text()
            + "/badlist/remove"@,
        AdminAction::AddDeniedName.path_text() == AdminPage::Settings.path_text()
            + "/denied_name/add"@,
        AdminAction::RemoveDeniedName.path_text() == AdminPage::Settings.path_text()
            + "/denied_name/remove"@,
{
    reveal_strlit("/settings");
    reveal_strlit("/settings/domain");
    reveal_strlit("/domain");
    assert("/settings/domain"@ =~= "/settings"@
        + "/domain"@);
    reveal_strlit("/settings/badlist/add");
    reveal_strlit("/badlist/add");
    assert("/settings/badlist/add"@ =~= "/settings"@
        + "/badlist/add"@);
    reveal_strlit("/settings/badlist/remove");
    reveal_strlit("/badlist/remove");
    assert("/settings/badlist/remove"@ =~= "/settings"@
        + "/badlist/remove"@);
    reveal_strlit("/settings/denied_name/add");
    reveal_strlit("/denied_name/add");
    assert("/settings/denied_name/add"@ =~= "/settings"@
        + "/denied_name/add"@);
    reveal_strlit("/settings/denied_name/remove");
    reveal_strlit("/denied_name/remove");
    assert("/settings/denied_name/remove"@ =~= "/settings"@
        + "/denied_name/remove"@);
}

/// New persons and groups are posted to where their lists are, and the form for one is below its
/// list.
pub proof fn law_lists_take_new_entries()
    ensures
        AdminAction::CreatePerson.path_text() == AdminPage::Persons.path_text(),
        AdminAction::CreateGroup.path_text() == AdminPage::Groups.path_text(),
        AdminPage::PersonCreate.path_text() == AdminPage::Persons.path_text() + "/create"@,
        AdminPage::GroupCreate.path_text() == AdminPage::Groups.path_text() + "/create"@,
        AdminPage::Person.path_text() == AdminAction::EditPerson.path_text() + "/view"@,
        AdminPage::Group.path_text() == AdminAction::EditGroup.path_text() + "/view"@,
{
    reveal_strlit("/create");
    reveal_strlit("/view");
    reveal_strlit("/persons");
    reveal_strlit("/persons/create");
    reveal_strlit("/groups");
    reveal_strlit("/groups/create");
    reveal_strlit("/person/{person_uuid}");
    reveal_strlit("/person/{person_uuid}/view");
    reveal_strlit("/group/{group_uuid}");
    reveal_strlit("/group/{group_uuid}/view");
    assert("/persons/create"@ =~= "/persons"@ + "/create"@);
    assert("/groups/create"@ =~= "/groups"@ + "/create"@);
    assert("/person/{person_uuid}/view"@ =~= "/person/{person_uuid}"@ + "/view"@);
    assert("/group/{group_uuid}/view"@ =~= "/group/{group_uuid}"@ + "/view"@);
}

/// Where the browser is sent has a route: the address of a person or a group is that of the site's
/// administration and then the path of its page, with the identifier in its place, and the
/// addresses of the lists, forms and settings are that and their paths.
pub proof fn law_addresses_have_routes(id: u128)
    ensures
        AdminPage::Person.path_text() == "/person/"@ + "{person_uuid}"@ + "/view"@,
        person_path(id) == "/ui/admin"@ + "/person/"@ + uuid_text(id) + "/view"@,
        AdminPage::Group.path_text() == "/group/"@ + "{group_uuid}"@ + "/view"@,
        group_path(id) == "/ui/admin"@ + "/group/"@ + uuid_text(id) + "/view"@,
        "/ui/admin/persons"@ == "/ui/admin"@ + AdminPage::Persons.path_text(),
        "/ui/admin/persons/create"@ == "/ui/admin"@ + AdminPage::PersonCreate.path_text(),
        "/ui/admin/groups"@ == "/ui/admin"@ + AdminPage::Groups.path_text(),
        "/ui/admin/groups/create"@ == "/ui/admin"@ + AdminPage::GroupCreate.path_text(),
        "/ui/admin/settings"@ == "/ui/admin"@ + AdminPage::Settings.path_text(),
{
    reveal_strlit("/person/");
    reveal_strlit("{person_uuid}");
    reveal_strlit("/view");
    reveal_strlit("/group/");
    reveal_strlit("{group_uuid}");
    reveal_strlit("/ui/admin");
    reveal_strlit("/person/{person_uuid}/view");
    reveal_strlit("/group/{group_uuid}/view");
    reveal_strlit("/ui/admin/person/");
    reveal_strlit("/ui/admin/group/");
    reveal_strlit("/ui/admin/persons");
    reveal_strlit("/ui/admin/persons/create");
    reveal_strlit("/ui/admin/groups");
    reveal_strlit("/ui/admin/groups/create");
    reveal_strlit("/ui/admin/settings");
    reveal_strlit("/persons");
    reveal_strlit("/persons/create");
    reveal_strlit("/groups");
    reveal_strlit("/groups/create");
    reveal_strlit("/settings");
    assert("/person/{person_uuid}/view"@ =~= "/person/"@ + "{person_uuid}"@ + "/view"@);
    assert("/group/{group_uuid}/view"@ =~= "/group/"@ + "{group_uuid}"@ + "/view"@);
    assert("/ui/admin/person/"@ =~= "/ui/admin"@ + "/person/"@);
    assert("/ui/admin/group/"@ =~= "/ui/admin"@ + "/group/"@);
    assert("/ui/admin/persons"@ =~= "/ui/admin"@ + "/persons"@);
    assert("/ui/admin/persons/create"@ =~= "/ui/admin"@ + "/persons/create"@);
    assert("/ui/admin/groups"@ =~= "/ui/admin"@ + "/groups"@);
    assert("/ui/admin/groups/create"@ =~= "/ui/admin"@ + "/groups/create"@);
    assert("/ui/admin/settings"@ =~= "/ui/admin"@ + "/settings"@);
}

/// The page of an OAuth2 client is below the list of clients, under its name, and different clients
/// have different pages.
pub proof fn law_client_pages_are_below_their_list(a: Seq<char>, b: Seq<char>)
    ensures
        oauth2_path(a) == "/ui/admin/oauth2"@ + "/"@ + a + "/view"@,
        oauth2_path(a) == oauth2_path(b) ==> a == b,
{
    reveal_strlit("/ui/admin/oauth2");
    reveal_strlit("/ui/admin/oauth2/");
    reveal_strlit("/");
    assert("/ui/admin/oauth2/"@ =~= "/ui/admin/oauth2"@ + "/"@);
    let n = "/ui/admin/oauth2/"@.len() as int;
    let k = "/view"@.len();
    if oauth2_path(a) == oauth2_path(b) {
        assert(oauth2_path(a).len() == n + a.len() + k);
        assert(oauth2_path(b).len() == n + b.len() + k);
        assert(oauth2_path(a).subrange(n, n + a.len()) =~= a);
        assert(oauth2_path(b).subrange(n, n + b.len()) =~= b);
    }
}

} // verus!
