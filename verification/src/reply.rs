//! What the browser is answered.
use crate::request::{WriteRequest, WriteRequestView};
use vstd::prelude::*;
use vstd::string::*;

verus! {

/// A page of the site that other parts of it define.
#[derive(Clone, Copy, Debug, PartialEq, Eq, Structural)]
pub enum Urls {
    /// The list of persons.
    Admin,
    /// The list of groups.
    AdminGroups,
    /// The list of applications.
    Apps,
    /// The page on which a user resets credentials.
    CredReset,
}

/// A place that the browser goes to or shows as its address.
#[derive(Debug)]
pub enum Location {
    /// A path, with its query string if it has one.
    Path(String),
    /// A page of the site.
    Page(Urls),
}

/// A place, as a mathematical value.
pub enum LocationView {
    Path(Seq<char>),
    Page(Urls),
}

impl View for Location {
    type V = LocationView;

    open spec fn view(&self) -> LocationView {
        match self {
            Location::Path(s) => LocationView::Path(s@),
            Location::Page(u) => LocationView::Page(*u),
        }
    }
}

/// Why an operation failed.
#[derive(Debug)]
pub enum OperationError<E> {
    /// The server answered with an error.
    Server(E),
    /// The server answered with an entry that is not what was asked for.
    InvalidState,
    /// A request could not be encoded.
    Backend,
    /// The group has the member already.
    MemberAlreadyExists,
}

/// The answer to a change that succeeded.
#[derive(Debug)]
pub enum Success {
    /// The browser goes to another place.
    GoTo(Location),
    /// A floating notification says that the change was saved.
    SavedToast,
}

/// The answer to a change that succeeded, as a mathematical value.
pub enum SuccessView {
    GoTo(LocationView),
    SavedToast,
}

impl View for Success {
    type V = SuccessView;

    open spec fn view(&self) -> SuccessView {
        match self {
            Success::GoTo(l) => SuccessView::GoTo(l@),
            Success::SavedToast => SuccessView::SavedToast,
        }
    }
}

/// The answer to a request.
#[derive(Debug)]
pub enum Reply<E> {
    /// A change succeeded.
    Done(Success),
    /// A row for a new member of a group, and a notification that it was saved.
    MemberEntry { group_uuid: u128, member_name: String, can_edit_member: bool },
    /// A link with which a user can reset credentials.
    ResetLink(String),
    /// A floating notification with an error.
    ErrorToast(OperationError<E>),
    /// An error in place of the content.
    ErrorPage(OperationError<E>),
    /// An error response without content.
    WebError(OperationError<E>),
}

/// The answer to a request, as a mathematical value.
pub enum ReplyView<E> {
    Done(SuccessView),
    MemberEntry { group_uuid: u128, member_name: Seq<char>, can_edit_member: bool },
    ResetLink(Seq<char>),
    ErrorToast(OperationError<E>),
    ErrorPage(OperationError<E>),
    WebError(OperationError<E>),
}

impl<E> View for Reply<E> {
    type V = ReplyView<E>;

    open spec fn view(&self) -> ReplyView<E> {
        match self {
            Reply::Done(s) => ReplyView::Done(s@),
            Reply::MemberEntry { group_uuid, member_name, can_edit_member } => {
                ReplyView::MemberEntry {
                    group_uuid: *group_uuid,
                    member_name: member_name@,
                    can_edit_member: *can_edit_member,
                }
            },
            Reply::ResetLink(s) => ReplyView::ResetLink(s@),
            Reply::ErrorToast(e) => ReplyView::ErrorToast(*e),
            Reply::ErrorPage(e) => ReplyView::ErrorPage(*e),
            Reply::WebError(e) => ReplyView::WebError(*e),
        }
    }
}

/// How a failed change is answered.
#[derive(Clone, Copy, Debug, PartialEq, Eq, Structural)]
pub enum FailureStyle {
    /// With a floating notification.
    Toast,
    /// With an error in place of the content.
    Page,
}

/// A change: the write that it takes, and how success and failure are answered.
#[derive(Debug)]
pub struct Mutation {
    pub request: WriteRequest,
    pub success: Success,
    pub failure: FailureStyle,
}

/// A change, as a mathematical value.
pub struct MutationView {
    pub request: WriteRequestView,
    pub success: SuccessView,
    pub failure: FailureStyle,
}

impl View for Mutation {
    type V = MutationView;

    open spec fn view(&self) -> MutationView {
        MutationView { request: self.request@, success: self.success@, failure: self.failure }
    }
}

/// The answer to an error of the server.
pub open spec fn refusal<E>(failure: FailureStyle, error: E) -> ReplyView<E> {
    match failure {
        FailureStyle::Toast => ReplyView::ErrorToast(OperationError::Server(error)),
        FailureStyle::Page => ReplyView::ErrorPage(OperationError::Server(error)),
    }
}

/// The answer to a change once the server has answered its write.
pub open spec fn concluded<E>(
    success: SuccessView,
    failure: FailureStyle,
    result: Result<(), E>,
) -> ReplyView<E> {
    match result {
        Ok(_) => ReplyView::Done(success),
        Err(e) => refusal(failure, e),
    }
}

/// What is left of a change while its write is under way: how success and failure are answered.
#[derive(Debug)]
pub struct Ending {
    pub success: Success,
    pub failure: FailureStyle,
}

impl Mutation {
    /// The write to make, and how it ends.
    pub fn into_parts(self) -> (r: (WriteRequest, Ending))
        ensures
            r.0 == self.request,
            r.1.success == self.success,
            r.1.failure == self.failure,
    {
        (self.request, Ending { success: self.success, failure: self.failure })
    }
}

impl Ending {
    /// The answer once the server has answered the write.
    pub fn conclude<E>(self, result: Result<(), E>) -> (r: Reply<E>)
        ensures
            r@ == concluded(self.success@, self.failure, result),
    {
        match result {
            Ok(_) => Reply::Done(self.success),
            Err(e) => match self.failure {
                FailureStyle::Toast => Reply::ErrorToast(OperationError::Server(e)),
                FailureStyle::Page => Reply::ErrorPage(OperationError::Server(e)),
            },
        }
    }
}

/// A change, or an answer that needs none.
#[derive(Debug)]
pub enum Plan {
    /// The change to make.
    Submit(Mutation),
    /// Nothing to change.
    Finish(Success),
}

/// A change, or an answer that needs none, as a mathematical value.
pub enum PlanView {
    Submit(MutationView),
    Finish(SuccessView),
}

impl View for Plan {
    type V = PlanView;

    open spec fn view(&self) -> PlanView {
        match self {
            Plan::Submit(m) => PlanView::Submit(m@),
            Plan::Finish(s) => PlanView::Finish(s@),
        }
    }
}

/// A page with its content: the place that the browser shows as its address, and whether the
/// content comes in a whole page or alone, as a part that the browser swaps in.
#[derive(Debug)]
pub struct Page<P> {
    pub push_url: Location,
    pub whole: bool,
    pub partial: P,
}

/// A change that ends at a path, with failures as notifications.
pub open spec fn reloading(request: WriteRequestView, path: Seq<char>) -> MutationView {
    MutationView {
        request,
        success: SuccessView::GoTo(LocationView::Path(path)),
        failure: FailureStyle::Toast,
    }
}

/// A change that ends at a path, with failures as notifications.
pub fn reload_after(request: WriteRequest, path: String) -> (r: Mutation)
    ensures
        r@ == reloading(request@, path@),
{
    Mutation {
        request,
        success: Success::GoTo(Location::Path(path)),
        failure: FailureStyle::Toast,
    }
}

/// The privileges of the viewer, or the error page that answers a viewer without a token.
pub fn require_token<T, E>(token: Result<T, E>) -> (r: Result<T, Reply<E>>)
    ensures
        match token {
            Ok(t) => r == Ok::<T, Reply<E>>(t),
            Err(e) => r == Err::<T, Reply<E>>(Reply::ErrorPage(OperationError::Server(e))),
        },
{
    match token {
        Ok(t) => Ok(t),
        Err(e) => Err(Reply::ErrorPage(OperationError::Server(e))),
    }
}

/// What a page without content of its own answers: an error page for a viewer without a token,
/// else the page, with what the token says of the viewer.
pub open spec fn form_shown<T, E>(
    path: Seq<char>,
    is_htmx: bool,
    token: Result<T, E>,
    r: Result<Page<T>, Reply<E>>,
) -> bool {
    match token {
        Err(e) => r is Err && r->Err_0@ == refusal(FailureStyle::Page, e),
        Ok(t) => {
            &&& r is Ok
            &&& r->Ok_0.push_url@ == LocationView::Path(path)
            &&& r->Ok_0.whole == !is_htmx
            &&& r->Ok_0.partial == t
        },
    }
}

/// The answer to the request for a page that shows a form.
pub fn form_page<T, E>(path: &str, is_htmx: bool, token: Result<T, E>) -> (r: Result<
    Page<T>,
    Reply<E>,
>)
    ensures
        form_shown(path@, is_htmx, token, r),
{
    match require_token(token) {
        Ok(partial) => Ok(
            Page { push_url: Location::Path(path.to_string()), whole: !is_htmx, partial },
        ),
        Err(reply) => Err(reply),
    }
}

/// A change is answered with its success exactly if its write succeeded, and otherwise with the
/// error of the server, as a notification or in place of the content as the change says.
pub proof fn law_changes_are_answered<E>(
    success: SuccessView,
    failure: FailureStyle,
    result: Result<(), E>,
)
    ensures
        result is Ok <==> concluded(success, failure, result) is Done,
        result is Ok ==> concluded(success, failure, result)->Done_0 == success,
        result is Err && failure is Toast ==> concluded(success, failure, result) is ErrorToast
            && concluded(success, failure, result)->ErrorToast_0 == OperationError::Server(
            result->Err_0,
        ),
        result is Err && failure is Page ==> concluded(success, failure, result) is ErrorPage
            && concluded(success, failure, result)->ErrorPage_0 == OperationError::Server(
            result->Err_0,
        ),
{
}

/// A change that ends at a path makes its write, then sends the browser to that path, and shows
/// failures as notifications.
pub proof fn law_reloading_changes_end_at_their_path(request: WriteRequestView, path: Seq<char>)
    ensures
        reloading(request, path).request == request,
        reloading(request, path).success is GoTo,
        reloading(request, path).success->GoTo_0 is Path,
        reloading(request, path).success->GoTo_0->Path_0 == path,
        reloading(request, path).failure is Toast,
{
}

/// A page with a form is shown exactly to viewers with a token, whole unless the browser asked for
/// a part, at its own address and with what the token says.
pub proof fn law_forms_need_a_token<T, E>(
    path: Seq<char>,
    is_htmx: bool,
    token: Result<T, E>,
    r: Result<Page<T>, Reply<E>>,
)
    requires
        form_shown(path, is_htmx, token, r),
    ensures
        r is Ok <==> token is Ok,
        r is Ok ==> r->Ok_0.partial == token->Ok_0 && r->Ok_0.whole != is_htmx && r->Ok_0.push_url
            is Path && r->Ok_0.push_url->Path_0@ == path,
        r is Err ==> r->Err_0 is ErrorPage && r->Err_0->ErrorPage_0 == OperationError::Server(
            token->Err_0,
        ),
{
}

} // verus!
