//! The bridge between the transport layer and the workers.
//!
//! A transport request arrives here as a [`Request`]: the plain values that
//! the logic reads from it. Typed parameters are built from it and wrapped in
//! a [`Message`] for a worker; what the worker answers, or the error that
//! stopped the request on its way, is turned into a [`Response`].

use vstd::prelude::*;
use vstd::string::*;

use crate::errors::{Error, ErrorView};
use crate::model::Account;

verus! {

/// The status code of a success.
pub const OK: u16 = 200;

/// The status code of a permanent redirect.
pub const PERMANENT_REDIRECT: u16 = 308;

/// The status code of a malformed request.
pub const BAD_REQUEST: u16 = 400;

/// The status code of a request without authentication.
pub const UNAUTHORIZED: u16 = 401;

/// The status code of a request for what does not exist.
pub const NOT_FOUND: u16 = 404;

/// The status code of a failure on the server's side.
pub const INTERNAL_SERVER_ERROR: u16 = 500;

/// What the logic reads from a transport request.
#[derive(Debug, Clone, PartialEq, Eq)]
pub struct Request {
    /// The principal that the token authenticator resolved, if any.
    pub api_account: Option<Account>,
    /// The principal that the session authenticator resolved, if any.
    pub session_account: Option<Account>,
    /// The decoded fields of the query string, in the order of the request.
    pub query: Vec<(String, String)>,
    /// The parameters matched in the path, by name.
    pub path: Vec<(String, String)>,
    /// The version under which the assets are served.
    pub assets_version: String,
}

/// The mathematical content of a [`Request`].
pub struct RequestView {
    pub api_account: Option<Account>,
    pub session_account: Option<Account>,
    pub query: Seq<(Seq<char>, Seq<char>)>,
    pub path: Seq<(Seq<char>, Seq<char>)>,
    pub assets_version: Seq<char>,
}

impl View for Request {
    type V = RequestView;

    open spec fn view(&self) -> RequestView {
        RequestView {
            api_account: self.api_account,
            session_account: self.session_account,
            query: self.query.deep_view(),
            path: self.path.deep_view(),
            assets_version: self.assets_version@,
        }
    }
}

impl RequestView {
    /// The authenticated principal: the one of the token authenticator where
    /// it resolved one, else the one of the session authenticator.
    pub open spec fn account(self) -> Option<Account> {
        if self.api_account is Some {
            self.api_account
        } else {
            self.session_account
        }
    }
}

/// The value of the field called `name` among `fields`: that of the last
/// field of this name, as in a map filled in the order of the fields.
pub open spec fn lookup(fields: Seq<(Seq<char>, Seq<char>)>, name: Seq<char>) -> Option<Seq<char>>
    decreases fields.len(),
{
    if fields.len() == 0 {
        None
    } else if fields.last().0 == name {
        Some(fields.last().1)
    } else {
        lookup(fields.drop_last(), name)
    }
}

/// Looks up the field called `name`.
pub fn field<'a>(fields: &'a Vec<(String, String)>, name: &str) -> (value: Option<&'a String>)
    ensures
        value.deep_view() == lookup(fields.deep_view(), name@),
{
    let wanted = String::from_str(name);
    let ghost all = fields.deep_view();
    let mut left: usize = fields.len();
    assert(all.take(left as int) =~= all);
    while left > 0
        invariant
            left <= fields.len(),
            all == fields.deep_view(),
            wanted@ == name@,
            lookup(all, name@) == lookup(all.take(left as int), name@),
        decreases left,
    {
        let ghost head = all.take(left as int);
        left = left - 1;
        let pair = &fields[left];
        proof {
            assert(head.drop_last() =~= all.take(left as int));
        }
        if pair.0 == wanted {
            return Some(&pair.1);
        }
    }
    None
}

/// A transport response.
#[derive(Debug, Clone, PartialEq, Eq)]
pub struct Response {
    pub status: u16,
    pub content_type: Option<String>,
    pub location: Option<String>,
    pub body: String,
}

/// The mathematical content of a [`Response`].
pub struct ResponseView {
    pub status: u16,
    pub content_type: Option<Seq<char>>,
    pub location: Option<Seq<char>>,
    pub body: Seq<char>,
}

impl View for Response {
    type V = ResponseView;

    open spec fn view(&self) -> ResponseView {
        ResponseView {
            status: self.status,
            content_type: self.content_type.deep_view(),
            location: self.location.deep_view(),
            body: self.body@,
        }
    }
}

/// Parameters decoded from a request. They travel to a worker inside a
/// [`Message`] and hold all that the worker needs for its work.
pub trait Params: Sized {
    /// Decodes the parameters from a request, or says what is wrong with it.
    fn build(req: &Request) -> Result<Self, Error>;
}

/// The envelope in which parameters travel to a worker.
#[derive(Debug, Clone, PartialEq, Eq)]
pub struct Message<P> {
    pub params: P,
}

impl<P> Message<P> {
    /// Wraps the parameters.
    pub fn new(params: P) -> (message: Message<P>)
        ensures
            message.params == params,
    {
        Message { params }
    }
}

/// The error of a request whose worker was gone before it answered.
pub open spec fn canceled() -> ErrorView {
    ErrorView::plain(crate::errors::ErrorKindView::Internal("Future canceled"@))
}

/// What a submission came to. `received` is the worker's answer, or `None`
/// where the channel to the workers was severed before one answered: that is
/// an internal error. A submission is made once and not tried again.
pub fn worker_reply<T>(received: Option<Result<T, Error>>) -> (reply: Result<T, Error>)
    ensures
        match received {
            Some(answer) => reply == answer,
            None => reply matches Err(error) && error@ == canceled(),
        },
{
    match received {
        Some(answer) => answer,
        None => Err(Error::internal("Future canceled")),
    }
}

/// The authenticated principal of a request: the one that the token
/// authenticator resolved, else the one of the session authenticator, else
/// none.
pub fn account(req: &Request) -> (principal: Option<Account>)
    ensures
        principal == req@.account(),
{
    if let Some(account) = req.api_account {
        return Some(account);
    }
    if let Some(account) = req.session_account {
        return Some(account);
    }
    None
}

/// An error turned into a response, with the line for the server's log where
/// the error was not one for the client's eyes.
#[derive(Debug, Clone, PartialEq, Eq)]
pub struct Rendering<R> {
    pub response: R,
    pub log: Option<String>,
}

/// The mathematical content of a [`Rendering`].
pub struct RenderingView<V> {
    pub response: V,
    pub log: Option<Seq<char>>,
}

impl<R: View> View for Rendering<R> {
    type V = RenderingView<R::V>;

    open spec fn view(&self) -> RenderingView<R::V> {
        RenderingView { response: self.response@, log: self.log.deep_view() }
    }
}

/// The message that a client is shown in place of an internal error.
pub open spec fn internal_message() -> Seq<char> {
    "Internal server error"@
}

/// Whether `rendering` is what the internal path gives for an error with the
/// full account `detail`: the response that `render_internal` makes of the
/// status of a server failure and the generic message, and the account for
/// the log.
pub open spec fn rendered_internally<R, FInternal: FnOnce(u16, String) -> R>(
    detail: Seq<char>,
    render_internal: FInternal,
    rendering: Rendering<R>,
) -> bool {
    &&& rendering.log.deep_view() == Some(detail)
    &&& exists|message: String|
        message@ == internal_message() && #[trigger] render_internal.ensures(
            (INTERNAL_SERVER_ERROR, message),
            rendering.response,
        )
}

/// Whether `rendering` is what [`render_error`] gives for `error`.
///
/// An error of a user-facing classification goes to `render_user` with its
/// status code and the message of its classification; what that makes of it
/// is the response, and nothing is logged. Where `render_user` fails, its
/// error takes the internal path; so does an error of any other
/// classification.
pub open spec fn rendered<
    R,
    FInternal: FnOnce(u16, String) -> R,
    FUser: FnOnce(u16, String) -> Result<R, Error>,
>(error: ErrorView, render_internal: FInternal, render_user: FUser, rendering: Rendering<R>)
    -> bool {
    match error.kind.user_status() {
        Some(status) => exists|message: String, attempt: Result<R, Error>|
            message@ == error.kind.message() && #[trigger] render_user.ensures(
                (status, message),
                attempt,
            ) && match attempt {
                Ok(response) => rendering.response == response && rendering.log is None,
                Err(failure) => rendered_internally(failure@.detail(), render_internal, rendering),
            },
        None => rendered_internally(error.detail(), render_internal, rendering),
    }
}

fn render_internally<R, FInternal>(failure: &Error, render_internal: FInternal) -> (rendering:
    Rendering<R>) where FInternal: FnOnce(u16, String) -> R
    requires
        forall|status: u16, message: String| #[trigger] render_internal.requires((status, message)),
    ensures
        rendered_internally(failure@.detail(), render_internal, rendering),
{
    let detail = failure.detail();
    let message = String::from_str("Internal server error");
    let ghost shown = message;
    let response = render_internal(INTERNAL_SERVER_ERROR, message);
    let rendering = Rendering { response, log: Some(detail) };
    assert(shown@ == internal_message() && render_internal.ensures(
        (INTERNAL_SERVER_ERROR, shown),
        rendering.response,
    ));
    rendering
}

/// Turns an error into a response.
///
/// `render_user` renders what a client may read, `render_internal` what it
/// is shown otherwise. An internal error never reaches either of them: its
/// full account comes back for the log.
pub fn render_error<R, FInternal, FUser>(
    error: Error,
    render_internal: FInternal,
    render_user: FUser,
) -> (rendering: Rendering<R>) where
    FInternal: FnOnce(u16, String) -> R,
    FUser: FnOnce(u16, String) -> Result<R, Error>,

    requires
        forall|status: u16, message: String| #[trigger] render_internal.requires((status, message)),
        forall|status: u16, message: String| #[trigger] render_user.requires((status, message)),
    ensures
        rendered(error@, render_internal, render_user, rendering),
{
    match error.user_status() {
        Some(status) => {
            let message = error.to_string();
            let ghost shown = message;
            let attempt = render_user(status, message);
            assert(shown@ == error@.kind.message() && render_user.ensures(
                (status, shown),
                attempt,
            ));
            match attempt {
                Ok(response) => Rendering { response, log: None },
                Err(failure) => render_internally(&failure, render_internal),
            }
        },
        None => render_internally(&error, render_internal),
    }
}

} // verus!
