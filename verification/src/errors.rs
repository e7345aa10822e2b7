//! The error taxonomy shared by the bridge and the mediators.
//!
//! An error has a classification, which decides how it is shown to a client,
//! and a chain of context messages, which is for the server's own log. Adding
//! context never changes the classification.

use vstd::prelude::*;
use vstd::string::*;

use crate::text::{
    parse_diagnostic, parse_i64, parsed_decimal, push_signed_decimal, signed_decimal,
};

verus! {

/// How an error is classified.
#[derive(Debug, Clone, PartialEq, Eq)]
pub enum ErrorKind {
    /// A parameter of the request had a value that cannot be used: its name
    /// and the reason.
    BadParameter(String, String),
    /// The request as a whole was malformed.
    BadRequest(String),
    /// A referenced entity does not exist: its kind and its id.
    NotFound(String, i64),
    /// Something was not found that has no id to name it by.
    NotFoundGeneral(String),
    /// The caller is not authenticated.
    Unauthorized,
    /// Anything else. Never shown to a client.
    Internal(String),
}

/// The mathematical content of an [`ErrorKind`].
pub enum ErrorKindView {
    BadParameter(Seq<char>, Seq<char>),
    BadRequest(Seq<char>),
    NotFound(Seq<char>, int),
    NotFoundGeneral(Seq<char>),
    Unauthorized,
    Internal(Seq<char>),
}

impl View for ErrorKind {
    type V = ErrorKindView;

    open spec fn view(&self) -> ErrorKindView {
        match *self {
            ErrorKind::BadParameter(name, reason) => ErrorKindView::BadParameter(name@, reason@),
            ErrorKind::BadRequest(message) => ErrorKindView::BadRequest(message@),
            ErrorKind::NotFound(resource, id) => ErrorKindView::NotFound(resource@, id as int),
            ErrorKind::NotFoundGeneral(message) => ErrorKindView::NotFoundGeneral(message@),
            ErrorKind::Unauthorized => ErrorKindView::Unauthorized,
            ErrorKind::Internal(message) => ErrorKindView::Internal(message@),
        }
    }
}

impl ErrorKindView {
    /// The message of this classification, as a client may read it.
    pub open spec fn message(self) -> Seq<char> {
        match self {
            ErrorKindView::BadParameter(name, reason) => "Bad value for parameter "@ + name + ": "@
                + reason,
            ErrorKindView::BadRequest(message) => "Bad request: "@ + message,
            ErrorKindView::NotFound(resource, id) => "Resource not found: "@ + resource + " ID "@
                + signed_decimal(id),
            ErrorKindView::NotFoundGeneral(message) => "Not found: "@ + message,
            ErrorKindView::Unauthorized => "Unauthorized"@,
            ErrorKindView::Internal(message) => message,
        }
    }

    /// The status code under which a user-facing classification is answered,
    /// or `None` for an internal one.
    pub open spec fn user_status(self) -> Option<u16> {
        match self {
            ErrorKindView::BadParameter(_, _) => Some(400u16),
            ErrorKindView::BadRequest(_) => Some(400u16),
            ErrorKindView::NotFound(_, _) => Some(404u16),
            ErrorKindView::NotFoundGeneral(_) => Some(404u16),
            ErrorKindView::Unauthorized => Some(401u16),
            ErrorKindView::Internal(_) => None,
        }
    }
}

impl ErrorKind {
    /// Renders the message of this classification.
    pub fn message(&self) -> (text: String)
        ensures
            text@ == self@.message(),
    {
        match self {
            ErrorKind::BadParameter(name, reason) => {
                let mut text = String::from_str("Bad value for parameter ");
                text.append(name.as_str());
                text.append(": ");
                text.append(reason.as_str());
                text
            },
            ErrorKind::BadRequest(message) => {
                let mut text = String::from_str("Bad request: ");
                text.append(message.as_str());
                text
            },
            ErrorKind::NotFound(resource, id) => {
                let mut text = String::from_str("Resource not found: ");
                text.append(resource.as_str());
                text.append(" ID ");
                push_signed_decimal(&mut text, *id);
                text
            },
            ErrorKind::NotFoundGeneral(message) => {
                let mut text = String::from_str("Not found: ");
                text.append(message.as_str());
                text
            },
            ErrorKind::Unauthorized => String::from_str("Unauthorized"),
            ErrorKind::Internal(message) => message.clone(),
        }
    }

    /// The status code of a user-facing classification, `None` for an
    /// internal one.
    pub fn user_status(&self) -> (status: Option<u16>)
        ensures
            status == self@.user_status(),
    {
        match self {
            ErrorKind::BadParameter(_, _) => Some(400),
            ErrorKind::BadRequest(_) => Some(400),
            ErrorKind::NotFound(_, _) => Some(404),
            ErrorKind::NotFoundGeneral(_) => Some(404),
            ErrorKind::Unauthorized => Some(401),
            ErrorKind::Internal(_) => None,
        }
    }
}

/// An error: a classification and the context that was attached to it on its
/// way up, oldest first.
#[derive(Debug, Clone, PartialEq, Eq)]
pub struct Error {
    pub kind: ErrorKind,
    pub context: Vec<String>,
}

/// The mathematical content of an [`Error`].
pub struct ErrorView {
    pub kind: ErrorKindView,
    pub context: Seq<Seq<char>>,
}

impl View for Error {
    type V = ErrorView;

    open spec fn view(&self) -> ErrorView {
        ErrorView { kind: self.kind@, context: self.context.deep_view() }
    }
}

impl ErrorView {
    /// An error of the given classification to which no context was attached.
    pub open spec fn plain(kind: ErrorKindView) -> ErrorView {
        ErrorView { kind, context: Seq::empty() }
    }

    /// This error with one more context message.
    pub open spec fn chained(self, context: Seq<char>) -> ErrorView {
        ErrorView { kind: self.kind, context: self.context.push(context) }
    }

    /// The first `n` context messages in the order of [`ErrorView::detail`]:
    /// the newest first, each followed by a colon and a space.
    pub open spec fn context_prefix(self, n: nat) -> Seq<char>
        decreases n,
    {
        if n == 0 || n > self.context.len() {
            Seq::empty()
        } else {
            self.context_prefix((n - 1) as nat) + self.context[self.context.len() - n] + ": "@
        }
    }

    /// The full account of the error for the server's log: every context
    /// message, newest first, and then the message of the classification.
    pub open spec fn detail(self) -> Seq<char> {
        self.context_prefix(self.context.len()) + self.kind.message()
    }
}

impl Error {
    /// An error of the given classification without context.
    pub fn new(kind: ErrorKind) -> (error: Error)
        ensures
            error@ == ErrorView::plain(kind@),
    {
        let error = Error { kind, context: Vec::new() };
        assert(error.context.deep_view() =~= Seq::<Seq<char>>::empty());
        error
    }

    /// An internal error with the given message.
    pub fn internal(message: &str) -> (error: Error)
        ensures
            error@ == ErrorView::plain(ErrorKindView::Internal(message@)),
    {
        Error::new(ErrorKind::Internal(String::from_str(message)))
    }

    /// Attaches a context message. The classification stays as it is.
    pub fn chain_err(self, context: &str) -> (error: Error)
        ensures
            error@ == self@.chained(context@),
    {
        let Error { kind, context: mut chain } = self;
        let ghost before = chain.deep_view();
        chain.push(String::from_str(context));
        let error = Error { kind, context: chain };
        assert(error.context.deep_view() =~= before.push(context@));
        error
    }

    /// The message for a client: that of the classification alone.
    pub fn to_string(&self) -> (text: String)
        ensures
            text@ == self@.kind.message(),
    {
        self.kind.message()
    }

    /// The full account for the server's log.
    pub fn detail(&self) -> (text: String)
        ensures
            text@ == self@.detail(),
    {
        let mut text = String::new();
        let n: usize = self.context.len();
        let mut done: usize = 0;
        while done < n
            invariant
                n == self.context.len(),
                done <= n,
                text@ == self@.context_prefix(done as nat),
            decreases n - done,
        {
            let item = &self.context[n - 1 - done];
            text.append(item.as_str());
            text.append(": ");
            done = done + 1;
        }
        let message = self.kind.message();
        text.append(message.as_str());
        text
    }

    /// Whether a client may see this error, and under which status code.
    pub fn user_status(&self) -> (status: Option<u16>)
        ensures
            status == self@.kind.user_status(),
    {
        self.kind.user_status()
    }
}

/// Context does not change how an error is classified: with any context
/// attached, the error is shown to a client under the same status code and
/// with the same message, or hidden from it as before.
pub proof fn lemma_context_keeps_classification(error: ErrorView, context: Seq<char>)
    ensures
        error.chained(context).kind == error.kind,
        error.chained(context).kind.user_status() == error.kind.user_status(),
        error.chained(context).kind.message() == error.kind.message(),
        error.chained(context).detail() == context + ": "@ + error.detail(),
{
    lemma_context_prefix_shifts(error, context, error.context.len());
    assert(error.chained(context).detail() =~= context + ": "@ + error.detail());
}

/// The account of an error with one more context starts with that context,
/// and goes on as the account of the error without it.
proof fn lemma_context_prefix_shifts(error: ErrorView, context: Seq<char>, k: nat)
    requires
        k <= error.context.len(),
    ensures
        error.chained(context).context_prefix(k + 1) == context + ": "@ + error.context_prefix(k),
    decreases k,
{
    let chained = error.chained(context);
    let n = error.context.len();
    if k == 0 {
        assert(chained.context_prefix(0) =~= Seq::<char>::empty());
        assert(error.context_prefix(0) =~= Seq::<char>::empty());
        assert(chained.context[n as int] == context);
        assert(chained.context_prefix(1) =~= context + ": "@ + error.context_prefix(0));
    } else {
        lemma_context_prefix_shifts(error, context, (k - 1) as nat);
        assert(chained.context[(n + 1) - (k + 1)] == error.context[n - k]);
        assert(chained.context_prefix(k + 1) =~= context + ": "@ + error.context_prefix(k));
    }
}

/// The error of an id that could not be read: an internal one with the
/// parser's diagnostic, and `context` attached to it.
pub open spec fn unreadable_id(text: Seq<char>, context: Seq<char>) -> ErrorView {
    ErrorView::plain(ErrorKindView::Internal(parse_diagnostic(text))).chained(context)
}

/// Reads an id from its decimal form. Where the text is no 64-bit integer,
/// the error holds the parser's diagnostic and `context`.
pub fn parse_id(text: &str, context: &str) -> (id: Result<i64, Error>)
    ensures
        match id {
            Ok(n) => parsed_decimal(text@) == Some(n as int),
            Err(error) => parsed_decimal(text@) is None && error@ == unreadable_id(text@, context@),
        },
{
    match parse_i64(text) {
        Ok(n) => Ok(n),
        Err(diagnostic) => Err(Error::internal(diagnostic.as_str()).chain_err(context)),
    }
}

} // verus!
