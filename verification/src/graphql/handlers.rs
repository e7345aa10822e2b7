//! The two endpoints of the query interface and the page for developers.
//!
//! A request is decoded into [`Params`], which travel to a worker; what the
//! worker answers is rendered by [`respond`]. A request that cannot be
//! decoded is answered at once, and no worker hears of it.

use vstd::prelude::*;
use vstd::string::*;

use crate::errors::{Error, ErrorKind, ErrorKindView, ErrorView};
use crate::model::Account;
use crate::server::{
    account, field, internal_message, lookup, render_error, Message, Rendering, RenderingView,
    Request, RequestView, Response, ResponseView, BAD_REQUEST, INTERNAL_SERVER_ERROR, OK,
    UNAUTHORIZED,
};

verus! {

/// `juniper::DefaultScalarValue`, the scalar of the values below. Nothing is
/// claimed of what a value of it holds.
#[verifier::external_type_specification]
#[verifier::external_body]
pub struct ExDefaultScalarValue(juniper::DefaultScalarValue);

/// `juniper::InputValue`, the variables of a query as the executor takes
/// them. A value is carried from the decoder to the executor as it is, and
/// nothing is claimed of what it holds.
#[verifier::external_type_specification]
#[verifier::external_body]
#[verifier::reject_recursive_types(S)]
pub struct ExInputValue<S>(juniper::InputValue<S>);

/// What `serde_json::from_str` makes of a text as a `juniper::InputValue`:
/// the value, or the diagnostic with which it refuses the text.
pub uninterp spec fn parsed_variables(text: Seq<char>) -> Result<
    juniper::InputValue<juniper::DefaultScalarValue>,
    Seq<char>,
>;

/// What `serde_json::from_slice` makes of a body as a
/// `juniper::http::GraphQLRequest`: the query, the name of the operation and
/// the variables that came with it, or the diagnostic with which it refuses
/// the body.
pub uninterp spec fn decoded_body(data: Seq<u8>) -> Result<
    (Seq<char>, Option<Seq<char>>, Option<juniper::InputValue<juniper::DefaultScalarValue>>),
    Seq<char>,
>;

/// The text that `serde_json::to_string_pretty` makes of a document with
/// one message: an object that holds, under the key `outer`, an array of one
/// object, which holds the message under the key `inner`.
pub uninterp spec fn pretty_document(outer: Seq<char>, inner: Seq<char>, message: Seq<char>)
    -> Seq<char>;

/// The page that `juniper::http::graphiql::graphiql_source` generates for an
/// endpoint, without an endpoint for subscriptions.
pub uninterp spec fn graphiql_page(endpoint: Seq<char>) -> Seq<char>;

/// Parses the text of the variables with `serde_json::from_str` into a
/// `juniper::InputValue`. The value is handed on as it is; of a text that is
/// refused, the error's `Display` text comes back. The contract names the
/// value and the diagnostic and claims nothing else.
#[verifier::external_body]
fn parse_variables(text: &str) -> (parsed: Result<
    juniper::InputValue<juniper::DefaultScalarValue>,
    String,
>)
    ensures
        match parsed {
            Ok(value) => parsed_variables(text@) == Ok::<
                juniper::InputValue<juniper::DefaultScalarValue>,
                Seq<char>,
            >(value),
            Err(diagnostic) => parsed_variables(text@) == Err::<
                juniper::InputValue<juniper::DefaultScalarValue>,
                Seq<char>,
            >(diagnostic@),
        },
{
    match serde_json::from_str::<juniper::InputValue>(text) {
        Ok(value) => Ok(value),
        Err(error) => Err(error.to_string()),
    }
}

/// Decodes a body with `serde_json::from_slice` into a
/// `juniper::http::GraphQLRequest` and hands its three fields on; of a body
/// that is refused, the error's `Display` text comes back. The contract
/// names what was decoded and claims nothing else.
#[verifier::external_body]
fn decode_body(data: &[u8]) -> (decoded: Result<
    (String, Option<String>, Option<juniper::InputValue<juniper::DefaultScalarValue>>),
    String,
>)
    ensures
        match decoded {
            Ok((query, operation_name, variables)) => decoded_body(data@) == Ok::<
                (
                    Seq<char>,
                    Option<Seq<char>>,
                    Option<juniper::InputValue<juniper::DefaultScalarValue>>,
                ),
                Seq<char>,
            >((query@, operation_name.deep_view(), variables)),
            Err(diagnostic) => decoded_body(data@) == Err::<
                (
                    Seq<char>,
                    Option<Seq<char>>,
                    Option<juniper::InputValue<juniper::DefaultScalarValue>>,
                ),
                Seq<char>,
            >(diagnostic@),
        },
{
    match serde_json::from_slice::<juniper::http::GraphQLRequest>(data) {
        Ok(request) => Ok((request.query, request.operation_name, request.variables)),
        Err(error) => Err(error.to_string()),
    }
}

/// Puts a message into a `serde_json::Value`, an object that holds under
/// the key `outer` an array of one object, which holds the message under the
/// key `inner`, and renders it with `serde_json::to_string_pretty`.
///
/// The documentation of `to_string_pretty` names two causes of failure: a
/// `Serialize` impl that decides to fail, and a map whose keys are no
/// strings. The impl of `Value` fails for neither strings, arrays nor
/// objects, the keys of its maps are strings, and the text is written into a
/// vector of bytes, which takes every write. So the contract claims that a
/// text always comes back, and names it.
#[verifier::external_body]
fn render_document(outer: &str, inner: &str, message: &str) -> (document: Option<String>)
    ensures
        document.deep_view() == Some(pretty_document(outer@, inner@, message@)),
{
    let mut error = serde_json::Map::new();
    error.insert(inner.to_owned(), serde_json::Value::String(message.to_owned()));
    let errors = serde_json::Value::Array(vec![serde_json::Value::Object(error)]);
    let mut document = serde_json::Map::new();
    document.insert(outer.to_owned(), errors);
    serde_json::to_string_pretty(&serde_json::Value::Object(document)).ok()
}

/// Generates the page for developers with
/// `juniper::http::graphiql::graphiql_source`, for the given endpoint and
/// without one for subscriptions. The contract names the page.
#[verifier::external_body]
fn graphiql_source(endpoint: &str) -> (page: String)
    ensures
        page@ == graphiql_page(endpoint@),
{
    juniper::http::graphiql::graphiql_source(endpoint, None)
}

/// What a worker answers to a query: the document to send back, and whether
/// the execution went through without errors.
#[derive(Debug, Clone, PartialEq, Eq)]
pub struct ExecutionResponse {
    pub json: String,
    pub ok: bool,
}

/// The parameters of a query: who asks, and the parts of the request that
/// the executor is handed.
#[derive(Debug, Clone, PartialEq)]
pub struct Params {
    pub account: Account,
    pub query: String,
    pub operation_name: Option<String>,
    pub variables: Option<juniper::InputValue<juniper::DefaultScalarValue>>,
}

/// The mathematical content of [`Params`].
pub struct ParamsView {
    pub account: Account,
    pub query: Seq<char>,
    pub operation_name: Option<Seq<char>>,
    pub variables: Option<juniper::InputValue<juniper::DefaultScalarValue>>,
}

impl View for Params {
    type V = ParamsView;

    open spec fn view(&self) -> ParamsView {
        ParamsView {
            account: self.account,
            query: self.query@,
            operation_name: self.operation_name.deep_view(),
            variables: self.variables,
        }
    }
}

/// The error of a request that nobody is authenticated for.
pub open spec fn unauthorized() -> ErrorView {
    ErrorView::plain(ErrorKindView::Unauthorized)
}

/// The error of a malformed request.
pub open spec fn bad_request(message: Seq<char>) -> ErrorView {
    ErrorView::plain(ErrorKindView::BadRequest(message))
}

/// The parameters that the parts of a `GET` request give, where
/// `variables` is what the parser made of the variables, if the request has
/// any.
///
/// Without a principal the request is unauthorized. Without a query it is a
/// bad request, and so it is with variables that the parser refused.
/// Otherwise the parameters hold the principal, the query, the name of the
/// operation if there is one, and the variables as the parser gave them.
pub open spec fn params_from_get(
    principal: Option<Account>,
    query: Option<Seq<char>>,
    operation_name: Option<Seq<char>>,
    variables: Option<Result<juniper::InputValue<juniper::DefaultScalarValue>, Seq<char>>>,
) -> Result<ParamsView, ErrorView> {
    match (principal, query, variables) {
        (None, _, _) => Err(unauthorized()),
        (Some(_), None, _) => Err(bad_request("No query provided"@)),
        (Some(_), Some(_), Some(Err(diagnostic))) => Err(
            bad_request("Malformed variables JSON: "@ + diagnostic),
        ),
        (Some(account), Some(query), Some(Ok(value))) => Ok(
            ParamsView { account, query, operation_name, variables: Some(value) },
        ),
        (Some(account), Some(query), None) => Ok(
            ParamsView { account, query, operation_name, variables: None },
        ),
    }
}

/// The parameters that a `GET` request gives: its fields `query`,
/// `operationName` and `variables`, the last one parsed as JSON.
pub open spec fn get_params(req: RequestView) -> Result<ParamsView, ErrorView> {
    params_from_get(
        req.account(),
        lookup(req.query, "query"@),
        lookup(req.query, "operationName"@),
        match lookup(req.query, "variables"@) {
            Some(text) => Some(parsed_variables(text)),
            None => None,
        },
    )
}

/// The parameters that the parts of a `POST` request give, where `decoded`
/// is what the decoder made of the body.
///
/// Without a principal the request is unauthorized. A body that the decoder
/// refused is a bad request, with the decoder's diagnostic in its message.
/// Otherwise the parameters hold the principal and what was decoded.
pub open spec fn params_from_post(
    principal: Option<Account>,
    decoded: Result<
        (Seq<char>, Option<Seq<char>>, Option<juniper::InputValue<juniper::DefaultScalarValue>>),
        Seq<char>,
    >,
) -> Result<ParamsView, ErrorView> {
    match (principal, decoded) {
        (None, _) => Err(unauthorized()),
        (Some(_), Err(diagnostic)) => Err(
            bad_request("Error deserializing request body: "@ + diagnostic),
        ),
        (Some(account), Ok((query, operation_name, variables))) => Ok(
            ParamsView { account, query, operation_name, variables },
        ),
    }
}

/// The parameters that a `POST` request with the body `data` gives.
pub open spec fn post_params(req: RequestView, data: Seq<u8>) -> Result<ParamsView, ErrorView> {
    params_from_post(req.account(), decoded_body(data))
}

/// Whether `built` is what `expected` says, parameters and error taken by
/// their content.
pub open spec fn params_are(built: Result<Params, Error>, expected: Result<ParamsView, ErrorView>)
    -> bool {
    match built {
        Ok(params) => expected == Ok::<ParamsView, ErrorView>(params@),
        Err(error) => expected == Err::<ParamsView, ErrorView>(error@),
    }
}

/// What the parser made of the variables, the diagnostic taken by its
/// content.
pub open spec fn parsed_of(
    parsed: Result<juniper::InputValue<juniper::DefaultScalarValue>, String>,
) -> Result<juniper::InputValue<juniper::DefaultScalarValue>, Seq<char>> {
    match parsed {
        Ok(value) => Ok(value),
        Err(diagnostic) => Err(diagnostic@),
    }
}

/// What the decoder made of a body, taken by its content.
pub open spec fn content_of(
    decoded: Result<
        (String, Option<String>, Option<juniper::InputValue<juniper::DefaultScalarValue>>),
        String,
    >,
) -> Result<
    (Seq<char>, Option<Seq<char>>, Option<juniper::InputValue<juniper::DefaultScalarValue>>),
    Seq<char>,
> {
    match decoded {
        Ok((query, operation_name, variables)) => Ok(
            (query@, operation_name.deep_view(), variables),
        ),
        Err(diagnostic) => Err(diagnostic@),
    }
}

impl Params {
    /// Puts the parameters of a `GET` request together from its parts:
    /// the principal, the fields, and what the parser made of the variables
    /// where the request has any.
    pub fn from_get_parts(
        principal: Option<Account>,
        query: Option<String>,
        operation_name: Option<String>,
        variables: Option<Result<juniper::InputValue<juniper::DefaultScalarValue>, String>>,
    ) -> (built: Result<Params, Error>)
        ensures
            params_are(
                built,
                params_from_get(
                    principal,
                    query.deep_view(),
                    operation_name.deep_view(),
                    match variables {
                        Some(parsed) => Some(parsed_of(parsed)),
                        None => None,
                    },
                ),
            ),
    {
        let account = match principal {
            Some(account) => account,
            None => {
                return Err(Error::new(ErrorKind::Unauthorized));
            },
        };
        let query = match query {
            Some(query) => query,
            None => {
                return Err(Error::new(ErrorKind::BadRequest("No query provided".to_owned())));
            },
        };
        let variables = match variables {
            Some(Ok(value)) => Some(value),
            Some(Err(diagnostic)) => {
                let mut message = String::from_str("Malformed variables JSON: ");
                message.append(diagnostic.as_str());
                return Err(Error::new(ErrorKind::BadRequest(message)));
            },
            None => None,
        };
        Ok(Params { account, query, operation_name, variables })
    }

    /// Puts the parameters of a `POST` request together from the principal
    /// and what the decoder made of the body.
    pub fn from_post_parts(
        principal: Option<Account>,
        decoded: Result<
            (String, Option<String>, Option<juniper::InputValue<juniper::DefaultScalarValue>>),
            String,
        >,
    ) -> (built: Result<Params, Error>)
        ensures
            params_are(built, params_from_post(principal, content_of(decoded))),
    {
        let account = match principal {
            Some(account) => account,
            None => {
                return Err(Error::new(ErrorKind::Unauthorized));
            },
        };
        match decoded {
            Ok((query, operation_name, variables)) => Ok(
                Params { account, query, operation_name, variables },
            ),
            Err(diagnostic) => {
                let mut message = String::from_str("Error deserializing request body: ");
                message.append(diagnostic.as_str());
                Err(Error::new(ErrorKind::BadRequest(message)))
            },
        }
    }

    /// Builds the parameters from a `GET` request.
    pub fn build_from_get(req: &Request) -> (built: Result<Params, Error>)
        ensures
            params_are(built, get_params(req@)),
    {
        let principal = account(req);
        let query = match field(&req.query, "query") {
            Some(query) => Some(query.clone()),
            None => None,
        };
        let operation_name = match field(&req.query, "operationName") {
            Some(name) => Some(name.clone()),
            None => None,
        };
        let variables = match field(&req.query, "variables") {
            Some(text) => Some(parse_variables(text.as_str())),
            None => None,
        };
        Params::from_get_parts(principal, query, operation_name, variables)
    }

    /// Builds the parameters from a `POST` request with the body `data`.
    pub fn build_from_post(req: &Request, data: &[u8]) -> (built: Result<Params, Error>)
        ensures
            params_are(built, post_params(req@, data@)),
    {
        Params::from_post_parts(account(req), decode_body(data))
    }
}

/// A response with a JSON document as its body.
pub open spec fn json_response(status: u16, body: Seq<char>) -> ResponseView {
    ResponseView {
        status,
        content_type: Some("application/json; charset=utf-8"@),
        location: None,
        body,
    }
}

/// The document that reports one error: an object with the array `errors`,
/// which holds one object with the error's `message`.
pub open spec fn errors_document(message: Seq<char>) -> Seq<char> {
    pretty_document("errors"@, "message"@, message)
}

/// The document that reports an internal error where no document could be
/// rendered.
pub open spec fn fallback_document() -> Seq<char> {
    "{\"errors\":[{\"message\":\"Internal server error\"}]}"@
}

/// The error of a document that could not be rendered.
pub open spec fn encoding_failure() -> ErrorView {
    ErrorView::plain(ErrorKindView::Internal("Error encoding the error message"@))
}

fn json_document(status: u16, body: String) -> (response: Response)
    ensures
        response@ == json_response(status, body@),
{
    Response {
        status,
        content_type: Some(String::from_str("application/json; charset=utf-8")),
        location: None,
        body,
    }
}

/// The response that reports an error to a client, where `document` is the
/// rendered document. Where none could be rendered, that is an error of its
/// own.
pub fn errors_response(status: u16, document: Option<String>) -> (rendered: Result<
    Response,
    Error,
>)
    ensures
        match document {
            Some(body) => rendered matches Ok(response) && response@ == json_response(
                status,
                body@,
            ),
            None => rendered matches Err(error) && error@ == encoding_failure(),
        },
{
    match document {
        Some(body) => Ok(json_document(status, body)),
        None => Err(Error::internal("Error encoding the error message")),
    }
}

/// The response that stands for an internal error, where `document` is the
/// rendered document. Where none could be rendered, a fixed one takes its
/// place.
pub fn internal_response(status: u16, document: Option<String>) -> (response: Response)
    ensures
        response@ == json_response(
            status,
            match document {
                Some(body) => body@,
                None => fallback_document(),
            },
        ),
{
    match document {
        Some(body) => json_document(status, body),
        None => json_document(
            status,
            String::from_str("{\"errors\":[{\"message\":\"Internal server error\"}]}"),
        ),
    }
}

/// Renders an error that a client may read: a JSON document with the
/// message, under the given status code.
pub fn render_user_error(code: u16, message: String) -> (rendered: Result<Response, Error>)
    ensures
        rendered matches Ok(response) && response@ == json_response(
            code,
            errors_document(message@),
        ),
{
    errors_response(code, render_document("errors", "message", message.as_str()))
}

/// Renders what a client is shown of an internal error: a JSON document with
/// the message it is handed, under the given status code.
pub fn render_internal_error(code: u16, message: String) -> (response: Response)
    ensures
        response@ == json_response(code, errors_document(message@)),
{
    internal_response(code, render_document("errors", "message", message.as_str()))
}

/// What an error looks like on the query interface.
///
/// An error of a user-facing classification is answered under its status
/// code with its message, and nothing is logged. Any other error is answered
/// as a failure of the server with the generic message, and its full account
/// goes to the log.
pub open spec fn error_rendering(error: ErrorView) -> RenderingView<ResponseView> {
    match error.kind.user_status() {
        Some(status) => RenderingView {
            response: json_response(status, errors_document(error.kind.message())),
            log: None,
        },
        None => RenderingView {
            response: json_response(INTERNAL_SERVER_ERROR, errors_document(internal_message())),
            log: Some(error.detail()),
        },
    }
}

/// What a worker's answer looks like on the query interface: the document
/// under the status of a success where the execution went through, and under
/// that of a bad request where it met errors.
pub open spec fn execution_rendering(json: Seq<char>, ok: bool) -> RenderingView<ResponseView> {
    RenderingView {
        response: json_response(
            if ok {
                OK
            } else {
                BAD_REQUEST
            },
            json,
        ),
        log: None,
    }
}

/// Renders an error on the query interface.
pub fn respond_error(error: Error) -> (rendering: Rendering<Response>)
    ensures
        rendering@ == error_rendering(error@),
{
    render_error(error, render_internal_error, render_user_error)
}

/// Renders what came back for a query: the worker's answer, or the error
/// that stopped the request.
pub fn respond(reply: Result<ExecutionResponse, Error>) -> (rendering: Rendering<Response>)
    ensures
        rendering@ == match reply {
            Ok(answer) => execution_rendering(answer.json@, answer.ok),
            Err(error) => error_rendering(error@),
        },
{
    match reply {
        Ok(answer) => {
            let status = if answer.ok {
                OK
            } else {
                BAD_REQUEST
            };
            Rendering { response: json_document(status, answer.json), log: None }
        },
        Err(error) => respond_error(error),
    }
}

/// What becomes of a request on its way in: its parameters go to a worker,
/// or it is answered at once.
#[derive(Debug, Clone, PartialEq)]
pub enum Dispatch {
    Submit(Message<Params>),
    Respond(Rendering<Response>),
}

/// Whether `dispatch` is what parameters built as `built` lead to: to a
/// worker with the parameters, or to the rendering of the error.
pub open spec fn dispatched(dispatch: Dispatch, built: Result<ParamsView, ErrorView>) -> bool {
    match built {
        Ok(params) => dispatch matches Dispatch::Submit(message) && message.params@ == params,
        Err(error) => dispatch matches Dispatch::Respond(rendering) && rendering@
            == error_rendering(error),
    }
}

fn dispatch(built: Result<Params, Error>) -> (dispatch: Dispatch)
    ensures
        forall|expected: Result<ParamsView, ErrorView>|
            params_are(built, expected) ==> dispatched(dispatch, expected),
{
    match built {
        Ok(params) => Dispatch::Submit(Message::new(params)),
        Err(error) => Dispatch::Respond(respond_error(error)),
    }
}

/// Takes in a `GET` request to the query interface.
///
/// A request without an authenticated principal is answered as unauthorized
/// and reaches no worker.
pub fn graphql_get(req: &Request) -> (dispatch: Dispatch)
    ensures
        dispatched(dispatch, get_params(req@)),
        req@.account() is None ==> (dispatch matches Dispatch::Respond(rendering)
            && rendering.response.status == UNAUTHORIZED),
{
    dispatch(Params::build_from_get(req))
}

/// Takes in a `POST` request to the query interface, with the body `data`.
///
/// A request without an authenticated principal is answered as unauthorized
/// and reaches no worker.
pub fn graphql_post(req: &Request, data: &[u8]) -> (dispatch: Dispatch)
    ensures
        dispatched(dispatch, post_params(req@, data@)),
        req@.account() is None ==> (dispatch matches Dispatch::Respond(rendering)
            && rendering.response.status == UNAUTHORIZED),
{
    dispatch(Params::build_from_post(req, data))
}

/// Serves the page for developers: always a success, with the page that
/// talks to the endpoint `/graphql`.
pub fn graphiql_get(_req: &Request) -> (response: Response)
    ensures
        response@ == (ResponseView {
            status: OK,
            content_type: Some("text/html; charset=utf-8"@),
            location: None,
            body: graphiql_page("/graphql"@),
        }),
{
    Response {
        status: OK,
        content_type: Some(String::from_str("text/html; charset=utf-8")),
        location: None,
        body: graphiql_source("/graphql"),
    }
}

/// No request without an authenticated principal reaches a worker, on
/// either endpoint and whatever else it holds: it is unauthorized, and the
/// answer carries the status code for that.
pub proof fn lemma_unauthenticated_never_dispatched(req: RequestView, data: Seq<u8>)
    requires
        req.account() is None,
    ensures
        get_params(req) == Err::<ParamsView, ErrorView>(unauthorized()),
        post_params(req, data) == Err::<ParamsView, ErrorView>(unauthorized()),
        error_rendering(unauthorized()).response.status == UNAUTHORIZED,
        error_rendering(unauthorized()).log is None,
{
}

/// A `GET` request of an authenticated principal that has no field `query`
/// is a bad request with a fixed message, whatever else it holds.
pub proof fn lemma_get_without_query(req: RequestView)
    requires
        req.account() is Some,
        lookup(req.query, "query"@) is None,
    ensures
        get_params(req) == Err::<ParamsView, ErrorView>(bad_request("No query provided"@)),
        error_rendering(bad_request("No query provided"@)).response == json_response(
            BAD_REQUEST,
            errors_document("Bad request: No query provided"@),
        ),
{
    reveal_strlit("Bad request: ");
    reveal_strlit("No query provided");
    reveal_strlit("Bad request: No query provided");
    assert("Bad request: "@ + "No query provided"@ =~= "Bad request: No query provided"@);
}

} // verus!
