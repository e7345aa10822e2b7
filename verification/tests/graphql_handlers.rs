use podcore::errors::{Error, ErrorKind};
use podcore::graphql::handlers::{
    errors_response, graphiql_get, graphql_get, graphql_post, internal_response,
    render_internal_error, render_user_error, respond, respond_error, Dispatch, ExecutionResponse,
    Params,
};
use podcore::graphql::operations::podcast_objects;
use podcore::model::Account;
use podcore::server::{Rendering, Request, Response};

fn request(query: &[(&str, &str)]) -> Request {
    Request {
        api_account: None,
        session_account: None,
        query: query.iter().map(|(name, value)| (name.to_string(), value.to_string())).collect(),
        path: Vec::new(),
        assets_version: "1".to_string(),
    }
}

fn authenticated(query: &[(&str, &str)]) -> Request {
    Request { session_account: Some(Account { id: 1 }), ..request(query) }
}

fn read_body_json(response: &Response) -> serde_json::Value {
    serde_json::from_str(&response.body).unwrap()
}

fn errors_document(message: &str) -> serde_json::Value {
    let mut error = serde_json::Map::new();
    error.insert("message".to_string(), serde_json::Value::String(message.to_string()));
    let mut document = serde_json::Map::new();
    document.insert(
        "errors".to_string(),
        serde_json::Value::Array(vec![serde_json::Value::Object(error)]),
    );
    serde_json::Value::Object(document)
}

fn podcasts_document(podcasts: Vec<serde_json::Value>) -> serde_json::Value {
    let mut data = serde_json::Map::new();
    data.insert("podcast".to_string(), serde_json::Value::Array(podcasts));
    let mut document = serde_json::Map::new();
    document.insert("data".to_string(), serde_json::Value::Object(data));
    serde_json::Value::Object(document)
}

// Stands in for the worker on an empty catalog: it answers the one query that
// these tests send with the podcasts it has, which are none.
fn answer_on_empty_catalog(params: &Params) -> Result<ExecutionResponse, Error> {
    assert_eq!("{podcast{id}}", params.query);
    let objects = podcast_objects(&Vec::new());
    let podcasts = objects
        .iter()
        .map(|object| {
            let mut fields = serde_json::Map::new();
            fields.insert("id".to_string(), serde_json::Value::String(object.id.clone()));
            serde_json::Value::Object(fields)
        })
        .collect();
    Ok(ExecutionResponse {
        json: serde_json::to_string_pretty(&podcasts_document(podcasts)).unwrap(),
        ok: true,
    })
}

fn serve(dispatch: Dispatch) -> Response {
    match dispatch {
        Dispatch::Submit(message) => respond(answer_on_empty_catalog(&message.params)).response,
        Dispatch::Respond(rendering) => rendering.response,
    }
}

#[test]
fn test_graphql_handlers_graphql_get_ok() {
    let req = authenticated(&[("query", "{podcast{id}}")]);
    let resp = serve(graphql_get(&req));

    assert_eq!(200, resp.status);
    let value = read_body_json(&resp);
    assert_eq!(podcasts_document(Vec::new()), value);
}

#[test]
fn test_graphql_handlers_graphql_get_no_query() {
    let req = authenticated(&[]);
    let resp = serve(graphql_get(&req));

    assert_eq!(400, resp.status);
    let value = read_body_json(&resp);
    assert_eq!(errors_document("Bad request: No query provided"), value);
}

#[test]
fn test_graphql_handlers_graphql_post_ok() {
    let req = authenticated(&[]);
    let graphql_req = juniper::http::GraphQLRequest::<juniper::DefaultScalarValue>::new(
        "{podcast{id}}".to_owned(),
        None,
        None,
    );
    let body = serde_json::to_string(&graphql_req).unwrap();
    let resp = serve(graphql_post(&req, body.as_bytes()));

    assert_eq!(200, resp.status);
    let value = read_body_json(&resp);
    assert_eq!(podcasts_document(Vec::new()), value);
}

#[test]
fn test_graphql_handlers_graphql_post_no_query() {
    let req = authenticated(&[]);
    let resp = serve(graphql_post(&req, b""));

    assert_eq!(400, resp.status);
    let value = read_body_json(&resp);
    assert_eq!(
        errors_document(
            &[
                "Bad request: Error deserializing request body: ",
                "EOF while parsing a value at line 1 column 0"
            ]
            .concat()
        ),
        value
    );
}

#[test]
fn test_graphql_handlers_graphiql_get_ok() {
    let resp = graphiql_get(&request(&[]));
    assert_eq!(200, resp.status);
}

#[test]
fn test_graphql_handlers_graphiql_page() {
    let resp = graphiql_get(&request(&[]));
    assert_eq!(Some("text/html; charset=utf-8".to_string()), resp.content_type);
    assert_eq!(None, resp.location);
    assert_eq!(juniper::http::graphiql::graphiql_source("/graphql", None), resp.body);
    assert_ne!("/graphql", resp.body);
    assert!(resp.body.contains("const JUNIPER_URL = '/graphql';"));
}

#[test]
fn test_graphql_handlers_get_unauthenticated() {
    // Whatever the request holds, it reaches no worker.
    for query in [
        &[][..],
        &[("query", "{podcast{id}}")][..],
        &[("query", "{podcast{id}}"), ("variables", "{")][..],
    ] {
        match graphql_get(&request(query)) {
            Dispatch::Respond(rendering) => {
                assert_eq!(401, rendering.response.status);
                assert_eq!(errors_document("Unauthorized"), read_body_json(&rendering.response));
                assert_eq!(None, rendering.log);
            }
            Dispatch::Submit(_) => panic!("an unauthenticated request was dispatched"),
        }
    }
}

#[test]
fn test_graphql_handlers_post_unauthenticated() {
    for body in [&b""[..], &br#"{"query":"{podcast{id}}"}"#[..]] {
        match graphql_post(&request(&[]), body) {
            Dispatch::Respond(rendering) => {
                assert_eq!(401, rendering.response.status);
                assert_eq!(errors_document("Unauthorized"), read_body_json(&rendering.response));
            }
            Dispatch::Submit(_) => panic!("an unauthenticated request was dispatched"),
        }
    }
}

#[test]
fn test_graphql_handlers_error_body_is_pretty() {
    let resp = serve(graphql_get(&authenticated(&[])));
    assert_eq!(Some("application/json; charset=utf-8".to_string()), resp.content_type);
    assert_eq!(
        "{\n  \"errors\": [\n    {\n      \"message\": \"Bad request: No query provided\"\n    }\n  ]\n}",
        resp.body
    );
    assert_eq!(
        serde_json::to_string_pretty(&errors_document("Bad request: No query provided")).unwrap(),
        resp.body
    );
}

#[test]
fn test_graphql_handlers_build_from_get() {
    let req = Request {
        api_account: Some(Account { id: 5 }),
        ..request(&[
            ("query", "query Q($n: Int) { podcast { id } }"),
            ("operationName", "Q"),
            ("variables", r#"{"n": 1}"#),
        ])
    };
    let params = Params::build_from_get(&req).unwrap();
    assert_eq!(Account { id: 5 }, params.account);
    assert_eq!("query Q($n: Int) { podcast { id } }", params.query);
    assert_eq!(Some("Q".to_string()), params.operation_name);
    let expected: juniper::InputValue = serde_json::from_str(r#"{"n": 1}"#).unwrap();
    assert_eq!(Some(expected), params.variables);
    assert_eq!(r#"{"n":1}"#, serde_json::to_string(&params.variables.unwrap()).unwrap());
}

#[test]
fn test_graphql_handlers_build_from_get_without_options() {
    let params = Params::build_from_get(&authenticated(&[("query", "{podcast{id}}")])).unwrap();
    assert_eq!(Account { id: 1 }, params.account);
    assert_eq!("{podcast{id}}", params.query);
    assert_eq!(None, params.operation_name);
    assert_eq!(None, params.variables);
}

#[test]
fn test_graphql_handlers_build_from_get_takes_the_last_field() {
    let req = authenticated(&[("query", "{first}"), ("other", "x"), ("query", "{second}")]);
    assert_eq!("{second}", Params::build_from_get(&req).unwrap().query);
}

#[test]
fn test_graphql_handlers_build_from_get_malformed_variables() {
    let req = authenticated(&[("query", "{podcast{id}}"), ("variables", "{")]);
    let error = Params::build_from_get(&req).unwrap_err();
    assert_eq!(
        Error {
            kind: ErrorKind::BadRequest(
                "Malformed variables JSON: EOF while parsing an object at line 1 column 1"
                    .to_string()
            ),
            context: Vec::new(),
        },
        error
    );

    let resp = serve(graphql_get(&req));
    assert_eq!(400, resp.status);
    assert_eq!(
        errors_document(
            "Bad request: Malformed variables JSON: EOF while parsing an object at line 1 column 1"
        ),
        read_body_json(&resp)
    );
}

#[test]
fn test_graphql_handlers_build_from_get_checks_in_order() {
    // No principal counts before no query, and no query before bad variables.
    let error = Params::build_from_get(&request(&[("variables", "{")])).unwrap_err();
    assert_eq!(ErrorKind::Unauthorized, error.kind);
    let error = Params::build_from_get(&authenticated(&[("variables", "{")])).unwrap_err();
    assert_eq!(ErrorKind::BadRequest("No query provided".to_string()), error.kind);
}

#[test]
fn test_graphql_handlers_build_from_post() {
    let req = authenticated(&[]);
    let body = br#"{"query": "{podcast{id}}", "operationName": "Q", "variables": {"a": [true]}}"#;
    let params = Params::build_from_post(&req, body).unwrap();
    assert_eq!(Account { id: 1 }, params.account);
    assert_eq!("{podcast{id}}", params.query);
    assert_eq!(Some("Q".to_string()), params.operation_name);
    assert_eq!(r#"{"a":[true]}"#, serde_json::to_string(&params.variables.unwrap()).unwrap());

    let params = Params::build_from_post(&req, br#"{"query": "{podcast{id}}"}"#).unwrap();
    assert_eq!(None, params.operation_name);
    assert_eq!(None, params.variables);
}

#[test]
fn test_graphql_handlers_build_from_post_without_query() {
    let error = Params::build_from_post(&authenticated(&[]), b"{}").unwrap_err();
    assert_eq!(
        ErrorKind::BadRequest(
            "Error deserializing request body: missing field `query` at line 1 column 2"
                .to_string()
        ),
        error.kind
    );
}

#[test]
fn test_graphql_handlers_from_parts() {
    let account = Some(Account { id: 2 });
    let built = Params::from_get_parts(account, Some("{a}".to_string()), None, None).unwrap();
    assert_eq!("{a}", built.query);
    assert_eq!(None, built.variables);

    let error = Params::from_get_parts(
        account,
        Some("{a}".to_string()),
        None,
        Some(Err("broken".to_string())),
    )
    .unwrap_err();
    assert_eq!(ErrorKind::BadRequest("Malformed variables JSON: broken".to_string()), error.kind);

    let error = Params::from_get_parts(None, Some("{a}".to_string()), None, None).unwrap_err();
    assert_eq!(ErrorKind::Unauthorized, error.kind);

    let error = Params::from_post_parts(account, Err("broken".to_string())).unwrap_err();
    assert_eq!(
        ErrorKind::BadRequest("Error deserializing request body: broken".to_string()),
        error.kind
    );
    let error = Params::from_post_parts(None, Ok(("{a}".to_string(), None, None))).unwrap_err();
    assert_eq!(ErrorKind::Unauthorized, error.kind);
    let built = Params::from_post_parts(
        account,
        Ok(("{a}".to_string(), Some("A".to_string()), Some(juniper::InputValue::Null))),
    )
    .unwrap();
    assert_eq!(Some("A".to_string()), built.operation_name);
    assert_eq!(Some(juniper::InputValue::Null), built.variables);
}

#[test]
fn test_graphql_handlers_respond_to_an_answer() {
    let answer = ExecutionResponse { json: "{\"data\":null}".to_string(), ok: true };
    assert_eq!(
        Rendering {
            response: Response {
                status: 200,
                content_type: Some("application/json; charset=utf-8".to_string()),
                location: None,
                body: "{\"data\":null}".to_string(),
            },
            log: None,
        },
        respond(Ok(answer))
    );

    // An execution that met errors is a bad request, with its document as the body.
    let answer = ExecutionResponse { json: "{\"errors\":[]}".to_string(), ok: false };
    let rendering = respond(Ok(answer));
    assert_eq!(400, rendering.response.status);
    assert_eq!("{\"errors\":[]}", rendering.response.body);
    assert_eq!(None, rendering.log);
}

#[test]
fn test_graphql_handlers_respond_to_user_errors() {
    let cases = [
        (ErrorKind::BadRequest("x".to_string()), 400, "Bad request: x"),
        (
            ErrorKind::BadParameter("id".to_string(), "not a number".to_string()),
            400,
            "Bad value for parameter id: not a number",
        ),
        (ErrorKind::NotFound("podcast".to_string(), 7), 404, "Resource not found: podcast ID 7"),
        (ErrorKind::NotFoundGeneral("nothing here".to_string()), 404, "Not found: nothing here"),
        (ErrorKind::Unauthorized, 401, "Unauthorized"),
    ];
    for (kind, status, message) in cases {
        let rendering = respond(Err(Error::new(kind).chain_err("Error on the way")));
        assert_eq!(status, rendering.response.status);
        assert_eq!(errors_document(message), read_body_json(&rendering.response));
        assert_eq!(None, rendering.log);
    }
}

#[test]
fn test_graphql_handlers_respond_to_an_internal_error() {
    let error = Error::internal("connection refused").chain_err("Error loading podcasts");
    let rendering = respond(Err(error.clone()));
    assert_eq!(500, rendering.response.status);
    assert_eq!(errors_document("Internal server error"), read_body_json(&rendering.response));
    assert!(!rendering.response.body.contains("connection refused"));
    assert_eq!(Some("Error loading podcasts: connection refused".to_string()), rendering.log);
    assert_eq!(rendering, respond_error(error));
}

#[test]
fn test_graphql_handlers_messages_are_encoded() {
    let message = "a \"quoted\" \\ text\nwith a line feed and \u{1} and é";
    let resp = render_user_error(400, message.to_string()).unwrap();
    assert_eq!(400, resp.status);
    assert_eq!(errors_document(message), read_body_json(&resp));
    assert!(resp.body.contains(r#""a \"quoted\" \\ text\nwith a line feed and \u0001 and é""#));

    let resp = render_internal_error(500, message.to_string());
    assert_eq!(500, resp.status);
    assert_eq!(errors_document(message), read_body_json(&resp));
}

#[test]
fn test_graphql_handlers_responses_from_documents() {
    let resp = errors_response(404, Some("{\"errors\":[]}".to_string())).unwrap();
    assert_eq!(404, resp.status);
    assert_eq!(Some("application/json; charset=utf-8".to_string()), resp.content_type);
    assert_eq!("{\"errors\":[]}", resp.body);
    assert_eq!(
        Err(Error::internal("Error encoding the error message")),
        errors_response(404, None)
    );

    let resp = internal_response(500, Some("{\"errors\":[]}".to_string()));
    assert_eq!("{\"errors\":[]}", resp.body);
    let resp = internal_response(500, None);
    assert_eq!(500, resp.status);
    assert_eq!(errors_document("Internal server error"), read_body_json(&resp));
}

#[test]
fn test_graphql_handlers_variables_come_from_their_field() {
    // Every field holds valid JSON; the variables are those of `variables`.
    let req = authenticated(&[
        ("query", "\"q\""),
        ("operationName", "[1]"),
        ("variables", r#"{"from": "variables"}"#),
    ]);
    let params = Params::build_from_get(&req).unwrap();
    let expected: juniper::InputValue = serde_json::from_str(r#"{"from": "variables"}"#).unwrap();
    assert_eq!(Some(expected.clone()), params.variables);
    match graphql_get(&req) {
        Dispatch::Submit(message) => assert_eq!(Some(expected), message.params.variables),
        Dispatch::Respond(_) => panic!("the request was not dispatched"),
    }
}

#[test]
fn test_graphql_handlers_post_variables_come_from_the_body() {
    let req = authenticated(&[("variables", r#"{"from": "the query string"}"#)]);
    let body = br#"{"query": "{\"from\": \"the query\"}", "variables": {"from": "the body"}}"#;
    let expected: juniper::InputValue = serde_json::from_str(r#"{"from": "the body"}"#).unwrap();
    let params = Params::build_from_post(&req, body).unwrap();
    assert_eq!(Some(expected.clone()), params.variables);
    assert_eq!(r#"{"from": "the query"}"#, params.query);
    match graphql_post(&req, body) {
        Dispatch::Submit(message) => assert_eq!(Some(expected), message.params.variables),
        Dispatch::Respond(_) => panic!("the request was not dispatched"),
    }
}
