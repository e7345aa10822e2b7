use podcore::errors::{Error, ErrorKind};
use podcore::model::Account;
use podcore::server::{
    account, field, render_error, worker_reply, Message, Rendering, Request, BAD_REQUEST,
    INTERNAL_SERVER_ERROR, NOT_FOUND, OK, PERMANENT_REDIRECT, UNAUTHORIZED,
};

fn request(api: Option<i64>, session: Option<i64>) -> Request {
    Request {
        api_account: api.map(|id| Account { id }),
        session_account: session.map(|id| Account { id }),
        query: Vec::new(),
        path: Vec::new(),
        assets_version: "1".to_string(),
    }
}

fn pairs(fields: &[(&str, &str)]) -> Vec<(String, String)> {
    fields.iter().map(|(name, value)| (name.to_string(), value.to_string())).collect()
}

#[test]
fn test_status_codes() {
    assert_eq!(200, OK);
    assert_eq!(308, PERMANENT_REDIRECT);
    assert_eq!(400, BAD_REQUEST);
    assert_eq!(401, UNAUTHORIZED);
    assert_eq!(404, NOT_FOUND);
    assert_eq!(500, INTERNAL_SERVER_ERROR);
}

#[test]
fn test_account_tries_the_authenticators_in_order() {
    assert_eq!(None, account(&request(None, None)));
    assert_eq!(Some(Account { id: 1 }), account(&request(Some(1), None)));
    assert_eq!(Some(Account { id: 2 }), account(&request(None, Some(2))));
    assert_eq!(Some(Account { id: 1 }), account(&request(Some(1), Some(2))));
}

#[test]
fn test_field() {
    let fields = pairs(&[("a", "1"), ("b", "2"), ("a", "3"), ("", "4")]);
    assert_eq!(Some(&"3".to_string()), field(&fields, "a"));
    assert_eq!(Some(&"2".to_string()), field(&fields, "b"));
    assert_eq!(Some(&"4".to_string()), field(&fields, ""));
    assert_eq!(None, field(&fields, "c"));
    assert_eq!(None, field(&fields, "A"));
    assert_eq!(None, field(&Vec::new(), "a"));
}

#[test]
fn test_message_new() {
    let message = Message::new(17u8);
    assert_eq!(17, message.params);
    assert_eq!(Message { params: "p".to_string() }, Message::new("p".to_string()));
}

fn render_user(status: u16, message: String) -> Result<String, Error> {
    Ok(format!("user {} {}", status, message))
}

fn render_internal(status: u16, message: String) -> String {
    format!("internal {} {}", status, message)
}

#[test]
fn test_render_error_user_errors() {
    let cases = [
        (
            ErrorKind::BadParameter("id".to_string(), "negative".to_string()),
            "user 400 Bad value for parameter id: negative",
        ),
        (ErrorKind::BadRequest("No query provided".to_string()), "user 400 Bad request: No query provided"),
        (ErrorKind::NotFound("podcast".to_string(), 9), "user 404 Resource not found: podcast ID 9"),
        (ErrorKind::NotFoundGeneral("nothing".to_string()), "user 404 Not found: nothing"),
        (ErrorKind::Unauthorized, "user 401 Unauthorized"),
    ];
    for (kind, expected) in cases {
        let error = Error::new(kind).chain_err("Error building parameters");
        assert_eq!(
            Rendering { response: expected.to_string(), log: None },
            render_error(error, render_internal, render_user)
        );
    }
}

#[test]
fn test_render_error_internal_errors() {
    let error = Error::internal("password=hunter2").chain_err("Error connecting");
    let rendering = render_error(error, render_internal, render_user);
    // The client is shown the generic message; the account goes to the log.
    assert_eq!("internal 500 Internal server error", rendering.response);
    assert_eq!(Some("Error connecting: password=hunter2".to_string()), rendering.log);
}

#[test]
fn test_render_error_falls_back_where_the_user_rendering_fails() {
    let failing = |_status: u16, message: String| -> Result<String, Error> {
        Err(Error::internal("template broken").chain_err(&format!("Error rendering {}", message)))
    };
    let rendering = render_error(Error::new(ErrorKind::Unauthorized), render_internal, failing);
    assert_eq!("internal 500 Internal server error", rendering.response);
    assert_eq!(Some("Error rendering Unauthorized: template broken".to_string()), rendering.log);
}

#[test]
fn test_render_error_calls_one_renderer() {
    let user_calls = std::cell::Cell::new(0);
    let internal_calls = std::cell::Cell::new(0);
    let rendering = render_error(
        Error::internal("boom"),
        |status: u16, _message: String| {
            internal_calls.set(internal_calls.get() + 1);
            status
        },
        |status: u16, _message: String| {
            user_calls.set(user_calls.get() + 1);
            Ok(status)
        },
    );
    assert_eq!(500, rendering.response);
    assert_eq!((0, 1), (user_calls.get(), internal_calls.get()));

    let rendering = render_error(
        Error::new(ErrorKind::BadRequest("x".to_string())),
        |status: u16, _message: String| {
            internal_calls.set(internal_calls.get() + 1);
            status
        },
        |status: u16, _message: String| {
            user_calls.set(user_calls.get() + 1);
            Ok(status)
        },
    );
    assert_eq!(400, rendering.response);
    assert_eq!((1, 1), (user_calls.get(), internal_calls.get()));
}

#[test]
fn test_worker_reply() {
    assert_eq!(Ok(3), worker_reply(Some(Ok(3))));
    let error = Error::new(ErrorKind::NotFound("podcast".to_string(), 1));
    assert_eq!(Err(error.clone()), worker_reply::<u8>(Some(Err(error))));
    // A severed channel is an internal error.
    let reply = worker_reply::<u8>(None);
    assert_eq!(Err(Error::internal("Future canceled")), reply);
    assert_eq!(None, reply.unwrap_err().user_status());
}
