//! What every endpoint of the pages is made of: parameters decoded from the
//! request, a response from a worker, and a view model that renders it.

use vstd::prelude::*;
use vstd::string::*;

use crate::errors::{Error, ErrorView};
use crate::model::Account;
use crate::server::{
    account, canceled, worker_reply, Request, RequestView, Response, ResponseView, NOT_FOUND,
};

pub use crate::server::Message;
pub use crate::server::Params;

pub mod directory_podcast_show;

verus! {

/// The typed answer of a worker. It mostly holds what was loaded from the
/// store.
pub trait ExecutorResponse {

}

/// A model that holds all that a view needs. It wraps the answer of a
/// worker.
pub trait ViewModel: Sized {
    type ExecutorResponse: ExecutorResponse;

    /// Builds the view model from the request and the worker's answer.
    fn build(req: &Request, response: Self::ExecutorResponse) -> Self;

    /// Renders the view model into a response: a page, or anything else,
    /// such as a redirect.
    fn render(&self, req: &Request) -> Result<Response, Error>;
}

/// What every page shows.
#[derive(Debug, Clone, PartialEq, Eq)]
pub struct CommonViewModel {
    pub account: Option<Account>,
    pub assets_version: String,
    pub title: String,
}

/// The mathematical content of a [`CommonViewModel`].
pub struct CommonViewModelView {
    pub account: Option<Account>,
    pub assets_version: Seq<char>,
    pub title: Seq<char>,
}

impl View for CommonViewModel {
    type V = CommonViewModelView;

    open spec fn view(&self) -> CommonViewModelView {
        CommonViewModelView {
            account: self.account,
            assets_version: self.assets_version@,
            title: self.title@,
        }
    }
}

impl CommonViewModel {
    /// What a page without a title shows for a request: the principal and
    /// the version of the assets.
    pub open spec fn of_request(req: RequestView) -> CommonViewModelView {
        CommonViewModelView {
            account: req.account(),
            assets_version: req.assets_version,
            title: Seq::empty(),
        }
    }

    /// Builds the common part of a view model without a title.
    pub fn build(req: &Request) -> (common: CommonViewModel)
        ensures
            common@ == CommonViewModel::of_request(req@),
    {
        CommonViewModel {
            account: account(req),
            assets_version: req.assets_version.clone(),
            title: String::new(),
        }
    }
}

/// The answer to a request for what does not exist.
pub open spec fn not_found_response() -> ResponseView {
    ResponseView {
        status: NOT_FOUND,
        content_type: Some("text/html; charset=utf-8"@),
        location: None,
        body: "404!"@,
    }
}

/// Answers a request for what does not exist.
pub fn handle_404() -> (rendered: Result<Response, Error>)
    ensures
        rendered matches Ok(response) && response@ == not_found_response(),
{
    Ok(
        Response {
            status: NOT_FOUND,
            content_type: Some(String::from_str("text/html; charset=utf-8")),
            location: None,
            body: String::from_str("404!"),
        },
    )
}

/// Takes in a request for an endpoint: decodes its parameters and wraps them
/// for a worker, or hands on the error with which they were refused.
pub fn handler<P: Params>(req: &Request) -> (taken: Result<Message<P>, Error>)
    ensures
        exists|built: Result<P, Error>| #[trigger]
            call_ensures(P::build, (req,), built) && match built {
                Ok(params) => taken matches Ok(message) && message.params == params,
                Err(error) => taken == Err::<Message<P>, Error>(error),
            },
{
    match P::build(req) {
        Ok(params) => Ok(Message::new(params)),
        Err(error) => Err(error),
    }
}

/// The error of a request for a page whose worker was gone before it
/// answered.
pub open spec fn worker_gone() -> ErrorView {
    canceled().chained("Error from SyncExecutor"@)
}

/// What a submission for a page came to. `received` is the worker's answer,
/// or `None` where the channel to the workers was severed before one
/// answered. An error of the worker's own is handed on as it is.
pub fn executor_reply<T>(received: Option<Result<T, Error>>) -> (reply: Result<T, Error>)
    ensures
        match received {
            Some(answer) => reply == answer,
            None => reply matches Err(error) && error@ == worker_gone(),
        },
{
    match received {
        Some(answer) => answer,
        None => match worker_reply::<T>(None) {
            Ok(answer) => Ok(answer),
            Err(error) => Err(error.chain_err("Error from SyncExecutor")),
        },
    }
}

/// Renders what came back for a request: the error where there is one, and
/// else what the view model makes of the worker's answer.
pub fn render<VM: ViewModel>(req: &Request, reply: Result<VM::ExecutorResponse, Error>) -> (rendered:
    Result<Response, Error>)
    ensures
        match reply {
            Ok(response) => exists|view_model: VM| #[trigger]
                call_ensures(VM::build, (req, response), view_model) && call_ensures(
                    VM::render,
                    (&view_model, req),
                    rendered,
                ),
            Err(error) => rendered == Err::<Response, Error>(error),
        },
{
    match reply {
        Ok(response) => {
            let view_model = VM::build(req, response);
            view_model.render(req)
        },
        Err(error) => Err(error),
    }
}

} // verus!
