//! Expands a podcast of an outside directory by its id and sends the caller
//! on to the podcast's own page.

use vstd::prelude::*;
use vstd::string::*;

use crate::errors::{parse_id, unreadable_id, Error, ErrorKindView, ErrorView};
use crate::model::{DirectoryPodcastException, Podcast};
use crate::server::{field, lookup, Request, RequestView, Response, ResponseView, PERMANENT_REDIRECT};
use crate::text::{parsed_decimal, push_signed_decimal, signed_decimal};
use crate::web::endpoints;
use crate::web::endpoints::{not_found_response, CommonViewModel};

verus! {

/// What the expansion of a directory podcast came to.
#[derive(Debug, Clone, PartialEq, Eq)]
pub enum ExecutorResponse {
    /// The expansion failed, and the failure was recorded.
    Exception(DirectoryPodcastException),
    /// There is no directory podcast of this id.
    NotFound,
    /// The podcast that the directory podcast was expanded to.
    Podcast(Podcast),
}

impl endpoints::ExecutorResponse for ExecutorResponse {

}

/// What an expansion leaves behind: the recorded failure, or the podcast.
#[derive(Debug, Clone, PartialEq, Eq)]
pub struct Expansion {
    pub dir_podcast_ex: Option<DirectoryPodcastException>,
    pub podcast: Option<Podcast>,
}

impl ExecutorResponse {
    /// The answer of the worker. `found` is `None` where no directory
    /// podcast has the id, and else what its expansion left behind: a
    /// recorded failure counts before a podcast.
    pub fn from_expansion(found: Option<Expansion>) -> (response: ExecutorResponse)
        requires
            found matches Some(expansion) ==> expansion.dir_podcast_ex is Some
                || expansion.podcast is Some,
        ensures
            response == match found {
                None => ExecutorResponse::NotFound,
                Some(Expansion { dir_podcast_ex: Some(exception), .. }) => ExecutorResponse::Exception(
                    exception,
                ),
                Some(Expansion { dir_podcast_ex: None, podcast }) => ExecutorResponse::Podcast(
                    podcast->0,
                ),
            },
    {
        match found {
            None => ExecutorResponse::NotFound,
            Some(expansion) => match expansion.dir_podcast_ex {
                Some(exception) => ExecutorResponse::Exception(exception),
                None => ExecutorResponse::Podcast(expansion.podcast.unwrap()),
            },
        }
    }
}

/// The parameters of the endpoint: the id of the directory podcast.
#[derive(Debug, Clone, Copy, PartialEq, Eq)]
pub struct Params {
    pub id: i64,
}

/// The error of a request whose path holds no id.
pub open spec fn missing_id() -> ErrorView {
    ErrorView::plain(ErrorKindView::Internal("No ID in the path"@)).chained("Error parsing ID"@)
}

/// The parameters that a request gives: the path parameter `id`, read as a
/// 64-bit integer.
pub open spec fn params_of(req: RequestView) -> Result<Params, ErrorView> {
    match lookup(req.path, "id"@) {
        None => Err(missing_id()),
        Some(text) => match parsed_decimal(text) {
            Some(id) => Ok(Params { id: id as i64 }),
            None => Err(unreadable_id(text, "Error parsing ID"@)),
        },
    }
}

impl endpoints::Params for Params {
    fn build(req: &Request) -> (built: Result<Params, Error>)
        ensures
            match built {
                Ok(params) => params_of(req@) == Ok::<Params, ErrorView>(params),
                Err(error) => params_of(req@) == Err::<Params, ErrorView>(error@),
            },
    {
        match field(&req.path, "id") {
            None => Err(Error::internal("No ID in the path").chain_err("Error parsing ID")),
            Some(text) => match parse_id(text.as_str(), "Error parsing ID") {
                Ok(id) => Ok(Params { id }),
                Err(error) => Err(error),
            },
        }
    }
}

/// The view model of the endpoint.
#[derive(Debug, Clone, PartialEq, Eq)]
pub struct ViewModel {
    pub common: CommonViewModel,
    pub response: ExecutorResponse,
}

/// The redirect to the page of the podcast with the given id.
pub open spec fn redirect_to_podcast(id: int) -> ResponseView {
    ResponseView {
        status: PERMANENT_REDIRECT,
        content_type: None,
        location: Some("/podcasts/"@ + signed_decimal(id)),
        body: Seq::empty(),
    }
}

/// The error of an expansion that failed.
pub open spec fn expansion_failed() -> ErrorView {
    ErrorView::plain(ErrorKindView::Internal("Couldn't expand directory podcast"@))
}

impl endpoints::ViewModel for ViewModel {
    type ExecutorResponse = ExecutorResponse;

    fn build(req: &Request, response: ExecutorResponse) -> (view_model: ViewModel)
        ensures
            view_model.common@ == CommonViewModel::of_request(req@),
            view_model.response == response,
    {
        ViewModel { common: CommonViewModel::build(req), response }
    }

    /// A recorded failure is an error. A directory podcast that does not
    /// exist is answered as not found. A podcast sends the caller on to its
    /// page.
    fn render(&self, req: &Request) -> (rendered: Result<Response, Error>)
        ensures
            match self.response {
                ExecutorResponse::Exception(_) => rendered matches Err(error) && error@
                    == expansion_failed(),
                ExecutorResponse::NotFound => rendered matches Ok(response) && response@
                    == not_found_response(),
                ExecutorResponse::Podcast(podcast) => rendered matches Ok(response) && response@
                    == redirect_to_podcast(podcast.id as int),
            },
    {
        match &self.response {
            ExecutorResponse::Exception(_) => Err(
                Error::internal("Couldn't expand directory podcast"),
            ),
            ExecutorResponse::NotFound => endpoints::handle_404(),
            ExecutorResponse::Podcast(podcast) => {
                let mut location = String::from_str("/podcasts/");
                push_signed_decimal(&mut location, podcast.id);
                Ok(
                    Response {
                        status: PERMANENT_REDIRECT,
                        content_type: None,
                        location: Some(location),
                        body: String::new(),
                    },
                )
            },
        }
    }
}

} // verus!
