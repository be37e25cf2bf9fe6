//! The decoded input document, and the dispatcher that validates it and
//! builds the request for the chosen action.
use vstd::prelude::*;
use crate::action::{opt_view, requested_action, Action};
use crate::options::{FindSimilarOptions, GetContentsOptions, SearchOptions};
use crate::params::ContentsInput;
use crate::resolve::{
    fetch_contents, resolve_contents, resolve_fetch_contents, search_contents,
};

verus! {

/// The input document, as decoded.
#[derive(Debug, Clone, PartialEq, Eq)]
pub struct Input {
    pub action: Option<String>,
    pub query: Option<String>,
    pub url: Option<String>,
    pub urls: Option<Vec<String>>,
    pub num_results: Option<u32>,
    pub search_type: Option<String>,
    pub category: Option<String>,
    pub include_domains: Option<Vec<String>>,
    pub exclude_domains: Option<Vec<String>>,
    pub start_crawl_date: Option<String>,
    pub end_crawl_date: Option<String>,
    pub start_published_date: Option<String>,
    pub end_published_date: Option<String>,
    pub include_text: Option<Vec<String>>,
    pub exclude_text: Option<Vec<String>>,
    pub use_autoprompt: Option<bool>,
    pub moderation: Option<bool>,
    pub user_location: Option<String>,
    pub additional_queries: Option<Vec<String>>,
    pub exclude_source_domain: Option<bool>,
    pub max_chars: Option<u32>,
    pub contents: Option<ContentsInput>,
}

/// Why an input document cannot be turned into a request.
#[derive(Debug, Clone, PartialEq, Eq)]
pub enum InputError {
    MissingQuery,
    MissingUrl,
    MissingUrls,
    UnknownAction(String),
}

/// The message that reports an input error.
pub open spec fn error_message(e: InputError) -> Seq<char> {
    match e {
        InputError::MissingQuery => "'query' is required for action 'search'"@,
        InputError::MissingUrl => "'url' is required for action 'find_similar'"@,
        InputError::MissingUrls => "'urls' (non-empty array) is required for action 'get_contents'"@,
        InputError::UnknownAction(s) => "Unknown action: "@ + s@,
    }
}

impl InputError {
    /// The message that reports this error.
    pub fn message(&self) -> (r: String)
        ensures
            r@ == error_message(*self),
    {
        match self {
            InputError::MissingQuery => String::from_str("'query' is required for action 'search'"),
            InputError::MissingUrl => String::from_str("'url' is required for action 'find_similar'"),
            InputError::MissingUrls => String::from_str(
                "'urls' (non-empty array) is required for action 'get_contents'",
            ),
            InputError::UnknownAction(s) => String::from_str("Unknown action: ").concat(s.as_str()),
        }
    }
}

/// A request for one of the three operations.
#[derive(Debug, Clone, PartialEq, Eq)]
pub enum Request {
    Search(SearchOptions),
    FindSimilar(FindSimilarOptions),
    GetContents(GetContentsOptions),
}

/// The search request that an input stands for, given its query.
pub open spec fn search_request(input: Input, query: String) -> SearchOptions {
    SearchOptions {
        query: query,
        num_results: input.num_results,
        search_type: input.search_type,
        category: input.category,
        include_domains: input.include_domains,
        exclude_domains: input.exclude_domains,
        start_crawl_date: input.start_crawl_date,
        end_crawl_date: input.end_crawl_date,
        start_published_date: input.start_published_date,
        end_published_date: input.end_published_date,
        include_text: input.include_text,
        exclude_text: input.exclude_text,
        use_autoprompt: input.use_autoprompt,
        moderation: input.moderation,
        user_location: input.user_location,
        additional_queries: input.additional_queries,
        contents: Some(search_contents(input.contents, input.max_chars)),
    }
}

/// The find-similar request that an input stands for, given its URL.
pub open spec fn find_similar_request(input: Input, url: String) -> FindSimilarOptions {
    FindSimilarOptions {
        url: url,
        num_results: input.num_results,
        include_domains: input.include_domains,
        exclude_domains: input.exclude_domains,
        start_crawl_date: input.start_crawl_date,
        end_crawl_date: input.end_crawl_date,
        start_published_date: input.start_published_date,
        end_published_date: input.end_published_date,
        include_text: input.include_text,
        exclude_text: input.exclude_text,
        exclude_source_domain: input.exclude_source_domain,
        category: input.category,
        contents: Some(search_contents(input.contents, input.max_chars)),
    }
}

/// The get-contents request that an input stands for, given its URLs.
pub open spec fn get_contents_request(input: Input, urls: Vec<String>) -> GetContentsOptions {
    let c = fetch_contents(input.contents, input.max_chars);
    GetContentsOptions {
        urls: urls,
        text: c.text,
        summary: c.summary,
        highlights: c.highlights,
        livecrawl: c.livecrawl,
        livecrawl_timeout: c.livecrawl_timeout,
        max_age_hours: c.max_age_hours,
        filter_empty_results: c.filter_empty_results,
        subpages: c.subpages,
        subpage_target: c.subpage_target,
        extras: c.extras,
    }
}

/// What an input document resolves to: the request for its action, or the
/// first reason it has none. The action's required field is checked before
/// anything else is read.
pub open spec fn dispatch(input: Input) -> Result<Request, InputError> {
    match requested_action(opt_view(input.action)) {
        None => Err(InputError::UnknownAction(input.action.unwrap())),
        Some(Action::Search) => match input.query {
            Some(q) => Ok(Request::Search(search_request(input, q))),
            None => Err(InputError::MissingQuery),
        },
        Some(Action::FindSimilar) => match input.url {
            Some(u) => Ok(Request::FindSimilar(find_similar_request(input, u))),
            None => Err(InputError::MissingUrl),
        },
        Some(Action::GetContents) => match input.urls {
            Some(us) => if us@.len() > 0 {
                Ok(Request::GetContents(get_contents_request(input, us)))
            } else {
                Err(InputError::MissingUrls)
            },
            None => Err(InputError::MissingUrls),
        },
    }
}

/// Builds the search request; the caller has checked the query.
fn build_search(input: Input, query: String) -> (r: SearchOptions)
    ensures
        r == search_request(input, query),
{
    let contents = Some(resolve_contents(input.contents, input.max_chars));
    SearchOptions {
        query,
        num_results: input.num_results,
        search_type: input.search_type,
        category: input.category,
        include_domains: input.include_domains,
        exclude_domains: input.exclude_domains,
        start_crawl_date: input.start_crawl_date,
        end_crawl_date: input.end_crawl_date,
        start_published_date: input.start_published_date,
        end_published_date: input.end_published_date,
        include_text: input.include_text,
        exclude_text: input.exclude_text,
        use_autoprompt: input.use_autoprompt,
        moderation: input.moderation,
        user_location: input.user_location,
        additional_queries: input.additional_queries,
        contents,
    }
}

/// Builds the find-similar request; the caller has checked the URL.
fn build_find_similar(input: Input, url: String) -> (r: FindSimilarOptions)
    ensures
        r == find_similar_request(input, url),
{
    let contents = Some(resolve_contents(input.contents, input.max_chars));
    FindSimilarOptions {
        url,
        num_results: input.num_results,
        include_domains: input.include_domains,
        exclude_domains: input.exclude_domains,
        start_crawl_date: input.start_crawl_date,
        end_crawl_date: input.end_crawl_date,
        start_published_date: input.start_published_date,
        end_published_date: input.end_published_date,
        include_text: input.include_text,
        exclude_text: input.exclude_text,
        exclude_source_domain: input.exclude_source_domain,
        category: input.category,
        contents,
    }
}

/// Builds the get-contents request; the caller has checked the URLs.
fn build_get_contents(input: Input, urls: Vec<String>) -> (r: GetContentsOptions)
    ensures
        r == get_contents_request(input, urls),
{
    let c = resolve_fetch_contents(input.contents, input.max_chars);
    GetContentsOptions {
        urls,
        text: c.text,
        summary: c.summary,
        highlights: c.highlights,
        livecrawl: c.livecrawl,
        livecrawl_timeout: c.livecrawl_timeout,
        max_age_hours: c.max_age_hours,
        filter_empty_results: c.filter_empty_results,
        subpages: c.subpages,
        subpage_target: c.subpage_target,
        extras: c.extras,
    }
}

impl Request {
    /// The action that this request is for.
    pub fn action(&self) -> (r: Action)
        ensures
            r == match *self {
                Request::Search(_) => Action::Search,
                Request::FindSimilar(_) => Action::FindSimilar,
                Request::GetContents(_) => Action::GetContents,
            },
    {
        match self {
            Request::Search(_) => Action::Search,
            Request::FindSimilar(_) => Action::FindSimilar,
            Request::GetContents(_) => Action::GetContents,
        }
    }
}

impl Input {
    /// The action that this input asks for, `search` when none is named.
    pub fn action(&self) -> (r: Option<Action>)
        ensures
            r == requested_action(opt_view(self.action)),
    {
        Action::from_field(&self.action)
    }

    /// Validates this input for its action and builds the request.
    pub fn into_request(self) -> (r: Result<Request, InputError>)
        ensures
            r == dispatch(self),
    {
        let action = Action::from_field(&self.action);
        let mut input = self;
        match action {
            None => match input.action.take() {
                Some(a) => Err(InputError::UnknownAction(a)),
                None => Err(InputError::UnknownAction(String::new())),
            },
            Some(Action::Search) => match input.query.take() {
                Some(q) => Ok(Request::Search(build_search(input, q))),
                None => Err(InputError::MissingQuery),
            },
            Some(Action::FindSimilar) => match input.url.take() {
                Some(u) => Ok(Request::FindSimilar(build_find_similar(input, u))),
                None => Err(InputError::MissingUrl),
            },
            Some(Action::GetContents) => match input.urls.take() {
                Some(us) => {
                    if us.len() > 0 {
                        Ok(Request::GetContents(build_get_contents(input, us)))
                    } else {
                        Err(InputError::MissingUrls)
                    }
                },
                None => Err(InputError::MissingUrls),
            },
        }
    }
}

/// An input that lacks the field its action requires is answered with the
/// error for that field, whose message names the field and the action.
pub proof fn lemma_missing_field_errors(input: Input)
    ensures
        requested_action(opt_view(input.action)) == Some(Action::Search) && input.query is None
            ==> (dispatch(input) == Err::<Request, InputError>(InputError::MissingQuery)
            && error_message(InputError::MissingQuery) == "'query' is required for action 'search'"@),
        requested_action(opt_view(input.action)) == Some(Action::FindSimilar) && input.url is None
            ==> (dispatch(input) == Err::<Request, InputError>(InputError::MissingUrl)
            && error_message(InputError::MissingUrl) == "'url' is required for action 'find_similar'"@),
        requested_action(opt_view(input.action)) == Some(Action::GetContents)
            && (input.urls is None || input.urls.unwrap()@.len() == 0)
            ==> (dispatch(input) == Err::<Request, InputError>(InputError::MissingUrls)
            && error_message(InputError::MissingUrls) == "'urls' (non-empty array) is required for action 'get_contents'"@),
{
}

/// An input without an `action` field is handled as a search: it becomes a
/// search request, or fails for want of a query.
pub proof fn lemma_absent_action_searches(input: Input)
    requires
        input.action is None,
    ensures
        input.query matches Some(q) ==> dispatch(input) == Ok::<Request, InputError>(
            Request::Search(search_request(input, q)),
        ),
        input.query is None ==> dispatch(input) == Err::<Request, InputError>(InputError::MissingQuery),
{
}

} // verus!
