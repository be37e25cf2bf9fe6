//! The single output document of a run: a search success, a contents
//! success, or an error.
use vstd::prelude::*;
use crate::action::{action_name, Action};
use crate::format::{format_results, formatted, ResultHeading};
use crate::input::{error_message, InputError};

verus! {

/// The outcome of a run. `R` is a result record of the service and `M` the
/// response metadata that is passed through unchanged.
#[derive(Debug, Clone, PartialEq, Eq)]
pub enum Output<R, M> {
    SearchOk { action: String, results: Vec<R>, meta: M, formatted: String },
    ContentsOk { action: String, results: Vec<R>, meta: M },
    Error { error: String },
}

/// Everything that can make a run fail.
#[derive(Debug, Clone, PartialEq, Eq)]
pub enum Failure {
    /// The service key is absent or empty.
    MissingApiKey,
    /// Standard input could not be read; the reason.
    UnreadableInput(String),
    /// The input is not a valid document; the decoder's message.
    InvalidJson(String),
    /// The transport could not be set up; the reason.
    ClientSetup(String),
    /// The input does not describe a request.
    Input(InputError),
    /// The request for the action failed; the reason.
    Upstream(Action, String),
}

/// The prefix of the message of a failed request, by action.
pub open spec fn upstream_prefix(a: Action) -> Seq<char> {
    match a {
        Action::Search => "Search failed: "@,
        Action::FindSimilar => "FindSimilar failed: "@,
        Action::GetContents => "GetContents failed: "@,
    }
}

/// The message that reports a failure.
pub open spec fn failure_message(f: Failure) -> Seq<char> {
    match f {
        Failure::MissingApiKey => "EXA_API_KEY environment variable not set"@,
        Failure::UnreadableInput(s) => "Failed to read stdin: "@ + s@,
        Failure::InvalidJson(s) => "Invalid JSON input: "@ + s@,
        Failure::ClientSetup(s) => "Failed to create HTTP client: "@ + s@,
        Failure::Input(e) => error_message(e),
        Failure::Upstream(a, s) => upstream_prefix(a) + s@,
    }
}

impl Failure {
    /// The message that reports this failure.
    pub fn message(&self) -> (r: String)
        ensures
            r@ == failure_message(*self),
    {
        match self {
            Failure::MissingApiKey => String::from_str("EXA_API_KEY environment variable not set"),
            Failure::UnreadableInput(s) => String::from_str("Failed to read stdin: ").concat(s.as_str()),
            Failure::InvalidJson(s) => String::from_str("Invalid JSON input: ").concat(s.as_str()),
            Failure::ClientSetup(s) => String::from_str("Failed to create HTTP client: ").concat(
                s.as_str(),
            ),
            Failure::Input(e) => e.message(),
            Failure::Upstream(a, s) => {
                let prefix = match a {
                    Action::Search => String::from_str("Search failed: "),
                    Action::FindSimilar => String::from_str("FindSimilar failed: "),
                    Action::GetContents => String::from_str("GetContents failed: "),
                };
                prefix.concat(s.as_str())
            },
        }
    }
}

/// Accepts the service key read from the environment: one that is absent
/// or empty is a failure.
pub fn accept_api_key(key: Option<String>) -> (r: Result<String, Failure>)
    ensures
        key is Some && key.unwrap()@.len() > 0 ==> r == Ok::<String, Failure>(key.unwrap()),
        !(key is Some && key.unwrap()@.len() > 0) ==> r == Err::<String, Failure>(Failure::MissingApiKey),
{
    match key {
        Some(k) => {
            if k.as_str().is_empty() {
                Err(Failure::MissingApiKey)
            } else {
                Ok(k)
            }
        },
        None => Err(Failure::MissingApiKey),
    }
}

impl<R, M> Output<R, M> {
    /// Whether this output reports success.
    pub fn is_ok(&self) -> (r: bool)
        ensures
            r == !(*self is Error),
    {
        !matches!(self, Output::Error { .. })
    }

    /// The output for a successful request. Searches and find-similar
    /// requests carry the summary of their results; get-contents requests
    /// carry none. `headings` are what the summary shows of `results`, in
    /// the same order.
    pub fn success(action: Action, results: Vec<R>, headings: &Vec<ResultHeading>, meta: M) -> (r: Output<R, M>)
        ensures
            action == Action::GetContents ==> (r matches Output::ContentsOk { action: a, results: rs, meta: m }
                && a@ == action_name(action) && rs == results && m == meta),
            action != Action::GetContents ==> (r matches Output::SearchOk { action: a, results: rs, meta: m, formatted: f }
                && a@ == action_name(action) && rs == results && m == meta
                && f@ == formatted(headings@)),
    {
        let name = action.name();
        match action {
            Action::GetContents => Output::ContentsOk { action: name, results, meta },
            _ => {
                let formatted = format_results(headings);
                Output::SearchOk { action: name, results, meta, formatted }
            },
        }
    }

    /// The output that reports a failure.
    pub fn failed(failure: &Failure) -> (r: Output<R, M>)
        ensures
            r matches Output::Error { error } && error@ == failure_message(*failure),
    {
        Output::Error { error: failure.message() }
    }
}

} // verus!
