//! The requested operation and how it is read from the input.
use vstd::prelude::*;

verus! {

/// The three operations of the search service.
#[derive(Debug, Clone, Copy, PartialEq, Eq, Structural)]
pub enum Action {
    Search,
    FindSimilar,
    GetContents,
}

/// The name under which an action is requested and reported.
pub open spec fn action_name(a: Action) -> Seq<char> {
    match a {
        Action::Search => "search"@,
        Action::FindSimilar => "find_similar"@,
        Action::GetContents => "get_contents"@,
    }
}

/// The action that an input's `action` field asks for: `search` when it is
/// absent, `None` when it names no known action.
pub open spec fn requested_action(action: Option<Seq<char>>) -> Option<Action> {
    match action {
        None => Some(Action::Search),
        Some(s) => if s == "search"@ {
            Some(Action::Search)
        } else if s == "find_similar"@ {
            Some(Action::FindSimilar)
        } else if s == "get_contents"@ {
            Some(Action::GetContents)
        } else {
            None
        },
    }
}

/// The view of an optional string.
pub open spec fn opt_view(s: Option<String>) -> Option<Seq<char>> {
    match s {
        Some(v) => Some(v@),
        None => None,
    }
}

impl Action {
    /// The name under which this action is requested and reported.
    pub fn name(&self) -> (r: String)
        ensures
            r@ == action_name(*self),
    {
        match self {
            Action::Search => String::from_str("search"),
            Action::FindSimilar => String::from_str("find_similar"),
            Action::GetContents => String::from_str("get_contents"),
        }
    }

    /// Reads the action from an input's `action` field.
    pub fn from_field(action: &Option<String>) -> (r: Option<Action>)
        ensures
            r == requested_action(opt_view(*action)),
    {
        match action {
            None => Some(Action::Search),
            Some(s) => {
                if *s == String::from_str("search") {
                    Some(Action::Search)
                } else if *s == String::from_str("find_similar") {
                    Some(Action::FindSimilar)
                } else if *s == String::from_str("get_contents") {
                    Some(Action::GetContents)
                } else {
                    None
                }
            },
        }
    }

    /// The path of the service endpoint that serves this action.
    pub fn endpoint_path(&self) -> (r: String)
        ensures
            r@ == match *self {
                Action::Search => "/search"@,
                Action::FindSimilar => "/findSimilar"@,
                Action::GetContents => "/contents"@,
            },
    {
        match self {
            Action::Search => String::from_str("/search"),
            Action::FindSimilar => String::from_str("/findSimilar"),
            Action::GetContents => String::from_str("/contents"),
        }
    }

    /// The address of the endpoint that serves this action.
    pub fn endpoint_url(&self) -> (r: String)
        ensures
            r@ == endpoint_url(*self),
    {
        let path = self.endpoint_path();
        String::from_str("https://api.exa.ai").concat(path.as_str())
    }
}

/// The address of the endpoint that serves an action.
pub open spec fn endpoint_url(a: Action) -> Seq<char> {
    "https://api.exa.ai"@ + match a {
        Action::Search => "/search"@,
        Action::FindSimilar => "/findSimilar"@,
        Action::GetContents => "/contents"@,
    }
}

/// An absent `action` field asks for a search.
pub proof fn lemma_absent_action_is_search()
    ensures
        requested_action(None) == Some(Action::Search),
{
}

} // verus!
