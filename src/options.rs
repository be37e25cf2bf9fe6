//! The request shapes sent to the search service, and their shared
//! contents sub-options.
use vstd::prelude::*;

verus! {

/// Options for full-text extraction.
#[derive(Debug, Clone, PartialEq, Eq)]
pub struct TextOptions {
    pub max_characters: Option<u32>,
    pub include_html_tags: Option<bool>,
}

/// Options for highlight extraction.
#[derive(Debug, Clone, PartialEq, Eq)]
pub struct HighlightsOptions {
    pub num_sentences: Option<u32>,
    pub highlights_per_url: Option<u32>,
    pub query: Option<String>,
}

/// Options for a generated summary.
#[derive(Debug, Clone, PartialEq, Eq)]
pub struct SummaryOptions {
    pub query: Option<String>,
}

/// Options for extra per-result data.
#[derive(Debug, Clone, PartialEq, Eq)]
pub struct ExtrasOptions {
    pub links: Option<u32>,
    pub image_links: Option<u32>,
}

/// The canonical, service-facing contents options.
#[derive(Debug, Clone, PartialEq, Eq)]
pub struct ContentsOptions {
    pub text: Option<TextOptions>,
    pub highlights: Option<HighlightsOptions>,
    pub summary: Option<SummaryOptions>,
    pub livecrawl: Option<String>,
    pub livecrawl_timeout: Option<u32>,
    pub max_age_hours: Option<i64>,
    pub filter_empty_results: Option<bool>,
    pub subpages: Option<u32>,
    pub subpage_target: Option<Vec<String>>,
    pub extras: Option<ExtrasOptions>,
}

/// Text options with nothing set.
pub open spec fn no_text_options() -> TextOptions {
    TextOptions { max_characters: None, include_html_tags: None }
}

/// Text options that set only the character limit.
pub open spec fn text_limited_to(n: u32) -> TextOptions {
    TextOptions { max_characters: Some(n), include_html_tags: None }
}

/// Contents options with every field absent.
pub open spec fn no_contents_options() -> ContentsOptions {
    ContentsOptions {
        text: None,
        highlights: None,
        summary: None,
        livecrawl: None,
        livecrawl_timeout: None,
        max_age_hours: None,
        filter_empty_results: None,
        subpages: None,
        subpage_target: None,
        extras: None,
    }
}

impl TextOptions {
    /// Text options with nothing set.
    pub fn unset() -> (r: TextOptions)
        ensures
            r == no_text_options(),
    {
        TextOptions { max_characters: None, include_html_tags: None }
    }

    /// Text options that set only the character limit.
    pub fn limited_to(n: u32) -> (r: TextOptions)
        ensures
            r == text_limited_to(n),
    {
        TextOptions { max_characters: Some(n), include_html_tags: None }
    }
}

impl ContentsOptions {
    /// Contents options with every field absent.
    pub fn absent() -> (r: ContentsOptions)
        ensures
            r == no_contents_options(),
    {
        ContentsOptions {
            text: None,
            highlights: None,
            summary: None,
            livecrawl: None,
            livecrawl_timeout: None,
            max_age_hours: None,
            filter_empty_results: None,
            subpages: None,
            subpage_target: None,
            extras: None,
        }
    }
}

} // verus!

verus! {

/// A search request.
#[derive(Debug, Clone, PartialEq, Eq)]
pub struct SearchOptions {
    pub query: String,
    pub num_results: Option<u32>,
    pub search_type: Option<String>,
    pub category: Option<String>,
    pub include_domains: Option<Vec<String>>,
    pub exclude_domains: Option<Vec<String>>,
    pub start_crawl_date: Option<String>,
    pub end_crawl_date: Option<String>,
    pub start_published_date: Option<String>,
    pub end_published_date: Option<String>,
    pub include_text: Option<Vec<String>>,
    pub exclude_text: Option<Vec<String>>,
    pub use_autoprompt: Option<bool>,
    pub moderation: Option<bool>,
    pub user_location: Option<String>,
    pub additional_queries: Option<Vec<String>>,
    pub contents: Option<ContentsOptions>,
}

/// A find-similar request.
#[derive(Debug, Clone, PartialEq, Eq)]
pub struct FindSimilarOptions {
    pub url: String,
    pub num_results: Option<u32>,
    pub include_domains: Option<Vec<String>>,
    pub exclude_domains: Option<Vec<String>>,
    pub start_crawl_date: Option<String>,
    pub end_crawl_date: Option<String>,
    pub start_published_date: Option<String>,
    pub end_published_date: Option<String>,
    pub include_text: Option<Vec<String>>,
    pub exclude_text: Option<Vec<String>>,
    pub exclude_source_domain: Option<bool>,
    pub category: Option<String>,
    pub contents: Option<ContentsOptions>,
}

/// A get-contents request: the contents options stand beside the URLs.
#[derive(Debug, Clone, PartialEq, Eq)]
pub struct GetContentsOptions {
    pub urls: Vec<String>,
    pub text: Option<TextOptions>,
    pub summary: Option<SummaryOptions>,
    pub highlights: Option<HighlightsOptions>,
    pub livecrawl: Option<String>,
    pub livecrawl_timeout: Option<u32>,
    pub max_age_hours: Option<i64>,
    pub filter_empty_results: Option<bool>,
    pub subpages: Option<u32>,
    pub subpage_target: Option<Vec<String>>,
    pub extras: Option<ExtrasOptions>,
}

} // verus!
