//! The user-facing, nested contents specification and its conversion into
//! the canonical contents options.
use vstd::prelude::*;
use crate::options::{
    no_text_options, ContentsOptions, ExtrasOptions, HighlightsOptions, SummaryOptions, TextOptions,
};

verus! {

/// Text extraction as a caller may ask for it: a plain switch, or options.
#[derive(Debug, Clone, PartialEq, Eq)]
pub enum TextInput {
    Enabled(bool),
    Options(TextOptions),
}

/// Highlight extraction as a caller may ask for it: a plain switch, or options.
#[derive(Debug, Clone, PartialEq, Eq)]
pub enum HighlightsInput {
    Enabled(bool),
    Options(HighlightsOptions),
}

/// A summary as a caller may ask for it: a plain switch, or options.
#[derive(Debug, Clone, PartialEq, Eq)]
pub enum SummaryInput {
    Enabled(bool),
    Options(SummaryOptions),
}

/// The nested contents specification of an input document.
#[derive(Debug, Clone, PartialEq, Eq)]
pub struct ContentsInput {
    pub text: Option<TextInput>,
    pub highlights: Option<HighlightsInput>,
    pub summary: Option<SummaryInput>,
    pub livecrawl: Option<String>,
    pub livecrawl_timeout: Option<u32>,
    pub max_age_hours: Option<i64>,
    pub filter_empty_results: Option<bool>,
    pub subpages: Option<u32>,
    pub subpage_target: Option<Vec<String>>,
    pub extras: Option<ExtrasOptions>,
}

/// `true` asks for text with nothing set, `false` for no text.
pub open spec fn text_request(t: Option<TextInput>) -> Option<TextOptions> {
    match t {
        Some(TextInput::Enabled(true)) => Some(no_text_options()),
        Some(TextInput::Options(o)) => Some(o),
        _ => None,
    }
}

/// `true` asks for highlights with nothing set, `false` for none.
pub open spec fn highlights_request(h: Option<HighlightsInput>) -> Option<HighlightsOptions> {
    match h {
        Some(HighlightsInput::Enabled(true)) => Some(
            HighlightsOptions { num_sentences: None, highlights_per_url: None, query: None },
        ),
        Some(HighlightsInput::Options(o)) => Some(o),
        _ => None,
    }
}

/// `true` asks for a summary with nothing set, `false` for none.
pub open spec fn summary_request(s: Option<SummaryInput>) -> Option<SummaryOptions> {
    match s {
        Some(SummaryInput::Enabled(true)) => Some(SummaryOptions { query: None }),
        Some(SummaryInput::Options(o)) => Some(o),
        _ => None,
    }
}

impl ContentsInput {
    /// The canonical options that this specification stands for: each switch
    /// becomes its options or their absence, every other field is kept.
    pub open spec fn spec_options(self) -> ContentsOptions {
        ContentsOptions {
            text: text_request(self.text),
            highlights: highlights_request(self.highlights),
            summary: summary_request(self.summary),
            livecrawl: self.livecrawl,
            livecrawl_timeout: self.livecrawl_timeout,
            max_age_hours: self.max_age_hours,
            filter_empty_results: self.filter_empty_results,
            subpages: self.subpages,
            subpage_target: self.subpage_target,
            extras: self.extras,
        }
    }

    /// Converts this specification into canonical contents options. Fields
    /// left unset stay absent.
    pub fn into_options(self) -> (r: ContentsOptions)
        ensures
            r == self.spec_options(),
    {
        let text = match self.text {
            Some(TextInput::Enabled(true)) => Some(TextOptions::unset()),
            Some(TextInput::Options(o)) => Some(o),
            _ => None,
        };
        let highlights = match self.highlights {
            Some(HighlightsInput::Enabled(true)) => Some(
                HighlightsOptions { num_sentences: None, highlights_per_url: None, query: None },
            ),
            Some(HighlightsInput::Options(o)) => Some(o),
            _ => None,
        };
        let summary = match self.summary {
            Some(SummaryInput::Enabled(true)) => Some(SummaryOptions { query: None }),
            Some(SummaryInput::Options(o)) => Some(o),
            _ => None,
        };
        ContentsOptions {
            text,
            highlights,
            summary,
            livecrawl: self.livecrawl,
            livecrawl_timeout: self.livecrawl_timeout,
            max_age_hours: self.max_age_hours,
            filter_empty_results: self.filter_empty_results,
            subpages: self.subpages,
            subpage_target: self.subpage_target,
            extras: self.extras,
        }
    }
}

} // verus!
